# boltffi_bindgen

The verified core of the BoltFFI binding generator, written in Verus.

`src/` holds the logic, each function with a contract that Verus proves:

- the binding contract: ids, type expressions, declarations and their
  catalog (`ids`, `types`, `defs`, `names`, `codec`, `wire`, `abi`);
- the C# backend: the admission gate that decides which records and enums
  can be rendered (a least fixed point), custom-type erasure, type lowering,
  wire codec expressions and the callback plans (`csharp_*`);
- the Kotlin Multiplatform backend: the supported surface (least fixed
  points again), the common declarations, the JVM actuals and the project
  files, and what the project promises as a whole (`kmp_*`);
- the command-line decisions: configuration and targets, packaging gates,
  paths and file texts for C#, Kotlin Multiplatform and WebAssembly
  (`cli_config`, `generate_plan`, `pack_rules`, `wasm_pack`,
  `wasm_bindgen`, `typescript_output`), the order of the work `pack wasm`
  does, from the checks that refuse a run before any work to the last
  file, as a step from state and event to the next piece of work
  (`wasm_pack_flow`), the exported-class registry over a plain model of the
  scanned items, the detection of trait methods returning boxed futures
  over a plain model of their return types (`boxed_future`), and `cfg`
  evaluation of the scanner.

`app/` holds what runs around it: the file system, child processes
(`cargo`, `dotnet`, `wasm-bindgen`, `wasm-opt`, `tsc`) and the Rust syntax
trees of the scanner and macros.

`tests/` exercises the library on concrete inputs.
