//! Verified core of the BoltFFI binding generator: the binding-contract
//! names and codec plans, the C# backend's admission gate, custom-type
//! erasure and callback plans, the Kotlin Multiplatform surface renderer,
//! and the packaging decisions of the command-line tool.

pub mod text;
pub mod names;
pub mod ids;
pub mod types;
pub mod defs;
pub mod id_sets;
pub mod custom_chains;
pub mod csharp_admission;
pub mod naming;
pub mod csharp_names;
pub mod csharp_ast;
pub mod csharp_plan;
pub mod wire;
pub mod abi;
pub mod csharp_lowerer;
pub mod csharp_custom;
pub mod csharp_codec;
pub mod csharp_callbacks;
pub mod kmp_names;
pub mod kmp_support;
pub mod kmp_render;
pub mod kmp_decls;
pub mod kmp_emit;
pub mod kmp_laws;
pub mod paths;
pub mod cli_config;
pub mod pack_rules;
pub mod exported_classes;
pub mod boxed_future;
pub mod ts_doc;
pub mod lower_error;
pub mod cfg_context;
pub mod generate_plan;
pub mod codec;
pub mod wasm_pack;
pub mod wasm_pack_flow;
pub mod wasm_bindgen;
pub mod typescript_output;
