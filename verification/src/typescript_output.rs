//! Where the TypeScript bindings are written, and the runtime package
//! their import names.

use vstd::prelude::*;
use vstd::string::*;

use crate::paths::{join_path, path_join};
use crate::wasm_bindgen::{find_text, first_occurrence, lemma_first_occurrence};

verus! {

/// A bundle the npm package ships.
#[derive(Clone, Copy, Debug, PartialEq, Eq, Structural)]
pub enum WasmNpmTarget {
    Bundler,
    Web,
    Nodejs,
}

/// `source` with its first occurrence of `pattern` replaced by
/// `replacement`, as `str::replacen` with a count of one gives it.
pub open spec fn replaced_first(source: Seq<char>, pattern: Seq<char>, replacement: Seq<char>) -> Seq<char> {
    let i = first_occurrence(source, pattern, 0);
    if i < 0 {
        source
    } else {
        source.take(i) + replacement + source.skip(i + pattern.len())
    }
}

/// The bindings with their import of the default runtime package pointed
/// at `runtime_package`; only the first such import is rewritten.
pub open spec fn retargeted_runtime_import(source: Seq<char>, runtime_package: Seq<char>) -> Seq<char> {
    replaced_first(source, "from \"@boltffi/runtime\""@, "from \""@ + runtime_package + "\""@)
}

/// Points the bindings' runtime import at `runtime_package`; see
/// [`retargeted_runtime_import`].
pub fn retarget_runtime_import(source: &str, runtime_package: &str) -> (res: String)
    ensures
        res@ == retargeted_runtime_import(source@, runtime_package@),
{
    let pattern = "from \"@boltffi/runtime\"";
    let mut replacement = String::from_str("from \"");
    replacement.append(runtime_package);
    replacement.append("\"");
    match find_text(source, pattern) {
        None => String::from_str(source),
        Some(i) => {
            proof {
                lemma_first_occurrence(source@, pattern@, 0);
            }
            let n = source.unicode_len();
            let end = i + pattern.unicode_len();
            let mut res = String::from_str(source.substring_char(0, i));
            res.append(replacement.as_str());
            res.append(source.substring_char(end, n));
            proof {
                assert(source@.subrange(0, i as int) =~= source@.take(i as int));
                assert(source@.subrange(end as int, n as int) =~= source@.skip(end as int));
            }
            res
        },
    }
}

/// Whether the npm package ships a Node.js bundle.
pub fn emits_node_bundle(targets: &Vec<WasmNpmTarget>) -> (res: bool)
    ensures
        res == targets@.contains(WasmNpmTarget::Nodejs),
{
    let mut i: usize = 0;
    while i < targets.len()
        invariant
            i <= targets@.len(),
            forall|k: int| 0 <= k < i ==> targets@[k] != WasmNpmTarget::Nodejs,
        decreases targets.len() - i,
    {
        if targets[i] == WasmNpmTarget::Nodejs {
            assert(targets@[i as int] == WasmNpmTarget::Nodejs);
            return true;
        }
        i = i + 1;
    }
    false
}

/// The files of the TypeScript bindings of a module: the browser bindings
/// `<module>.ts` and the Node.js bindings `<module>_node.ts`.
pub struct TypeScriptOutputPaths {
    pub browser: String,
    pub node: String,
}

/// The binding files of `module_name` in `output_directory`.
pub fn typescript_output_paths(output_directory: &str, module_name: &str) -> (res: TypeScriptOutputPaths)
    ensures
        res.browser@ == path_join(output_directory@, module_name@ + ".ts"@),
        res.node@ == path_join(output_directory@, module_name@ + "_node.ts"@),
{
    let mut browser = String::from_str(module_name);
    browser.append(".ts");
    let mut node = String::from_str(module_name);
    node.append("_node.ts");
    TypeScriptOutputPaths {
        browser: join_path(output_directory, browser.as_str()),
        node: join_path(output_directory, node.as_str()),
    }
}

} // verus!
