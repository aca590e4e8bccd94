//! Running `wasm-bindgen` for `pack wasm`: detecting a module that still
//! imports its placeholder shims, naming the files it writes, and patching
//! its web glue so the `env` imports come from the BoltFFI runtime.

use vstd::prelude::*;
use vstd::string::*;

use crate::cli_config::CliError;
use crate::naming::starts_with;
use crate::paths::{join_path, path_join};
use crate::text::push_decimal;
use crate::text::decimal_nat;

verus! {

/// The module names a WebAssembly binary imports from, in order, as
/// wasmparser reads its import sections; payloads and imports it cannot
/// read are passed over.
pub uninterp spec fn wasm_import_modules(bytes: Seq<u8>) -> Seq<Seq<char>>;

/// Reads the import module names of a WebAssembly binary with
/// `wasmparser::Parser::parse_all`; the names are only named, by
/// [`wasm_import_modules`], as a function of the bytes.
#[verifier::external_body]
fn import_module_names(bytes: &[u8]) -> (res: Vec<String>)
    ensures
        res@.map_values(|s: String| s@) == wasm_import_modules(bytes@),
{
    let mut names = Vec::new();
    for payload in wasmparser::Parser::new(0).parse_all(bytes) {
        if let Ok(wasmparser::Payload::ImportSection(reader)) = payload {
            for import in reader.into_imports() {
                if let Ok(import) = import {
                    names.push(import.module.to_string());
                }
            }
        }
    }
    names
}

/// Whether a module name is one of the shims `wasm-bindgen` rewrites.
pub open spec fn is_placeholder_module(module: Seq<char>) -> bool {
    ||| (module.len() >= "__wbindgen_placeholder__"@.len() && module.take("__wbindgen_placeholder__"@.len() as int)
        == "__wbindgen_placeholder__"@)
    ||| (module.len() >= "__wbindgen_externref_xform__"@.len() && module.take(
        "__wbindgen_externref_xform__"@.len() as int,
    ) == "__wbindgen_externref_xform__"@)
}

/// Whether any of the module names is a placeholder shim.
pub fn has_placeholder_module(modules: &Vec<String>) -> (res: bool)
    ensures
        res == exists|i: int| 0 <= i < modules@.len() && is_placeholder_module(#[trigger] modules@[i]@),
{
    let mut i: usize = 0;
    while i < modules.len()
        invariant
            i <= modules@.len(),
            forall|k: int| 0 <= k < i ==> !is_placeholder_module(#[trigger] modules@[k]@),
        decreases modules.len() - i,
    {
        let m = modules[i].as_str();
        if starts_with(m, "__wbindgen_placeholder__") || starts_with(m, "__wbindgen_externref_xform__") {
            assert(is_placeholder_module(modules@[i as int]@));
            return true;
        }
        i = i + 1;
    }
    false
}

/// Whether a WebAssembly binary still imports `wasm-bindgen` placeholder
/// shims, which means `wasm-bindgen` has to run on it.
pub fn wasm_has_placeholder_imports_bytes(bytes: &[u8]) -> (res: bool)
    ensures
        res == exists|i: int|
            0 <= i < wasm_import_modules(bytes@).len() && is_placeholder_module(#[trigger] wasm_import_modules(bytes@)[i]),
{
    let names = import_module_names(bytes);
    let found = has_placeholder_module(&names);
    proof {
        let views = names@.map_values(|s: String| s@);
        if found {
            let i = choose|i: int| 0 <= i < names@.len() && is_placeholder_module(#[trigger] names@[i]@);
            assert(views[i] == names@[i]@);
        } else {
            assert forall|i: int| 0 <= i < views.len() implies !is_placeholder_module(#[trigger] views[i]) by {
                assert(views[i] == names@[i]@);
            }
        }
    }
    found
}

/// The base name of the files `wasm-bindgen` writes for a module.
pub open spec fn bindgen_out_name(module: Seq<char>) -> Seq<char> {
    module + "_wbg"@
}

/// The files around a `wasm-bindgen` run in the TypeScript output
/// directory.
pub struct WasmBindgenFiles {
    /// The base name `wasm-bindgen` is told to use.
    pub out_name: String,
    /// The binary `wasm-bindgen` writes.
    pub bindgen_wasm: String,
    /// Where that binary is moved to, under the packaged name.
    pub packaged_wasm: String,
    /// The JavaScript glue `wasm-bindgen` writes.
    pub glue_js: String,
    /// The marker that tells the TypeScript generator about the glue.
    pub marker: String,
}

/// The `wasm-bindgen` files of `module` under `ts_out`: the glue is
/// `<module>_wbg.js`, the binary `<module>_wbg_bg.wasm` is renamed to
/// `<module>_bg.wasm`, and the marker is `<module>.boltffi.json`.
pub fn wasm_bindgen_files(ts_out: &str, module_name: &str) -> (res: WasmBindgenFiles)
    ensures
        res.out_name@ == bindgen_out_name(module_name@),
        res.bindgen_wasm@ == path_join(ts_out@, bindgen_out_name(module_name@) + "_bg.wasm"@),
        res.packaged_wasm@ == path_join(ts_out@, module_name@ + "_bg.wasm"@),
        res.glue_js@ == path_join(ts_out@, bindgen_out_name(module_name@) + ".js"@),
        res.marker@ == path_join(ts_out@, module_name@ + ".boltffi.json"@),
{
    let mut out_name = String::from_str(module_name);
    out_name.append("_wbg");
    let mut bindgen_wasm = out_name.clone();
    bindgen_wasm.append("_bg.wasm");
    let mut packaged = String::from_str(module_name);
    packaged.append("_bg.wasm");
    let mut glue = out_name.clone();
    glue.append(".js");
    let mut marker = String::from_str(module_name);
    marker.append(".boltffi.json");
    WasmBindgenFiles {
        bindgen_wasm: join_path(ts_out, bindgen_wasm.as_str()),
        packaged_wasm: join_path(ts_out, packaged.as_str()),
        glue_js: join_path(ts_out, glue.as_str()),
        marker: join_path(ts_out, marker.as_str()),
        out_name,
    }
}

/// The arguments of `wasm-bindgen`: debug info kept, the web target, the
/// output directory and name, no default module path, no TypeScript, and
/// the cargo-built binary.
pub open spec fn wasm_bindgen_arg_texts(ts_out: Seq<char>, out_name: Seq<char>, cargo_wasm: Seq<char>) -> Seq<Seq<char>> {
    seq![
        "--keep-debug"@,
        "--target"@,
        "web"@,
        "--out-dir"@,
        ts_out,
        "--out-name"@,
        out_name,
        "--omit-default-module-path"@,
        "--no-typescript"@,
        cargo_wasm,
    ]
}

/// The arguments of `wasm-bindgen`; see [`wasm_bindgen_arg_texts`].
pub fn wasm_bindgen_args(ts_out: &str, out_name: &str, cargo_wasm_path: &str) -> (res: Vec<String>)
    ensures
        res@.map_values(|s: String| s@) == wasm_bindgen_arg_texts(ts_out@, out_name@, cargo_wasm_path@),
{
    let res = vec![
        String::from_str("--keep-debug"),
        String::from_str("--target"),
        String::from_str("web"),
        String::from_str("--out-dir"),
        String::from_str(ts_out),
        String::from_str("--out-name"),
        String::from_str(out_name),
        String::from_str("--omit-default-module-path"),
        String::from_str("--no-typescript"),
        String::from_str(cargo_wasm_path),
    ];
    assert(res@.map_values(|s: String| s@) =~= wasm_bindgen_arg_texts(ts_out@, out_name@, cargo_wasm_path@));
    res
}

/// The lower-case hexadecimal digit of `n`, for `n` below 16.
pub open spec fn hex_digit(n: int) -> char {
    if n < 10 {
        (('0' as int) + n) as char
    } else {
        (('a' as int) + n - 10) as char
    }
}

/// How a JSON string writes the character `c`: the quote, the backslash
/// and the control characters below U+0020 are escaped, the short forms
/// `\b \t \n \f \r` where there is one and `\u00XX` otherwise; every other
/// character stands as it is.
pub open spec fn json_escaped_char(c: char) -> Seq<char> {
    if c == '"' {
        seq!['\\', '"']
    } else if c == '\\' {
        seq!['\\', '\\']
    } else if c == '\u{8}' {
        seq!['\\', 'b']
    } else if c == '\t' {
        seq!['\\', 't']
    } else if c == '\n' {
        seq!['\\', 'n']
    } else if c == '\u{c}' {
        seq!['\\', 'f']
    } else if c == '\r' {
        seq!['\\', 'r']
    } else if (c as int) < 0x20 {
        seq!['\\', 'u', '0', '0', hex_digit((c as int) / 16), hex_digit((c as int) % 16)]
    } else {
        seq![c]
    }
}

/// The contents of a JSON string holding `s`.
pub open spec fn json_escaped(s: Seq<char>) -> Seq<char>
    decreases s.len(),
{
    if s.len() == 0 {
        Seq::empty()
    } else {
        json_escaped(s.drop_last()) + json_escaped_char(s.last())
    }
}

/// The pretty JSON text of an object with the one string field `key` set
/// to `value`, indented by two spaces.
pub open spec fn pretty_json_single_field(key: Seq<char>, value: Seq<char>) -> Seq<char> {
    "{\n  \""@ + json_escaped(key) + "\": \""@ + json_escaped(value) + "\"\n}"@
}

/// Serialises the object `{ key: value }` with `serde_json::to_string_pretty`.
/// Claimed: it succeeds (the object has a string key and a string value,
/// written into memory) and gives [`pretty_json_single_field`], serde_json's
/// escape table and its two-space pretty formatter.
#[verifier::external_body]
fn pretty_json_object(key: &str, value: &str) -> (res: Result<String, String>)
    ensures
        res is Ok,
        res->Ok_0@ == pretty_json_single_field(key@, value@),
{
    let mut object = serde_json::Map::new();
    object.insert(key.to_string(), serde_json::Value::String(value.to_string()));
    serde_json::to_string_pretty(&serde_json::Value::Object(object)).map_err(|e| e.to_string())
}

/// The marker written next to the glue: the pretty JSON object naming the
/// glue file, and a newline.
pub fn wasm_bindgen_marker(out_name: &str) -> (res: Result<String, CliError>)
    ensures
        res is Ok,
        res->Ok_0@ == pretty_json_single_field("wasm_bindgen_glue"@, out_name@ + ".js"@) + "\n"@,
{
    let mut glue = String::from_str(out_name);
    glue.append(".js");
    match pretty_json_object("wasm_bindgen_glue", glue.as_str()) {
        Ok(text) => {
            let mut res = text;
            res.append("\n");
            Ok(res)
        },
        Err(message) => {
            let mut command = String::from_str("serde_json: ");
            command.append(message.as_str());
            Err(CliError::refused(command))
        },
    }
}

/// The pattern of a glue line that imports a namespace from `"env"`.
pub const ENV_IMPORT_PATTERN: &'static str = "(?m)^import \\* as import\\d+ from \"env\"\\s*\\n";

/// How many non-overlapping matches of the regular expression `pattern`
/// `regex::Regex::find_iter` finds in `text`.
pub uninterp spec fn regex_match_count(pattern: Seq<char>, text: Seq<char>) -> nat;

/// `text` with every match of the regular expression `pattern` removed by
/// `regex::Regex::replace_all`.
pub uninterp spec fn regex_matches_removed(pattern: Seq<char>, text: Seq<char>) -> Seq<char>;

/// How many lines of the glue import a namespace from `"env"`.
pub open spec fn env_import_count(glue: Seq<char>) -> nat {
    regex_match_count(ENV_IMPORT_PATTERN@, glue)
}

/// The glue with those import lines removed.
pub open spec fn env_imports_removed(glue: Seq<char>) -> Seq<char> {
    regex_matches_removed(ENV_IMPORT_PATTERN@, glue)
}

/// Counts the matches of `pattern` in `text` with `regex::Regex::new` and
/// `find_iter`; the count is only named, by [`regex_match_count`]. The
/// pattern of the `env` imports compiles; another may be refused, with
/// regex's message.
#[verifier::external_body]
fn count_matches(pattern: &str, text: &str) -> (res: Result<usize, String>)
    ensures
        res matches Ok(n) ==> n as nat == regex_match_count(pattern@, text@),
        pattern@ == ENV_IMPORT_PATTERN@ ==> res is Ok,
{
    let regex = regex::Regex::new(pattern).map_err(|e| e.to_string())?;
    Ok(regex.find_iter(text).count())
}

/// Removes the matches of `pattern` from `text` with `regex::Regex::new` and
/// `replace_all`; the text is only named, by [`regex_matches_removed`]. The
/// pattern of the `env` imports compiles; another may be refused, with
/// regex's message.
#[verifier::external_body]
fn remove_matches(pattern: &str, text: &str) -> (res: Result<String, String>)
    ensures
        res matches Ok(t) ==> t@ == regex_matches_removed(pattern@, text@),
        pattern@ == ENV_IMPORT_PATTERN@ ==> res is Ok,
{
    let regex = regex::Regex::new(pattern).map_err(|e| e.to_string())?;
    Ok(regex.replace_all(text, "").to_string())
}

/// Whether `pat` occurs in `s` at `i`.
pub open spec fn occurs_at(s: Seq<char>, pat: Seq<char>, i: int) -> bool {
    0 <= i && i + pat.len() <= s.len() && s.subrange(i, i + pat.len()) == pat
}

/// Whether `pat` occurs in `s` at all.
pub open spec fn occurs_in(s: Seq<char>, pat: Seq<char>) -> bool {
    exists|i: int| occurs_at(s, pat, i)
}

/// Where `pat` first occurs in `s` at or after `from`, or -1.
pub open spec fn first_occurrence(s: Seq<char>, pat: Seq<char>, from: int) -> int
    decreases s.len() + 1 - from,
{
    if from < 0 || from + pat.len() > s.len() {
        -1
    } else if occurs_at(s, pat, from) {
        from
    } else {
        first_occurrence(s, pat, from + 1)
    }
}

/// The first occurrence at or after `from` is one, and none comes before
/// it; -1 means there is none.
pub proof fn lemma_first_occurrence(s: Seq<char>, pat: Seq<char>, from: int)
    requires
        0 <= from,
    ensures
        first_occurrence(s, pat, from) == -1 ==> forall|i: int| from <= i ==> !occurs_at(s, pat, i),
        first_occurrence(s, pat, from) != -1 ==> from <= first_occurrence(s, pat, from) && occurs_at(
            s,
            pat,
            first_occurrence(s, pat, from),
        ),
    decreases s.len() + 1 - from,
{
    if from + pat.len() <= s.len() && !occurs_at(s, pat, from) {
        lemma_first_occurrence(s, pat, from + 1);
    }
}

fn occurs_at_exec(s: &str, pat: &str, i: usize) -> (res: bool)
    requires
        i + pat@.len() <= s@.len(),
    ensures
        res == occurs_at(s@, pat@, i as int),
{
    let n = s.unicode_len();
    let m = pat.unicode_len();
    let mut k: usize = 0;
    while k < m
        invariant
            m == pat@.len(),
            n == s@.len(),
            i + m <= s@.len(),
            k <= m,
            forall|j: int| 0 <= j < k ==> s@[i + j] == pat@[j],
        decreases m - k,
    {
        if s.get_char(i + k) != pat.get_char(k) {
            proof {
                if occurs_at(s@, pat@, i as int) {
                    assert(s@.subrange(i as int, i + m)[k as int] == pat@[k as int]);
                }
            }
            return false;
        }
        k = k + 1;
    }
    assert(s@.subrange(i as int, i + m) =~= pat@);
    true
}

/// Where `pat` first occurs in `s`; see [`first_occurrence`].
pub fn find_text(s: &str, pat: &str) -> (res: Option<usize>)
    ensures
        res matches Some(i) ==> i as int == first_occurrence(s@, pat@, 0),
        res is None ==> first_occurrence(s@, pat@, 0) == -1,
{
    let n = s.unicode_len();
    let m = pat.unicode_len();
    if m > n {
        return None;
    }
    if m == 0 {
        assert(s@.subrange(0, 0) =~= pat@);
        return Some(0);
    }
    let mut i: usize = 0;
    while i <= n - m
        invariant
            n == s@.len(),
            m == pat@.len(),
            1 <= m <= n,
            i <= n - m + 1,
            first_occurrence(s@, pat@, 0) == first_occurrence(s@, pat@, i as int),
        decreases n - i,
    {
        if occurs_at_exec(s, pat, i) {
            return Some(i);
        }
        i = i + 1;
    }
    None
}

/// The line that imports the pending environment from the runtime package.
pub open spec fn runtime_import_line(runtime_package: Seq<char>) -> Seq<char> {
    "import { __boltffi_takePendingEnv } from \""@ + runtime_package + "\";\n"@
}

/// The function of the glue the environment is injected into.
pub open spec fn imports_marker() -> Seq<char> {
    "function __wbg_get_imports() {"@
}

/// The extra aliases `const import<k> = import1;` for `k` from 2 to `n`.
pub open spec fn import_aliases(n: nat) -> Seq<char>
    decreases n,
{
    if n < 2 {
        Seq::empty()
    } else {
        import_aliases((n - 1) as nat) + "    const import"@ + decimal_nat(n) + " = import1;\n"@
    }
}

/// What is injected after the marker: `import1` bound to the pending
/// environment, and every further `env` namespace an alias of it.
pub open spec fn env_injection(n: nat) -> Seq<char> {
    "\n    const import1 = __boltffi_takePendingEnv();\n"@ + import_aliases(n)
}

/// The export of the instantiation helpers, added when the glue lacks it.
pub open spec fn helpers_export() -> Seq<char> {
    "\n// boltffi: wasm-bindgen helpers for BoltFFI host instantiation\nexport { __wbg_get_imports, __wbg_finalize_init };\n"@
}

/// The patched glue, given the glue without its `env` imports and how many
/// there were: the runtime import first, the environment injected right
/// after the first marker, and the helpers exported unless already; `None`
/// when the marker is missing.
pub open spec fn patched_glue(stripped: Seq<char>, env_imports: nat, runtime_package: Seq<char>) -> Option<Seq<char>> {
    let s = runtime_import_line(runtime_package) + stripped;
    let pos = first_occurrence(s, imports_marker(), 0);
    if pos < 0 {
        None
    } else {
        let at = pos + imports_marker().len();
        let n: nat = if env_imports == 0 {
            1
        } else {
            env_imports
        };
        let injected = s.take(at) + env_injection(n) + s.skip(at);
        Some(
            if occurs_in(injected, "export { __wbg_get_imports"@) {
                injected
            } else {
                injected + helpers_export()
            },
        )
    }
}

/// The refusal of a glue without the marker.
pub open spec fn missing_marker_text(glue_path: Seq<char>) -> Seq<char> {
    "wasm-bindgen glue missing `"@ + imports_marker() + "` in "@ + glue_path
}

/// Patches the `wasm-bindgen` web glue found at `glue_path` with the text
/// `glue`; see [`patched_glue`]. A glue without the marker is refused.
pub fn patch_wasm_bindgen_glue(glue: &str, runtime_package: &str, glue_path: &str) -> (res: Result<String, CliError>)
    ensures
        res is Ok <==> patched_glue(env_imports_removed(glue@), env_import_count(glue@), runtime_package@) is Some,
        res matches Ok(text) ==> patched_glue(env_imports_removed(glue@), env_import_count(glue@), runtime_package@) == Some(text@),
        res matches Err(e) ==> e matches CliError::CommandFailed { command, status } && command@ == missing_marker_text(
            glue_path@,
        ) && status is None,
{
    let count = match count_matches(ENV_IMPORT_PATTERN, glue) {
        Ok(n) => n,
        Err(message) => {
            let mut command = String::from_str("regex: ");
            command.append(message.as_str());
            return Err(CliError::refused(command));
        },
    };
    let stripped = match remove_matches(ENV_IMPORT_PATTERN, glue) {
        Ok(text) => text,
        Err(message) => {
            let mut command = String::from_str("regex: ");
            command.append(message.as_str());
            return Err(CliError::refused(command));
        },
    };
    let n: usize = if count == 0 {
        1
    } else {
        count
    };
    let mut s = String::from_str("import { __boltffi_takePendingEnv } from \"");
    s.append(runtime_package);
    s.append("\";\n");
    s.append(stripped.as_str());
    let ghost sv = s@;
    let slen = s.as_str().unicode_len();
    assert(sv == runtime_import_line(runtime_package@) + env_imports_removed(glue@));
    let marker = "function __wbg_get_imports() {";
    let pos = match find_text(s.as_str(), marker) {
        Some(p) => p,
        None => {
            let mut command = String::from_str("wasm-bindgen glue missing `");
            command.append(marker);
            command.append("` in ");
            command.append(glue_path);
            return Err(CliError::refused(command));
        },
    };
    proof {
        lemma_first_occurrence(sv, imports_marker(), 0);
    }
    let at = pos + marker.unicode_len();
    let mut injected = String::from_str(s.as_str().substring_char(0, at));
    injected.append("\n    const import1 = __boltffi_takePendingEnv();\n");
    let mut k: usize = 1;
    while k < n
        invariant
            1 <= k <= n,
            at <= sv.len(),
            injected@ == sv.subrange(0, at as int) + "\n    const import1 = __boltffi_takePendingEnv();\n"@ + import_aliases(k as nat),
        decreases n - k,
    {
        k = k + 1;
        injected.append("    const import");
        push_decimal(&mut injected, k as u128);
        injected.append(" = import1;\n");
    }
    let rest = s.as_str().substring_char(at, slen);
    injected.append(rest);
    proof {
        assert(sv.subrange(0, at as int) =~= sv.take(at as int));
        assert(sv.subrange(at as int, sv.len() as int) =~= sv.skip(at as int));
        assert(injected@ =~= sv.take(at as int) + env_injection(n as nat) + sv.skip(at as int));
    }
    if find_text(injected.as_str(), "export { __wbg_get_imports").is_none() {
        proof {
            lemma_first_occurrence(injected@, "export { __wbg_get_imports"@, 0);
        }
        injected.append(
            "\n// boltffi: wasm-bindgen helpers for BoltFFI host instantiation\nexport { __wbg_get_imports, __wbg_finalize_init };\n",
        );
    } else {
        proof {
            lemma_first_occurrence(injected@, "export { __wbg_get_imports"@, 0);
        }
    }
    Ok(injected)
}

} // verus!
