//! The decisions of `pack wasm`: when it is refused, which build profile's
//! artifact it packs, how `wasm-opt` and `tsc` are invoked, and how their
//! outcomes are judged.

use vstd::prelude::*;
use vstd::string::*;

use crate::cli_config::CliError;
use crate::pack_rules::refused_with;
use crate::text::{join_strings, joined, trim, trim_end, trimmed, trimmed_end};

verus! {

/// The profile a WebAssembly artifact is built with.
#[derive(Clone, Copy, Debug, PartialEq, Eq, Structural)]
pub enum WasmProfile {
    Debug,
    Release,
}

/// The cargo profile a build resolved to.
pub enum BuildProfileKind {
    Debug,
    Release,
    Named(String),
}

/// How hard `wasm-opt` optimises.
#[derive(Clone, Copy, Debug, PartialEq, Eq, Structural)]
pub enum WasmOptimizeLevel {
    O0,
    O1,
    O2,
    O3,
    O4,
    Size,
    MinSize,
}

/// What to do when `wasm-opt` is not installed.
#[derive(Clone, Copy, Debug, PartialEq, Eq, Structural)]
pub enum WasmOptimizeOnMissing {
    Error,
    Warn,
    Skip,
}

/// What happens to the optimisation step when `wasm-opt` is missing and
/// the pack goes on.
#[derive(Clone, Copy, Debug, PartialEq, Eq, Structural)]
pub enum MissingOptimizer {
    /// Go on after printing a warning.
    WarnAndSkip,
    /// Go on silently.
    Skip,
}

/// `pack wasm` needs the target enabled and, when it writes a
/// `package.json`, an npm package name.
pub fn ensure_wasm_pack_allowed(wasm_enabled: bool, generate_package_json: bool, npm_package_name: Option<&str>) -> (res: Result<
    (),
    CliError,
>)
    ensures
        !wasm_enabled ==> refused_with(res, "targets.wasm.enabled = false"@),
        wasm_enabled && generate_package_json && npm_package_name is None ==> refused_with(
            res,
            "targets.wasm.npm.package_name is required for pack wasm"@,
        ),
        wasm_enabled && !(generate_package_json && npm_package_name is None) ==> res is Ok,
{
    if !wasm_enabled {
        return Err(CliError::refused(String::from_str("targets.wasm.enabled = false")));
    }
    if generate_package_json && npm_package_name.is_none() {
        return Err(CliError::refused(String::from_str("targets.wasm.npm.package_name is required for pack wasm")));
    }
    Ok(())
}

/// The profile to build: release when asked on the command line, the
/// configured one otherwise.
pub fn requested_wasm_profile(release: bool, configured: WasmProfile) -> (res: WasmProfile)
    ensures
        res == (if release {
            WasmProfile::Release
        } else {
            configured
        }),
{
    if release {
        WasmProfile::Release
    } else {
        configured
    }
}

/// The refusal of a custom cargo profile without an artifact path.
pub open spec fn named_profile_refusal(name: Seq<char>) -> Seq<char> {
    "custom cargo profile '"@ + name + "' for wasm pack requires targets.wasm.artifact_path"@
}

/// The profile whose artifact is packed: the build profile's own for
/// `debug` and `release`; for a custom profile, the requested one when the
/// configuration names the artifact's path, and a refusal otherwise.
pub fn wasm_artifact_profile(build_profile: &BuildProfileKind, has_artifact_path_override: bool, requested: WasmProfile) -> (res: Result<
    WasmProfile,
    CliError,
>)
    ensures
        build_profile is Debug ==> res == Ok::<WasmProfile, CliError>(WasmProfile::Debug),
        build_profile is Release ==> res == Ok::<WasmProfile, CliError>(WasmProfile::Release),
        build_profile is Named && has_artifact_path_override ==> res == Ok::<WasmProfile, CliError>(requested),
        build_profile matches BuildProfileKind::Named(name) ==> (!has_artifact_path_override ==> (res matches Err(
            CliError::CommandFailed { command, status },
        ) && command@ == named_profile_refusal(name@) && status is None)),
{
    match build_profile {
        BuildProfileKind::Debug => Ok(WasmProfile::Debug),
        BuildProfileKind::Release => Ok(WasmProfile::Release),
        BuildProfileKind::Named(name) => {
            if has_artifact_path_override {
                Ok(requested)
            } else {
                let mut command = String::from_str("custom cargo profile '");
                command.append(name.as_str());
                command.append("' for wasm pack requires targets.wasm.artifact_path");
                Err(CliError::refused(command))
            }
        },
    }
}

/// The `wasm-opt` flag of a level.
pub open spec fn optimize_flag(level: WasmOptimizeLevel) -> Seq<char> {
    match level {
        WasmOptimizeLevel::O0 => "-O0"@,
        WasmOptimizeLevel::O1 => "-O1"@,
        WasmOptimizeLevel::O2 => "-O2"@,
        WasmOptimizeLevel::O3 => "-O3"@,
        WasmOptimizeLevel::O4 => "-O4"@,
        WasmOptimizeLevel::Size => "-Os"@,
        WasmOptimizeLevel::MinSize => "-Oz"@,
    }
}

/// The `wasm-opt` flag of a level; see [`optimize_flag`].
pub fn optimize_level_flag(level: WasmOptimizeLevel) -> (res: &'static str)
    ensures
        res@ == optimize_flag(level),
{
    match level {
        WasmOptimizeLevel::O0 => "-O0",
        WasmOptimizeLevel::O1 => "-O1",
        WasmOptimizeLevel::O2 => "-O2",
        WasmOptimizeLevel::O3 => "-O3",
        WasmOptimizeLevel::O4 => "-O4",
        WasmOptimizeLevel::Size => "-Os",
        WasmOptimizeLevel::MinSize => "-Oz",
    }
}

/// When `wasm-opt` is missing: a refusal when the configuration asks for
/// one, otherwise the pack goes on with or without a warning.
pub fn missing_wasm_opt(on_missing: WasmOptimizeOnMissing) -> (res: Result<MissingOptimizer, CliError>)
    ensures
        on_missing == WasmOptimizeOnMissing::Error ==> (res matches Err(CliError::CommandFailed { command, status })
            && command@ == "wasm-opt not found in PATH"@ && status is None),
        on_missing == WasmOptimizeOnMissing::Warn ==> res == Ok::<MissingOptimizer, CliError>(MissingOptimizer::WarnAndSkip),
        on_missing == WasmOptimizeOnMissing::Skip ==> res == Ok::<MissingOptimizer, CliError>(MissingOptimizer::Skip),
{
    match on_missing {
        WasmOptimizeOnMissing::Error => Err(CliError::refused(String::from_str("wasm-opt not found in PATH"))),
        WasmOptimizeOnMissing::Warn => Ok(MissingOptimizer::WarnAndSkip),
        WasmOptimizeOnMissing::Skip => Ok(MissingOptimizer::Skip),
    }
}

/// The index of the last `c` in `s`, or -1.
pub open spec fn last_index_of(s: Seq<char>, c: char) -> int
    decreases s.len(),
{
    if s.len() == 0 {
        -1
    } else if s.last() == c {
        s.len() - 1
    } else {
        last_index_of(s.drop_last(), c)
    }
}

/// The path with its file's extension replaced by `ext`: the file name is
/// what follows the last `/`; its stem ends before its last `.` unless that
/// dot opens the name.
pub open spec fn with_extension(path: Seq<char>, ext: Seq<char>) -> Seq<char> {
    let slash = last_index_of(path, '/');
    let dot = last_index_of(path, '.');
    if dot > slash + 1 {
        path.take(dot) + "."@ + ext
    } else {
        path + "."@ + ext
    }
}

proof fn lemma_last_index_range(s: Seq<char>, c: char)
    ensures
        -1 <= last_index_of(s, c) < s.len(),
    decreases s.len(),
{
    if s.len() > 0 {
        lemma_last_index_range(s.drop_last(), c);
    }
}

fn last_char_index(s: &str, c: char) -> (res: Option<usize>)
    ensures
        res matches Some(i) ==> i as int == last_index_of(s@, c) && i < s@.len(),
        res is None ==> last_index_of(s@, c) == -1,
{
    proof {
        lemma_last_index_range(s@, c);
    }
    let n = s.unicode_len();
    assert(s@.take(n as int) =~= s@);
    let mut i: usize = n;
    while i > 0
        invariant
            n == s@.len(),
            i <= n,
            last_index_of(s@, c) == last_index_of(s@.take(i as int), c),
        decreases i,
    {
        assert(s@.take(i as int).drop_last() =~= s@.take(i - 1));
        if s.get_char(i - 1) == c {
            return Some(i - 1);
        }
        i = i - 1;
    }
    None
}

/// The path `wasm-opt` writes to: the artifact with the extension
/// `optimized.wasm`.
pub fn optimized_wasm_path(wasm_path: &str) -> (res: String)
    ensures
        res@ == with_extension(wasm_path@, "optimized.wasm"@),
{
    let slash = last_char_index(wasm_path, '/');
    let dot = last_char_index(wasm_path, '.');
    let cut: Option<usize> = match dot {
        Some(d) => match slash {
            Some(sl) => if d > sl && d - sl > 1 {
                Some(d)
            } else {
                None
            },
            None => if d > 0 {
                Some(d)
            } else {
                None
            },
        },
        None => None,
    };
    let mut res = match cut {
        Some(d) => {
            let r = String::from_str(wasm_path.substring_char(0, d));
            assert(wasm_path@.subrange(0, d as int) =~= wasm_path@.take(d as int));
            r
        },
        None => String::from_str(wasm_path),
    };
    res.append(".");
    res.append("optimized.wasm");
    res
}

/// The arguments of `wasm-opt`: the level, the artifact, the output path,
/// and `-g` unless debug information is stripped.
pub open spec fn wasm_opt_arg_texts(level: WasmOptimizeLevel, wasm_path: Seq<char>, strip_debug: bool) -> Seq<Seq<char>> {
    seq![optimize_flag(level), wasm_path, "-o"@, with_extension(wasm_path, "optimized.wasm"@)] + if strip_debug {
        Seq::empty()
    } else {
        seq!["-g"@]
    }
}

/// The texts of strings.
pub open spec fn texts(v: Seq<String>) -> Seq<Seq<char>> {
    v.map_values(|s: String| s@)
}

/// The arguments of `wasm-opt`; see [`wasm_opt_arg_texts`].
pub fn wasm_opt_args(level: WasmOptimizeLevel, wasm_path: &str, strip_debug: bool) -> (res: Vec<String>)
    ensures
        texts(res@) == wasm_opt_arg_texts(level, wasm_path@, strip_debug),
{
    let mut res: Vec<String> = Vec::new();
    res.push(String::from_str(optimize_level_flag(level)));
    res.push(String::from_str(wasm_path));
    res.push(String::from_str("-o"));
    res.push(optimized_wasm_path(wasm_path));
    if !strip_debug {
        res.push(String::from_str("-g"));
    }
    assert(texts(res@) =~= wasm_opt_arg_texts(level, wasm_path@, strip_debug));
    res
}

/// The `tsc` invocation that transpiles a TypeScript source into
/// `out_dir`: the program (`cmd /C npx tsc` on Windows, `tsc` elsewhere)
/// and its arguments.
pub open spec fn tsc_command_texts(source_file: Seq<char>, out_dir: Seq<char>, source_map: bool, windows: bool) -> Seq<Seq<char>> {
    (if windows {
        seq!["cmd"@, "/C"@, "npx"@, "tsc"@]
    } else {
        seq!["tsc"@]
    }) + seq![
        source_file,
        "--target"@,
        "ES2020"@,
        "--lib"@,
        "ES2021,DOM,ESNext.Disposable"@,
        "--module"@,
        "ES2020"@,
        "--moduleResolution"@,
        "bundler"@,
        "--declaration"@,
        "--sourceMap"@,
        if source_map {
            "true"@
        } else {
            "false"@
        },
        "--skipLibCheck"@,
        "--noEmitOnError"@,
        "false"@,
        "--outDir"@,
        out_dir,
    ]
}

/// The `tsc` invocation; see [`tsc_command_texts`].
pub fn tsc_command(source_file: &str, out_dir: &str, source_map: bool, windows: bool) -> (res: Vec<String>)
    ensures
        texts(res@) == tsc_command_texts(source_file@, out_dir@, source_map, windows),
{
    let mut res: Vec<String> = Vec::new();
    if windows {
        res.push(String::from_str("cmd"));
        res.push(String::from_str("/C"));
        res.push(String::from_str("npx"));
    }
    res.push(String::from_str("tsc"));
    res.push(String::from_str(source_file));
    res.push(String::from_str("--target"));
    res.push(String::from_str("ES2020"));
    res.push(String::from_str("--lib"));
    res.push(String::from_str("ES2021,DOM,ESNext.Disposable"));
    res.push(String::from_str("--module"));
    res.push(String::from_str("ES2020"));
    res.push(String::from_str("--moduleResolution"));
    res.push(String::from_str("bundler"));
    res.push(String::from_str("--declaration"));
    res.push(String::from_str("--sourceMap"));
    res.push(String::from_str(if source_map {
        "true"
    } else {
        "false"
    }));
    res.push(String::from_str("--skipLibCheck"));
    res.push(String::from_str("--noEmitOnError"));
    res.push(String::from_str("false"));
    res.push(String::from_str("--outDir"));
    res.push(String::from_str(out_dir));
    assert(texts(res@) =~= tsc_command_texts(source_file@, out_dir@, source_map, windows));
    res
}

/// What `tsc` printed, for the refusal: the trimmed-at-the-end output of
/// each stream that is not blank, or a note that nothing was captured.
pub open spec fn tsc_details(stdout: Seq<char>, stderr: Seq<char>) -> Seq<char> {
    let parts = (if trimmed(stdout).len() > 0 {
        seq!["stdout:\n"@ + trimmed_end(stdout)]
    } else {
        Seq::empty()
    }) + (if trimmed(stderr).len() > 0 {
        seq!["stderr:\n"@ + trimmed_end(stderr)]
    } else {
        Seq::empty()
    });
    if parts.len() == 0 {
        "no stdout/stderr captured"@
    } else {
        joined(parts, "\n\n"@)
    }
}

/// The refusal of a failed transpilation.
pub open spec fn tsc_failure_text(
    source_file: Seq<char>,
    out_dir: Seq<char>,
    working_directory: Seq<char>,
    command: Seq<char>,
    stdout: Seq<char>,
    stderr: Seq<char>,
) -> Seq<char> {
    "tsc failed while transpiling "@ + source_file + " into "@ + out_dir + "\nworking directory: "@ + working_directory
        + "\ncommand: "@ + command + "\n"@ + tsc_details(stdout, stderr)
}

/// Judges a finished `tsc`: it succeeded when it exited successfully or
/// wrote both the JavaScript and the declarations anyway; otherwise the
/// refusal reports what it printed, with its exit status.
pub fn tsc_outcome(
    succeeded: bool,
    outputs_exist: bool,
    status: Option<i32>,
    source_file: &str,
    out_dir: &str,
    working_directory: &str,
    command: &str,
    stdout: &str,
    stderr: &str,
) -> (res: Result<(), CliError>)
    ensures
        succeeded || outputs_exist ==> res is Ok,
        !(succeeded || outputs_exist) ==> (res matches Err(CliError::CommandFailed { command: text, status: s }) && text@
            == tsc_failure_text(source_file@, out_dir@, working_directory@, command@, stdout@, stderr@) && s == status),
{
    if succeeded || outputs_exist {
        return Ok(());
    }
    let mut parts: Vec<String> = Vec::new();
    let out_trimmed = trim(stdout);
    if out_trimmed.as_str().unicode_len() != 0 {
        let mut part = String::from_str("stdout:\n");
        let t = trim_end(stdout);
        part.append(t.as_str());
        parts.push(part);
    }
    let err_trimmed = trim(stderr);
    if err_trimmed.as_str().unicode_len() != 0 {
        let mut part = String::from_str("stderr:\n");
        let t = trim_end(stderr);
        part.append(t.as_str());
        parts.push(part);
    }
    let ghost expected = (if trimmed(stdout@).len() > 0 {
        seq!["stdout:\n"@ + trimmed_end(stdout@)]
    } else {
        Seq::<Seq<char>>::empty()
    }) + (if trimmed(stderr@).len() > 0 {
        seq!["stderr:\n"@ + trimmed_end(stderr@)]
    } else {
        Seq::<Seq<char>>::empty()
    });
    assert(texts(parts@) =~= expected);
    let details = if parts.len() == 0 {
        String::from_str("no stdout/stderr captured")
    } else {
        join_strings(&parts, "\n\n")
    };
    let mut text = String::from_str("tsc failed while transpiling ");
    text.append(source_file);
    text.append(" into ");
    text.append(out_dir);
    text.append("\nworking directory: ");
    text.append(working_directory);
    text.append("\ncommand: ");
    text.append(command);
    text.append("\n");
    text.append(details.as_str());
    Err(CliError::CommandFailed { command: text, status })
}

} // verus!
