//! The order of the work `pack wasm` does: the checks that refuse a run
//! before any work, then a step from the stage it is in and what the last
//! piece of work reported to the next piece of work, and the paths that
//! work reads and writes.

use vstd::prelude::*;
use vstd::string::*;

use crate::cli_config::CliError;
use crate::pack_rules::refused_with;
use crate::paths::{join_path, path_join};
use crate::wasm_pack::{
    ensure_wasm_pack_allowed, named_profile_refusal, requested_wasm_profile, wasm_artifact_profile, BuildProfileKind, WasmProfile,
};

verus! {

/// Why `pack wasm` refuses to start.
#[derive(Clone, Copy, Debug, PartialEq, Eq, Structural)]
pub enum PackWasmRefusal {
    /// The WebAssembly target is disabled.
    WasmDisabled,
    /// A `package.json` is to be written and no npm package name is set.
    MissingNpmPackageName,
    /// A custom cargo profile is used and no artifact path is configured.
    NamedProfileWithoutArtifactPath,
}

/// What the configuration and the options decide for a `pack wasm` run.
#[derive(Clone, Copy, Debug, PartialEq, Eq, Structural)]
pub struct PackWasmFlags {
    /// The check that refuses the run before any work, if one does.
    pub refusal: Option<PackWasmRefusal>,
    /// `--no-build`: the artifact is packed as it is.
    pub no_build: bool,
    /// The artifact's profile asks for `wasm-opt`.
    pub optimize: bool,
    /// `--regenerate`: the TypeScript bindings are generated again.
    pub regenerate: bool,
    /// Node.js is among the npm targets.
    pub node_target: bool,
    /// A `package.json` is written.
    pub package_json: bool,
    /// A `README.md` is written.
    pub readme: bool,
}

/// Where a run of `pack wasm` stands: the work it asked for last.
#[derive(Clone, Copy, Debug, PartialEq, Eq, Structural)]
pub enum PackWasmStage {
    Begin,
    Building,
    CheckingArtifact,
    Optimizing,
    CreatingTypescriptOutput,
    InspectingImports,
    RunningWasmBindgen,
    ClearingStaleOutput,
    GeneratingBindings,
    CreatingNpmOutput,
    CopyingWasm,
    CopyingGlue,
    CheckingTypescriptSource,
    TranspilingBindings,
    CheckingNodeSource,
    TranspilingNodeBindings,
    WritingLoaders,
    WritingPackageJson,
    WritingReadme,
    Stopped,
}

/// The state of a run: its stage, and whether `wasm-bindgen` ran.
#[derive(Clone, Copy, Debug, PartialEq, Eq, Structural)]
pub struct PackWasmState {
    pub stage: PackWasmStage,
    pub ran_wasm_bindgen: bool,
}

/// What the last piece of work reported.
#[derive(Clone, Copy, Debug, PartialEq, Eq, Structural)]
pub enum PackWasmEvent {
    /// The run starts.
    Start,
    /// The work is done.
    Completed,
    /// The answer of a check: whether the file exists, or whether the
    /// binary still imports the `wasm-bindgen` placeholders.
    Observed(bool),
}

/// A file `pack wasm` reads or writes; see [`pack_wasm_path_spec`].
#[derive(Clone, Copy, Debug, PartialEq, Eq, Structural)]
pub enum PackWasmPath {
    /// The built WebAssembly artifact.
    Artifact,
    /// The TypeScript output directory.
    TypescriptOutput,
    /// The npm package directory.
    NpmOutput,
    /// The binary `wasm-bindgen` wrote.
    BindgenWasm,
    /// The binary in the package.
    PackagedWasm,
    /// The glue `wasm-bindgen` wrote.
    BindgenGlue,
    /// The glue in the package.
    PackagedGlue,
    /// The generated TypeScript bindings.
    TypescriptSource,
    /// The generated Node.js bindings.
    NodeSource,
}

/// The next piece of work.
#[derive(Clone, Copy, Debug, PartialEq, Eq, Structural)]
pub enum PackWasmAction {
    /// Stop before any work: the run is refused.
    Refuse(PackWasmRefusal),
    /// Build the WebAssembly target.
    BuildWasm,
    /// Report whether the file exists.
    CheckFile(PackWasmPath),
    /// Stop: the file is missing.
    MissingFile(PackWasmPath),
    /// Run `wasm-opt` on the artifact.
    Optimize,
    /// Create the directory.
    CreateDirectory(PackWasmPath),
    /// Report whether the artifact imports the `wasm-bindgen` placeholders.
    InspectImports,
    /// Run `wasm-bindgen` on the artifact.
    RunWasmBindgen,
    /// Remove what an earlier `wasm-bindgen` run left.
    ClearStaleOutput,
    /// Generate the TypeScript bindings.
    GenerateBindings,
    /// Copy the first file to the second, unless they are the same file.
    Copy(PackWasmPath, PackWasmPath),
    /// Transpile the TypeScript file into the package.
    Transpile(PackWasmPath),
    /// Write the loader entry points.
    WriteLoaders,
    /// Write `package.json`.
    WritePackageJson,
    /// Write `README.md`.
    WriteReadme,
    /// Stop: the package is complete.
    Finish,
}

/// Whether `event` is what the work asked for at `stage` reports: the
/// start at the beginning, an answer after a check, and completion after
/// any other work.
pub open spec fn event_fits(stage: PackWasmStage, event: PackWasmEvent) -> bool {
    match stage {
        PackWasmStage::Begin => event is Start,
        PackWasmStage::CheckingArtifact | PackWasmStage::InspectingImports | PackWasmStage::CheckingTypescriptSource
        | PackWasmStage::CheckingNodeSource => event is Observed,
        PackWasmStage::Stopped => false,
        _ => event is Completed,
    }
}

/// Asks at `stage` for `action`.
pub open spec fn ask(stage: PackWasmStage, ran: bool, action: PackWasmAction) -> (PackWasmState, PackWasmAction) {
    (PackWasmState { stage, ran_wasm_bindgen: ran }, action)
}

/// After the artifact was found: optimise it when asked, then create the
/// TypeScript output directory.
pub open spec fn after_artifact(f: PackWasmFlags) -> (PackWasmState, PackWasmAction) {
    if f.optimize {
        ask(PackWasmStage::Optimizing, false, PackWasmAction::Optimize)
    } else {
        ask(PackWasmStage::CreatingTypescriptOutput, false, PackWasmAction::CreateDirectory(PackWasmPath::TypescriptOutput))
    }
}

/// After `wasm-bindgen` ran or its stale output was cleared: generate the
/// bindings when asked or when `wasm-bindgen` ran, then create the package
/// directory.
pub open spec fn after_bindgen(f: PackWasmFlags, ran: bool) -> (PackWasmState, PackWasmAction) {
    if f.regenerate || ran {
        ask(PackWasmStage::GeneratingBindings, ran, PackWasmAction::GenerateBindings)
    } else {
        ask(PackWasmStage::CreatingNpmOutput, ran, PackWasmAction::CreateDirectory(PackWasmPath::NpmOutput))
    }
}

/// The binary the package gets: the one `wasm-bindgen` wrote when it ran,
/// the artifact otherwise.
pub open spec fn packed_wasm_source(ran: bool) -> PackWasmPath {
    if ran {
        PackWasmPath::BindgenWasm
    } else {
        PackWasmPath::Artifact
    }
}

/// After the bindings were transpiled: the loader entry points.
pub open spec fn loaders(ran: bool) -> (PackWasmState, PackWasmAction) {
    ask(PackWasmStage::WritingLoaders, ran, PackWasmAction::WriteLoaders)
}

/// After the loaders: `package.json` when asked, then `README.md` when
/// asked, then the end.
pub open spec fn after_loaders(f: PackWasmFlags, ran: bool) -> (PackWasmState, PackWasmAction) {
    if f.package_json {
        ask(PackWasmStage::WritingPackageJson, ran, PackWasmAction::WritePackageJson)
    } else {
        after_package_json(f, ran)
    }
}

/// After `package.json`: `README.md` when asked, then the end.
pub open spec fn after_package_json(f: PackWasmFlags, ran: bool) -> (PackWasmState, PackWasmAction) {
    if f.readme {
        ask(PackWasmStage::WritingReadme, ran, PackWasmAction::WriteReadme)
    } else {
        ask(PackWasmStage::Stopped, ran, PackWasmAction::Finish)
    }
}

/// The next state and piece of work of `pack wasm`, from the state it is
/// in and what the last piece of work reported.
pub open spec fn pack_wasm_next(f: PackWasmFlags, s: PackWasmState, e: PackWasmEvent) -> (PackWasmState, PackWasmAction) {
    let ran = s.ran_wasm_bindgen;
    match s.stage {
        PackWasmStage::Begin => if f.refusal is Some {
            ask(PackWasmStage::Stopped, false, PackWasmAction::Refuse(f.refusal->0))
        } else if f.no_build {
            ask(PackWasmStage::CheckingArtifact, false, PackWasmAction::CheckFile(PackWasmPath::Artifact))
        } else {
            ask(PackWasmStage::Building, false, PackWasmAction::BuildWasm)
        },
        PackWasmStage::Building => ask(PackWasmStage::CheckingArtifact, false, PackWasmAction::CheckFile(PackWasmPath::Artifact)),
        PackWasmStage::CheckingArtifact => if e == PackWasmEvent::Observed(true) {
            after_artifact(f)
        } else {
            ask(PackWasmStage::Stopped, false, PackWasmAction::MissingFile(PackWasmPath::Artifact))
        },
        PackWasmStage::Optimizing => ask(
            PackWasmStage::CreatingTypescriptOutput,
            false,
            PackWasmAction::CreateDirectory(PackWasmPath::TypescriptOutput),
        ),
        PackWasmStage::CreatingTypescriptOutput => ask(PackWasmStage::InspectingImports, false, PackWasmAction::InspectImports),
        PackWasmStage::InspectingImports => if e == PackWasmEvent::Observed(true) {
            ask(PackWasmStage::RunningWasmBindgen, true, PackWasmAction::RunWasmBindgen)
        } else {
            ask(PackWasmStage::ClearingStaleOutput, false, PackWasmAction::ClearStaleOutput)
        },
        PackWasmStage::RunningWasmBindgen | PackWasmStage::ClearingStaleOutput => after_bindgen(f, ran),
        PackWasmStage::GeneratingBindings => ask(PackWasmStage::CreatingNpmOutput, ran, PackWasmAction::CreateDirectory(PackWasmPath::NpmOutput)),
        PackWasmStage::CreatingNpmOutput => ask(
            PackWasmStage::CopyingWasm,
            ran,
            PackWasmAction::Copy(packed_wasm_source(ran), PackWasmPath::PackagedWasm),
        ),
        PackWasmStage::CopyingWasm => if ran {
            ask(PackWasmStage::CopyingGlue, ran, PackWasmAction::Copy(PackWasmPath::BindgenGlue, PackWasmPath::PackagedGlue))
        } else {
            ask(PackWasmStage::CheckingTypescriptSource, ran, PackWasmAction::CheckFile(PackWasmPath::TypescriptSource))
        },
        PackWasmStage::CopyingGlue => ask(PackWasmStage::CheckingTypescriptSource, ran, PackWasmAction::CheckFile(PackWasmPath::TypescriptSource)),
        PackWasmStage::CheckingTypescriptSource => if e == PackWasmEvent::Observed(true) {
            ask(PackWasmStage::TranspilingBindings, ran, PackWasmAction::Transpile(PackWasmPath::TypescriptSource))
        } else {
            ask(PackWasmStage::Stopped, ran, PackWasmAction::MissingFile(PackWasmPath::TypescriptSource))
        },
        PackWasmStage::TranspilingBindings => if f.node_target {
            ask(PackWasmStage::CheckingNodeSource, ran, PackWasmAction::CheckFile(PackWasmPath::NodeSource))
        } else {
            loaders(ran)
        },
        PackWasmStage::CheckingNodeSource => if e == PackWasmEvent::Observed(true) {
            ask(PackWasmStage::TranspilingNodeBindings, ran, PackWasmAction::Transpile(PackWasmPath::NodeSource))
        } else {
            loaders(ran)
        },
        PackWasmStage::TranspilingNodeBindings => loaders(ran),
        PackWasmStage::WritingLoaders => after_loaders(f, ran),
        PackWasmStage::WritingPackageJson => after_package_json(f, ran),
        PackWasmStage::WritingReadme => ask(PackWasmStage::Stopped, ran, PackWasmAction::Finish),
        PackWasmStage::Stopped => ask(PackWasmStage::Stopped, ran, PackWasmAction::Finish),
    }
}

/// Whether an action does work: builds, checks, writes or copies.
pub open spec fn does_work(a: PackWasmAction) -> bool {
    !(a is Refuse || a is MissingFile || a is Finish)
}

/// A refused run does no work: its first step refuses and stops, and a
/// stopped run only finishes, for whatever is reported.
pub proof fn lemma_refused_run_does_no_work(f: PackWasmFlags, e: PackWasmEvent, later: PackWasmEvent, ran: bool)
    requires
        f.refusal is Some,
    ensures
        pack_wasm_next(f, PackWasmState { stage: PackWasmStage::Begin, ran_wasm_bindgen: false }, e) == (
            PackWasmState { stage: PackWasmStage::Stopped, ran_wasm_bindgen: false },
            PackWasmAction::Refuse(f.refusal->0),
        ),
        !does_work(pack_wasm_next(f, PackWasmState { stage: PackWasmStage::Begin, ran_wasm_bindgen: false }, e).1),
        pack_wasm_next(f, PackWasmState { stage: PackWasmStage::Stopped, ran_wasm_bindgen: ran }, later).1 == PackWasmAction::Finish,
        !event_fits(PackWasmStage::Stopped, later),
{
}

/// What `pack wasm` starts from: the configuration and the options.
pub struct PackWasmSettings {
    pub wasm_enabled: bool,
    pub generate_package_json: bool,
    pub npm_package_name: Option<String>,
    /// `--release`.
    pub release: bool,
    /// The configured profile.
    pub configured_profile: WasmProfile,
    /// The cargo profile the build resolved to.
    pub build_profile: BuildProfileKind,
    pub has_artifact_path_override: bool,
    /// Whether `wasm-opt` runs on a debug artifact.
    pub optimize_debug: bool,
    /// Whether `wasm-opt` runs on a release artifact.
    pub optimize_release: bool,
    pub no_build: bool,
    pub regenerate: bool,
    pub node_target: bool,
    pub readme: bool,
}

/// The check that refuses a run, in the order `pack wasm` makes them: the
/// target enabled, the npm package name when a `package.json` is written,
/// and an artifact path for a custom cargo profile.
pub open spec fn pack_wasm_refusal(s: PackWasmSettings) -> Option<PackWasmRefusal> {
    if !s.wasm_enabled {
        Some(PackWasmRefusal::WasmDisabled)
    } else if s.generate_package_json && s.npm_package_name is None {
        Some(PackWasmRefusal::MissingNpmPackageName)
    } else if s.build_profile is Named && !s.has_artifact_path_override {
        Some(PackWasmRefusal::NamedProfileWithoutArtifactPath)
    } else {
        None
    }
}

/// The profile whose artifact is packed: the build profile's own for
/// `debug` and `release`, the requested one (release with `--release`,
/// the configured one otherwise) for a custom profile.
pub open spec fn packed_profile(s: PackWasmSettings) -> WasmProfile {
    match s.build_profile {
        BuildProfileKind::Debug => WasmProfile::Debug,
        BuildProfileKind::Release => WasmProfile::Release,
        BuildProfileKind::Named(_) => if s.release {
            WasmProfile::Release
        } else {
            s.configured_profile
        },
    }
}

/// The text of a refusal.
pub open spec fn refusal_text(s: PackWasmSettings, r: PackWasmRefusal) -> Seq<char> {
    match r {
        PackWasmRefusal::WasmDisabled => "targets.wasm.enabled = false"@,
        PackWasmRefusal::MissingNpmPackageName => "targets.wasm.npm.package_name is required for pack wasm"@,
        PackWasmRefusal::NamedProfileWithoutArtifactPath => named_profile_refusal(s.build_profile->Named_0@),
    }
}

/// The checks `pack wasm` makes before any work; see [`pack_wasm_refusal`].
/// The error carries the refusal's text; otherwise the packed profile.
pub fn pack_wasm_checks(s: &PackWasmSettings) -> (res: Result<WasmProfile, CliError>)
    ensures
        res is Err <==> pack_wasm_refusal(*s) is Some,
        res matches Ok(p) ==> p == packed_profile(*s),
        res matches Err(e) ==> e matches CliError::CommandFailed { command, status } && command@ == refusal_text(
            *s,
            pack_wasm_refusal(*s)->0,
        ) && status is None,
{
    let name = match &s.npm_package_name {
        Some(n) => Some(n.as_str()),
        None => None,
    };
    let allowed = ensure_wasm_pack_allowed(s.wasm_enabled, s.generate_package_json, name);
    match allowed {
        Err(e) => {
            proof {
                assert(refused_with(Err::<(), CliError>(e), refusal_text(*s, pack_wasm_refusal(*s)->0)));
            }
            return Err(e);
        },
        Ok(()) => {},
    }
    let requested = requested_wasm_profile(s.release, s.configured_profile);
    wasm_artifact_profile(&s.build_profile, s.has_artifact_path_override, requested)
}

/// The flags of a run: the refusal of [`pack_wasm_refusal`], `wasm-opt`
/// as configured for the packed profile, and the options as given.
pub fn pack_wasm_flags(s: &PackWasmSettings) -> (res: PackWasmFlags)
    ensures
        res.refusal == pack_wasm_refusal(*s),
        res.optimize == if packed_profile(*s) == WasmProfile::Release {
            s.optimize_release
        } else {
            s.optimize_debug
        },
        res.no_build == s.no_build,
        res.regenerate == s.regenerate,
        res.node_target == s.node_target,
        res.package_json == s.generate_package_json,
        res.readme == s.readme,
{
    let (refusal, optimize) = match pack_wasm_checks(s) {
        Ok(profile) => (
            None,
            match profile {
                WasmProfile::Release => s.optimize_release,
                WasmProfile::Debug => s.optimize_debug,
            },
        ),
        Err(_) => {
            let refusal = if !s.wasm_enabled {
                PackWasmRefusal::WasmDisabled
            } else if s.generate_package_json && s.npm_package_name.is_none() {
                PackWasmRefusal::MissingNpmPackageName
            } else {
                PackWasmRefusal::NamedProfileWithoutArtifactPath
            };
            let optimize = match &s.build_profile {
                BuildProfileKind::Release => s.optimize_release,
                BuildProfileKind::Debug => s.optimize_debug,
                BuildProfileKind::Named(_) => {
                    if requested_wasm_profile(s.release, s.configured_profile) == WasmProfile::Release {
                        s.optimize_release
                    } else {
                        s.optimize_debug
                    }
                },
            };
            (Some(refusal), optimize)
        },
    };
    PackWasmFlags {
        refusal,
        no_build: s.no_build,
        optimize,
        regenerate: s.regenerate,
        node_target: s.node_target,
        package_json: s.generate_package_json,
        readme: s.readme,
    }
}

/// The state a run starts in.
pub fn pack_wasm_start() -> (res: PackWasmState)
    ensures
        res == (PackWasmState { stage: PackWasmStage::Begin, ran_wasm_bindgen: false }),
{
    PackWasmState { stage: PackWasmStage::Begin, ran_wasm_bindgen: false }
}

fn after_loaders_exec(f: PackWasmFlags, ran: bool) -> (res: (PackWasmState, PackWasmAction))
    ensures
        res == after_loaders(f, ran),
{
    if f.package_json {
        (PackWasmState { stage: PackWasmStage::WritingPackageJson, ran_wasm_bindgen: ran }, PackWasmAction::WritePackageJson)
    } else {
        after_package_json_exec(f, ran)
    }
}

fn after_package_json_exec(f: PackWasmFlags, ran: bool) -> (res: (PackWasmState, PackWasmAction))
    ensures
        res == after_package_json(f, ran),
{
    if f.readme {
        (PackWasmState { stage: PackWasmStage::WritingReadme, ran_wasm_bindgen: ran }, PackWasmAction::WriteReadme)
    } else {
        (PackWasmState { stage: PackWasmStage::Stopped, ran_wasm_bindgen: ran }, PackWasmAction::Finish)
    }
}

fn st(stage: PackWasmStage, ran: bool) -> (res: PackWasmState)
    ensures
        res == (PackWasmState { stage, ran_wasm_bindgen: ran }),
{
    PackWasmState { stage, ran_wasm_bindgen: ran }
}

/// One step of `pack wasm`; see [`pack_wasm_next`].
pub fn pack_wasm_step(flags: PackWasmFlags, state: PackWasmState, event: PackWasmEvent) -> (res: (PackWasmState, PackWasmAction))
    requires
        event_fits(state.stage, event),
    ensures
        res == pack_wasm_next(flags, state, event),
{
    let ran = state.ran_wasm_bindgen;
    let observed = match event {
        PackWasmEvent::Observed(b) => b,
        _ => false,
    };
    match state.stage {
        PackWasmStage::Begin => if let Some(refusal) = flags.refusal {
            (st(PackWasmStage::Stopped, false), PackWasmAction::Refuse(refusal))
        } else if flags.no_build {
            (st(PackWasmStage::CheckingArtifact, false), PackWasmAction::CheckFile(PackWasmPath::Artifact))
        } else {
            (st(PackWasmStage::Building, false), PackWasmAction::BuildWasm)
        },
        PackWasmStage::Building => (st(PackWasmStage::CheckingArtifact, false), PackWasmAction::CheckFile(PackWasmPath::Artifact)),
        PackWasmStage::CheckingArtifact => if observed {
            if flags.optimize {
                (st(PackWasmStage::Optimizing, false), PackWasmAction::Optimize)
            } else {
                (st(PackWasmStage::CreatingTypescriptOutput, false), PackWasmAction::CreateDirectory(PackWasmPath::TypescriptOutput))
            }
        } else {
            (st(PackWasmStage::Stopped, false), PackWasmAction::MissingFile(PackWasmPath::Artifact))
        },
        PackWasmStage::Optimizing => (st(PackWasmStage::CreatingTypescriptOutput, false), PackWasmAction::CreateDirectory(PackWasmPath::TypescriptOutput)),
        PackWasmStage::CreatingTypescriptOutput => (st(PackWasmStage::InspectingImports, false), PackWasmAction::InspectImports),
        PackWasmStage::InspectingImports => if observed {
            (st(PackWasmStage::RunningWasmBindgen, true), PackWasmAction::RunWasmBindgen)
        } else {
            (st(PackWasmStage::ClearingStaleOutput, false), PackWasmAction::ClearStaleOutput)
        },
        PackWasmStage::RunningWasmBindgen | PackWasmStage::ClearingStaleOutput => if flags.regenerate || ran {
            (st(PackWasmStage::GeneratingBindings, ran), PackWasmAction::GenerateBindings)
        } else {
            (st(PackWasmStage::CreatingNpmOutput, ran), PackWasmAction::CreateDirectory(PackWasmPath::NpmOutput))
        },
        PackWasmStage::GeneratingBindings => (st(PackWasmStage::CreatingNpmOutput, ran), PackWasmAction::CreateDirectory(PackWasmPath::NpmOutput)),
        PackWasmStage::CreatingNpmOutput => {
            let source = if ran {
                PackWasmPath::BindgenWasm
            } else {
                PackWasmPath::Artifact
            };
            (st(PackWasmStage::CopyingWasm, ran), PackWasmAction::Copy(source, PackWasmPath::PackagedWasm))
        },
        PackWasmStage::CopyingWasm => if ran {
            (st(PackWasmStage::CopyingGlue, ran), PackWasmAction::Copy(PackWasmPath::BindgenGlue, PackWasmPath::PackagedGlue))
        } else {
            (st(PackWasmStage::CheckingTypescriptSource, ran), PackWasmAction::CheckFile(PackWasmPath::TypescriptSource))
        },
        PackWasmStage::CopyingGlue => (st(PackWasmStage::CheckingTypescriptSource, ran), PackWasmAction::CheckFile(PackWasmPath::TypescriptSource)),
        PackWasmStage::CheckingTypescriptSource => if observed {
            (st(PackWasmStage::TranspilingBindings, ran), PackWasmAction::Transpile(PackWasmPath::TypescriptSource))
        } else {
            (st(PackWasmStage::Stopped, ran), PackWasmAction::MissingFile(PackWasmPath::TypescriptSource))
        },
        PackWasmStage::TranspilingBindings => if flags.node_target {
            (st(PackWasmStage::CheckingNodeSource, ran), PackWasmAction::CheckFile(PackWasmPath::NodeSource))
        } else {
            (st(PackWasmStage::WritingLoaders, ran), PackWasmAction::WriteLoaders)
        },
        PackWasmStage::CheckingNodeSource => if observed {
            (st(PackWasmStage::TranspilingNodeBindings, ran), PackWasmAction::Transpile(PackWasmPath::NodeSource))
        } else {
            (st(PackWasmStage::WritingLoaders, ran), PackWasmAction::WriteLoaders)
        },
        PackWasmStage::TranspilingNodeBindings => (st(PackWasmStage::WritingLoaders, ran), PackWasmAction::WriteLoaders),
        PackWasmStage::WritingLoaders => after_loaders_exec(flags, ran),
        PackWasmStage::WritingPackageJson => after_package_json_exec(flags, ran),
        PackWasmStage::WritingReadme | PackWasmStage::Stopped => (st(PackWasmStage::Stopped, ran), PackWasmAction::Finish),
    }
}

/// The text of each file: the artifact path, the two output directories,
/// and under them `<module>_bg.wasm`, `<module>_wbg.js`, `<module>.ts` and
/// `<module>_node.ts`.
pub open spec fn pack_wasm_path_spec(
    which: PackWasmPath,
    artifact: Seq<char>,
    typescript_output: Seq<char>,
    npm_output: Seq<char>,
    module: Seq<char>,
) -> Seq<char> {
    match which {
        PackWasmPath::Artifact => artifact,
        PackWasmPath::TypescriptOutput => typescript_output,
        PackWasmPath::NpmOutput => npm_output,
        PackWasmPath::BindgenWasm => path_join(typescript_output, module + "_bg.wasm"@),
        PackWasmPath::PackagedWasm => path_join(npm_output, module + "_bg.wasm"@),
        PackWasmPath::BindgenGlue => path_join(typescript_output, module + "_wbg.js"@),
        PackWasmPath::PackagedGlue => path_join(npm_output, module + "_wbg.js"@),
        PackWasmPath::TypescriptSource => path_join(typescript_output, module + ".ts"@),
        PackWasmPath::NodeSource => path_join(typescript_output, module + "_node.ts"@),
    }
}

fn under(dir: &str, module: &str, suffix: &str) -> (res: String)
    ensures
        res@ == path_join(dir@, module@ + suffix@),
{
    let mut name = String::from_str(module);
    name.append(suffix);
    join_path(dir, name.as_str())
}

/// The path of a file `pack wasm` reads or writes; see
/// [`pack_wasm_path_spec`].
pub fn pack_wasm_path(which: PackWasmPath, artifact: &str, typescript_output: &str, npm_output: &str, module: &str) -> (res: String)
    ensures
        res@ == pack_wasm_path_spec(which, artifact@, typescript_output@, npm_output@, module@),
{
    match which {
        PackWasmPath::Artifact => String::from_str(artifact),
        PackWasmPath::TypescriptOutput => String::from_str(typescript_output),
        PackWasmPath::NpmOutput => String::from_str(npm_output),
        PackWasmPath::BindgenWasm => under(typescript_output, module, "_bg.wasm"),
        PackWasmPath::PackagedWasm => under(npm_output, module, "_bg.wasm"),
        PackWasmPath::BindgenGlue => under(typescript_output, module, "_wbg.js"),
        PackWasmPath::PackagedGlue => under(npm_output, module, "_wbg.js"),
        PackWasmPath::TypescriptSource => under(typescript_output, module, ".ts"),
        PackWasmPath::NodeSource => under(typescript_output, module, "_node.ts"),
    }
}

} // verus!
