//! The decisions of the packaging commands: which requests are refused and
//! why, where native assets and generated sources go, and the text of the
//! C# project file.

use vstd::prelude::*;
use vstd::string::*;

use crate::cli_config::{processes, target_name, CliError, Config, Target};
use crate::paths::{join_path, path_join};
use crate::text::{join_strings, joined, push_char};

verus! {

/// A .NET runtime the C# package can carry native assets for.
#[derive(Clone, Copy, Debug, PartialEq, Eq, Structural)]
pub enum CSharpRuntimeIdentifier {
    OsxArm64,
    OsxX64,
    LinuxX64,
    LinuxArm64,
    WinX64,
}

/// The .NET name of a runtime.
pub open spec fn rid_name(r: CSharpRuntimeIdentifier) -> Seq<char> {
    match r {
        CSharpRuntimeIdentifier::OsxArm64 => "osx-arm64"@,
        CSharpRuntimeIdentifier::OsxX64 => "osx-x64"@,
        CSharpRuntimeIdentifier::LinuxX64 => "linux-x64"@,
        CSharpRuntimeIdentifier::LinuxArm64 => "linux-arm64"@,
        CSharpRuntimeIdentifier::WinX64 => "win-x64"@,
    }
}

/// The file a shared library named `artifact` has on a runtime:
/// `lib<artifact>.dylib` on macOS, `lib<artifact>.so` on Linux and
/// `<artifact>.dll` on Windows.
pub open spec fn native_library_name(r: CSharpRuntimeIdentifier, artifact: Seq<char>) -> Seq<char> {
    match r {
        CSharpRuntimeIdentifier::OsxArm64 | CSharpRuntimeIdentifier::OsxX64 => "lib"@ + artifact + ".dylib"@,
        CSharpRuntimeIdentifier::LinuxX64 | CSharpRuntimeIdentifier::LinuxArm64 => "lib"@ + artifact + ".so"@,
        CSharpRuntimeIdentifier::WinX64 => artifact + ".dll"@,
    }
}

/// Every runtime the package can name explicitly, in a fixed order.
pub open spec fn explicit_rids() -> Seq<CSharpRuntimeIdentifier> {
    seq![
        CSharpRuntimeIdentifier::OsxArm64,
        CSharpRuntimeIdentifier::OsxX64,
        CSharpRuntimeIdentifier::LinuxX64,
        CSharpRuntimeIdentifier::LinuxArm64,
        CSharpRuntimeIdentifier::WinX64,
    ]
}

impl CSharpRuntimeIdentifier {
    /// The .NET name; see [`rid_name`].
    pub fn canonical_name(&self) -> (res: &'static str)
        ensures
            res@ == rid_name(*self),
    {
        match self {
            CSharpRuntimeIdentifier::OsxArm64 => "osx-arm64",
            CSharpRuntimeIdentifier::OsxX64 => "osx-x64",
            CSharpRuntimeIdentifier::LinuxX64 => "linux-x64",
            CSharpRuntimeIdentifier::LinuxArm64 => "linux-arm64",
            CSharpRuntimeIdentifier::WinX64 => "win-x64",
        }
    }

    /// The shared library file of `artifact_name`; see
    /// [`native_library_name`].
    pub fn native_library_filename(&self, artifact_name: &str) -> (res: String)
        ensures
            res@ == native_library_name(*self, artifact_name@),
    {
        match self {
            CSharpRuntimeIdentifier::OsxArm64 | CSharpRuntimeIdentifier::OsxX64 => {
                let mut res = String::from_str("lib");
                res.append(artifact_name);
                res.append(".dylib");
                res
            },
            CSharpRuntimeIdentifier::LinuxX64 | CSharpRuntimeIdentifier::LinuxArm64 => {
                let mut res = String::from_str("lib");
                res.append(artifact_name);
                res.append(".so");
                res
            },
            CSharpRuntimeIdentifier::WinX64 => {
                let mut res = String::from_str(artifact_name);
                res.append(".dll");
                res
            },
        }
    }

    /// Every runtime that can be named explicitly; see [`explicit_rids`].
    pub fn explicit_targets() -> (res: Vec<CSharpRuntimeIdentifier>)
        ensures
            res@ == explicit_rids(),
    {
        let res = vec![
            CSharpRuntimeIdentifier::OsxArm64,
            CSharpRuntimeIdentifier::OsxX64,
            CSharpRuntimeIdentifier::LinuxX64,
            CSharpRuntimeIdentifier::LinuxArm64,
            CSharpRuntimeIdentifier::WinX64,
        ];
        assert(res@ =~= explicit_rids());
        res
    }
}

/// `res` is a refusal whose text is `text`, with no exit status.
pub open spec fn refused_with(res: Result<(), CliError>, text: Seq<char>) -> bool {
    match res {
        Err(CliError::CommandFailed { command, status }) => command@ == text && status is None,
        Ok(_) => false,
    }
}

/// The refusal of an experimental target the user has not opted in to.
pub open spec fn experimental_refusal(t: Target) -> Seq<char> {
    target_name(t) + " is experimental, use --experimental flag or add \""@ + target_name(t) + "\" to [experimental]"@
}

/// Packaging Kotlin Multiplatform needs the target enabled and, since it is
/// experimental, opted in to by the flag or the configuration.
pub fn ensure_kmp_packaging_enabled(config: &Config, experimental_flag: bool) -> (res: Result<(), CliError>)
    ensures
        !config.targets.kotlin_multiplatform.enabled ==> refused_with(res, "targets.kotlin_multiplatform.enabled = false"@),
        config.targets.kotlin_multiplatform.enabled && processes(*config, Target::KotlinMultiplatform, experimental_flag)
            ==> res is Ok,
        config.targets.kotlin_multiplatform.enabled && !processes(*config, Target::KotlinMultiplatform, experimental_flag)
            ==> refused_with(res, experimental_refusal(Target::KotlinMultiplatform)),
{
    if !config.is_kotlin_multiplatform_enabled() {
        return Err(CliError::refused(String::from_str("targets.kotlin_multiplatform.enabled = false")));
    }
    if config.should_process(Target::KotlinMultiplatform, experimental_flag) {
        return Ok(());
    }
    let name = Target::KotlinMultiplatform.name();
    let mut command = String::from_str(name);
    command.append(" is experimental, use --experimental flag or add \"");
    command.append(name);
    command.append("\" to [experimental]");
    Err(CliError::refused(command))
}

/// The refusal of `--no-build` while Kotlin Multiplatform packaging runs.
pub open spec fn no_build_refusal(command_name: Seq<char>) -> Seq<char> {
    command_name
        + " --no-build is unsupported while Kotlin Multiplatform native packaging is enabled; rerun without --no-build"@
}

/// `--no-build` cannot be honoured while Kotlin Multiplatform packaging is
/// processed: its native libraries are always built.
pub fn ensure_kmp_no_build_supported(config: &Config, no_build: bool, experimental: bool, command_name: &str) -> (res: Result<
    (),
    CliError,
>)
    ensures
        no_build && processes(*config, Target::KotlinMultiplatform, experimental) ==> refused_with(res, no_build_refusal(command_name@)),
        !(no_build && processes(*config, Target::KotlinMultiplatform, experimental)) ==> res is Ok,
{
    if no_build && config.should_process(Target::KotlinMultiplatform, experimental) {
        let mut command = String::from_str(command_name);
        command.append(
            " --no-build is unsupported while Kotlin Multiplatform native packaging is enabled; rerun without --no-build",
        );
        return Err(CliError::refused(command));
    }
    Ok(())
}

/// Where the JNI sources of the Kotlin Multiplatform project go.
pub fn kmp_jvm_jni_dir(config: &Config) -> (res: String)
    ensures
        res@ == path_join(config.targets.kotlin_multiplatform.output@, "src/jvmMain/c"@),
{
    join_path(config.targets.kotlin_multiplatform.output.as_str(), "src/jvmMain/c")
}

/// Where the desktop native libraries of the Kotlin Multiplatform project
/// go.
pub fn kmp_jvm_native_resource_root(config: &Config) -> (res: String)
    ensures
        res@ == path_join(config.targets.kotlin_multiplatform.output@, "src/jvmMain/resources/native"@),
{
    join_path(config.targets.kotlin_multiplatform.output.as_str(), "src/jvmMain/resources/native")
}

/// Where and under which names the JVM native library is built.
pub struct JvmNativePackageLayout {
    pub jni_dir: String,
    pub header_name: String,
    pub jni_library_name: String,
    pub native_output_root: String,
    pub flat_output_root: Option<String>,
    pub strip_symbols: bool,
    pub debug_symbols_enabled: bool,
}

/// Every `-` of a name turned into `_`.
pub open spec fn dashes_to_underscores(s: Seq<char>) -> Seq<char> {
    s.map_values(|c: char| if c == '-' {
        '_'
    } else {
        c
    })
}

/// The desktop JNI library name: the configured Android Kotlin library
/// name, or else the package name, with dashes turned into underscores.
pub open spec fn desktop_library_name(c: Config) -> Seq<char> {
    dashes_to_underscores(
        match c.targets.android_kotlin_library_name {
            Some(n) => n@,
            None => c.package.name@,
        },
    )
}

fn underscored(s: &str) -> (res: String)
    ensures
        res@ == dashes_to_underscores(s@),
{
    let n = s.unicode_len();
    let mut res = String::new();
    let mut i: usize = 0;
    while i < n
        invariant
            n == s@.len(),
            i <= n,
            res@ == dashes_to_underscores(s@.take(i as int)),
        decreases n - i,
    {
        let c = s.get_char(i);
        let d = if c == '-' {
            '_'
        } else {
            c
        };
        push_char(&mut res, d);
        assert(dashes_to_underscores(s@.take(i + 1)) =~= dashes_to_underscores(s@.take(i as int)).push(d));
        i = i + 1;
    }
    assert(s@.take(n as int) =~= s@);
    res
}

impl Config {
    /// The desktop JNI library name; see [`desktop_library_name`].
    pub fn resolved_android_kotlin_desktop_library_name(&self) -> (res: String)
        ensures
            res@ == desktop_library_name(*self),
    {
        match &self.targets.android_kotlin_library_name {
            Some(n) => underscored(n.as_str()),
            None => underscored(self.package.name.as_str()),
        }
    }
}

/// The JVM native layout of the Kotlin Multiplatform project: its JNI
/// directory and resource root, the configured desktop library name, no
/// flat output, and neither stripping nor debug symbols, whatever the Java
/// target asks for.
pub fn kmp_jvm_native_layout(config: &Config, header_name: &str) -> (res: JvmNativePackageLayout)
    ensures
        res.jni_dir@ == path_join(config.targets.kotlin_multiplatform.output@, "src/jvmMain/c"@),
        res.header_name@ == header_name@,
        res.jni_library_name@ == desktop_library_name(*config),
        res.native_output_root@ == path_join(config.targets.kotlin_multiplatform.output@, "src/jvmMain/resources/native"@),
        res.flat_output_root is None,
        !res.strip_symbols,
        !res.debug_symbols_enabled,
{
    JvmNativePackageLayout {
        jni_dir: kmp_jvm_jni_dir(config),
        header_name: String::from_str(header_name),
        jni_library_name: config.resolved_android_kotlin_desktop_library_name(),
        native_output_root: kmp_jvm_native_resource_root(config),
        flat_output_root: None,
        strip_symbols: false,
        debug_symbols_enabled: false,
    }
}

/// The execution switches every packaging command shares.
pub struct PackExecutionOptions {
    pub release: bool,
    pub regenerate: bool,
    pub no_build: bool,
    pub cargo_args: Vec<String>,
}

/// The options of `pack csharp`.
pub struct PackCSharpOptions {
    pub execution: PackExecutionOptions,
}

/// Where the native library of each runtime comes from.
#[derive(Clone, Copy, Debug, PartialEq, Eq, Structural)]
pub enum NativeLibrarySource {
    /// Built with cargo for the runtime.
    Build,
    /// Taken from an earlier build.
    Reuse,
}

/// What an accepted `pack csharp` does: regenerate the bindings or not,
/// and build or reuse the native libraries.
pub struct CSharpPackRun {
    pub regenerate: bool,
    pub native_libraries: NativeLibrarySource,
    pub release: bool,
}

impl CSharpPackRun {
    /// The verb the progress line of a native library starts with.
    pub fn native_library_action(&self) -> (res: &'static str)
        ensures
            self.native_libraries == NativeLibrarySource::Reuse ==> res@ == "Reusing"@,
            self.native_libraries == NativeLibrarySource::Build ==> res@ == "Building"@,
    {
        match self.native_libraries {
            NativeLibrarySource::Reuse => "Reusing",
            NativeLibrarySource::Build => "Building",
        }
    }
}

/// `pack csharp` is refused while the C# target is disabled; otherwise it
/// regenerates when asked and builds the native libraries unless told to
/// reuse them.
pub fn pack_csharp(config: &Config, options: &PackCSharpOptions) -> (res: Result<CSharpPackRun, CliError>)
    ensures
        res is Ok <==> config.targets.csharp.enabled,
        res matches Err(CliError::CommandFailed { command, status }) ==> command@ == "targets.csharp.enabled = false"@ && status is None,
        res matches Ok(run) ==> run.regenerate == options.execution.regenerate && run.release == options.execution.release
            && run.native_libraries == (if options.execution.no_build {
            NativeLibrarySource::Reuse
        } else {
            NativeLibrarySource::Build
        }),
{
    if !config.is_csharp_enabled() {
        return Err(CliError::refused(String::from_str("targets.csharp.enabled = false")));
    }
    let native_libraries = if options.execution.no_build {
        NativeLibrarySource::Reuse
    } else {
        NativeLibrarySource::Build
    };
    Ok(CSharpPackRun { regenerate: options.execution.regenerate, native_libraries, release: options.execution.release })
}

/// The refusal of an explicit cargo `--target` for `pack csharp`.
pub open spec fn cargo_target_refusal(selector: Seq<char>) -> Seq<char> {
    "pack csharp resolves native assets from targets.csharp.runtime_identifiers; remove cargo --target '"@ + selector + "'"@
}

/// `pack csharp` picks its cargo targets from the runtime identifiers, so
/// an explicit cargo `--target` is refused.
pub fn ensure_csharp_pack_cargo_args_supported(target_selector: Option<&str>) -> (res: Result<(), CliError>)
    ensures
        target_selector is None ==> res is Ok,
        target_selector matches Some(s) ==> refused_with(res, cargo_target_refusal(s@)),
{
    match target_selector {
        Some(selector) => {
            let mut command = String::from_str(
                "pack csharp resolves native assets from targets.csharp.runtime_identifiers; remove cargo --target '",
            );
            command.append(selector);
            command.append("'");
            Err(CliError::refused(command))
        },
        None => Ok(()),
    }
}

/// The directories of a C# package.
pub struct CSharpPackageLayout {
    pub root_directory: String,
    pub source_directory: String,
    pub package_output: String,
    pub project_path: String,
}

impl CSharpPackageLayout {
    /// The layout under `root_directory`: sources in `src`, the project
    /// file `BoltFFI.CSharp.csproj`, packages in `package_output`.
    pub fn under(root_directory: &str, package_output: &str) -> (res: Self)
        ensures
            res.root_directory@ == root_directory@,
            res.source_directory@ == path_join(root_directory@, "src"@),
            res.package_output@ == package_output@,
            res.project_path@ == path_join(root_directory@, "BoltFFI.CSharp.csproj"@),
    {
        CSharpPackageLayout {
            root_directory: String::from_str(root_directory),
            source_directory: join_path(root_directory, "src"),
            package_output: String::from_str(package_output),
            project_path: join_path(root_directory, "BoltFFI.CSharp.csproj"),
        }
    }

    /// Where the native asset of a runtime is copied:
    /// `runtimes/<runtime>/native` under the root.
    pub fn native_asset_directory(&self, runtime_identifier: CSharpRuntimeIdentifier) -> (res: String)
        ensures
            res@ == path_join(path_join(path_join(self.root_directory@, "runtimes"@), rid_name(runtime_identifier)), "native"@),
    {
        let runtimes = join_path(self.root_directory.as_str(), "runtimes");
        let runtime = join_path(runtimes.as_str(), runtime_identifier.canonical_name());
        join_path(runtime.as_str(), "native")
    }

    /// The directory of a runtime's assets, `runtimes/<runtime>` under the
    /// root.
    pub fn runtime_directory(&self, runtime_identifier: CSharpRuntimeIdentifier) -> (res: String)
        ensures
            res@ == path_join(path_join(self.root_directory@, "runtimes"@), rid_name(runtime_identifier)),
    {
        let runtimes = join_path(self.root_directory.as_str(), "runtimes");
        join_path(runtimes.as_str(), runtime_identifier.canonical_name())
    }
}

/// A cargo build profile: the directory its artifacts land in and whether
/// it optimises like a release.
pub struct CargoBuildProfile {
    pub output_directory_name: String,
    pub release_like: bool,
}

/// How the native library of one runtime is built.
pub struct CSharpCargoContext {
    pub rust_target_triple: String,
    pub release: bool,
    pub build_profile: CargoBuildProfile,
    pub artifact_name: String,
    pub cargo_manifest_path: String,
    pub package_selector: Option<String>,
    pub target_directory: String,
    pub cargo_command_args: Vec<String>,
    pub toolchain_selector: Option<String>,
}

impl CSharpCargoContext {
    /// Where cargo puts the artifacts: the target directory, then the
    /// target triple, then the profile's directory.
    pub fn artifact_directory(&self) -> (res: String)
        ensures
            res@ == path_join(path_join(self.target_directory@, self.rust_target_triple@), self.build_profile.output_directory_name@),
    {
        let per_target = join_path(self.target_directory.as_str(), self.rust_target_triple.as_str());
        join_path(per_target.as_str(), self.build_profile.output_directory_name.as_str())
    }
}

/// One runtime the package carries and how its library is built.
pub struct CSharpPackagingTarget {
    pub runtime_identifier: CSharpRuntimeIdentifier,
    pub cargo_context: CSharpCargoContext,
}

fn clone_optional_text(text: &Option<String>) -> (res: Option<String>)
    ensures
        res == *text,
{
    match text {
        Some(t) => Some(t.clone()),
        None => None,
    }
}

fn clone_texts(texts: &Vec<String>) -> (res: Vec<String>)
    ensures
        res@ == texts@,
{
    let mut res: Vec<String> = Vec::new();
    let mut i: usize = 0;
    while i < texts.len()
        invariant
            i <= texts@.len(),
            res@ == texts@.take(i as int),
        decreases texts.len() - i,
    {
        res.push(texts[i].clone());
        assert(res@ =~= texts@.take(i + 1));
        i = i + 1;
    }
    assert(texts@.take(texts@.len() as int) =~= texts@);
    res
}

/// Whether `c` is the shared cargo context `shared` built for the target
/// triple `triple`.
pub open spec fn context_for_triple(c: CSharpCargoContext, shared: CSharpCargoContext, triple: Seq<char>) -> bool {
    &&& c.rust_target_triple@ == triple
    &&& c.release == shared.release
    &&& c.build_profile == shared.build_profile
    &&& c.artifact_name == shared.artifact_name
    &&& c.cargo_manifest_path == shared.cargo_manifest_path
    &&& c.package_selector == shared.package_selector
    &&& c.target_directory == shared.target_directory
    &&& c.cargo_command_args@ == shared.cargo_command_args@
    &&& c.toolchain_selector == shared.toolchain_selector
}

impl CSharpCargoContext {
    /// This context built for the target triple `triple`.
    pub fn for_triple(&self, triple: String) -> (res: CSharpCargoContext)
        ensures
            context_for_triple(res, *self, triple@),
    {
        CSharpCargoContext {
            rust_target_triple: triple,
            release: self.release,
            build_profile: CargoBuildProfile {
                output_directory_name: self.build_profile.output_directory_name.clone(),
                release_like: self.build_profile.release_like,
            },
            artifact_name: self.artifact_name.clone(),
            cargo_manifest_path: self.cargo_manifest_path.clone(),
            package_selector: clone_optional_text(&self.package_selector),
            target_directory: self.target_directory.clone(),
            cargo_command_args: clone_texts(&self.cargo_command_args),
            toolchain_selector: clone_optional_text(&self.toolchain_selector),
        }
    }
}

/// One packaging target per configured runtime, in order: the runtime, and
/// the shared cargo context built for the target triple the toolchain of
/// that runtime's host resolved to (`triples[i]` for `runtime_identifiers[i]`).
pub fn packaging_targets_for(
    runtime_identifiers: &Vec<CSharpRuntimeIdentifier>,
    triples: Vec<String>,
    shared: &CSharpCargoContext,
) -> (res: Vec<CSharpPackagingTarget>)
    requires
        triples@.len() == runtime_identifiers@.len(),
    ensures
        res@.len() == runtime_identifiers@.len(),
        forall|i: int| 0 <= i < res@.len() ==> (#[trigger] res@[i]).runtime_identifier == runtime_identifiers@[i]
            && context_for_triple(res@[i].cargo_context, *shared, triples@[i]@),
{
    let mut res: Vec<CSharpPackagingTarget> = Vec::new();
    let mut i: usize = 0;
    while i < runtime_identifiers.len()
        invariant
            i <= runtime_identifiers@.len(),
            triples@.len() == runtime_identifiers@.len(),
            res@.len() == i,
            forall|j: int| 0 <= j < i ==> (#[trigger] res@[j]).runtime_identifier == runtime_identifiers@[j]
                && context_for_triple(res@[j].cargo_context, *shared, triples@[j]@),
        decreases runtime_identifiers.len() - i,
    {
        let triple = triples[i].clone();
        let cargo_context = shared.for_triple(triple);
        res.push(CSharpPackagingTarget { runtime_identifier: runtime_identifiers[i], cargo_context });
        i = i + 1;
    }
    res
}

impl CSharpPackagingTarget {
    /// Where the built native library of this runtime is found.
    pub fn native_library_path(&self) -> (res: String)
        ensures
            res@ == path_join(
                path_join(
                    path_join(self.cargo_context.target_directory@, self.cargo_context.rust_target_triple@),
                    self.cargo_context.build_profile.output_directory_name@,
                ),
                native_library_name(self.runtime_identifier, self.cargo_context.artifact_name@),
            ),
    {
        let directory = self.cargo_context.artifact_directory();
        let file = self.runtime_identifier.native_library_filename(self.cargo_context.artifact_name.as_str());
        join_path(directory.as_str(), file.as_str())
    }
}

/// Everything `pack csharp` needs to build and pack.
pub struct CSharpPackagingPlan {
    pub package_id: String,
    pub package_version: String,
    pub target_framework: String,
    pub artifact_name: String,
    pub source_directory: String,
    pub layout: CSharpPackageLayout,
    pub packaging_targets: Vec<CSharpPackagingTarget>,
}

/// The .NET names of the plan's runtimes, in order.
pub open spec fn target_rid_names(targets: Seq<CSharpPackagingTarget>) -> Seq<Seq<char>> {
    targets.map_values(|t: CSharpPackagingTarget| rid_name(t.runtime_identifier))
}

/// Whether a runtime is among the plan's.
pub open spec fn requested(targets: Seq<CSharpPackagingTarget>, r: CSharpRuntimeIdentifier) -> bool {
    exists|i: int| 0 <= i < targets.len() && targets[i].runtime_identifier == r
}

/// The runtimes of `rs` the plan does not carry, in order.
pub open spec fn unrequested(rs: Seq<CSharpRuntimeIdentifier>, targets: Seq<CSharpPackagingTarget>) -> Seq<CSharpRuntimeIdentifier>
    decreases rs.len(),
{
    if rs.len() == 0 {
        Seq::empty()
    } else {
        let rest = unrequested(rs.drop_last(), targets);
        if requested(targets, rs.last()) {
            rest
        } else {
            rest.push(rs.last())
        }
    }
}

/// The explicit runtimes the plan does not carry, in the fixed order.
pub open spec fn stale_rids(targets: Seq<CSharpPackagingTarget>) -> Seq<CSharpRuntimeIdentifier> {
    unrequested(explicit_rids(), targets)
}

/// Every explicit runtime is either carried by the plan or among the stale
/// ones that are removed, never both.
pub proof fn lemma_stale_runtimes_complement(targets: Seq<CSharpPackagingTarget>, r: CSharpRuntimeIdentifier)
    ensures
        stale_rids(targets).contains(r) <==> !requested(targets, r),
{
    lemma_unrequested_contains(explicit_rids(), targets, r);
    assert(explicit_rids().contains(r)) by {
        match r {
            CSharpRuntimeIdentifier::OsxArm64 => assert(explicit_rids()[0] == r),
            CSharpRuntimeIdentifier::OsxX64 => assert(explicit_rids()[1] == r),
            CSharpRuntimeIdentifier::LinuxX64 => assert(explicit_rids()[2] == r),
            CSharpRuntimeIdentifier::LinuxArm64 => assert(explicit_rids()[3] == r),
            CSharpRuntimeIdentifier::WinX64 => assert(explicit_rids()[4] == r),
        }
    }
}

proof fn lemma_unrequested_contains(rs: Seq<CSharpRuntimeIdentifier>, targets: Seq<CSharpPackagingTarget>, r: CSharpRuntimeIdentifier)
    ensures
        unrequested(rs, targets).contains(r) <==> rs.contains(r) && !requested(targets, r),
    decreases rs.len(),
{
    if rs.len() > 0 {
        lemma_unrequested_contains(rs.drop_last(), targets, r);
        if rs.contains(r) && rs.last() != r {
            let i = choose|i: int| 0 <= i < rs.len() && rs[i] == r;
            assert(rs.drop_last()[i] == r);
        }
        if rs.drop_last().contains(r) {
            let i = choose|i: int| 0 <= i < rs.drop_last().len() && rs.drop_last()[i] == r;
            assert(rs[i] == r);
        }
        if !requested(targets, rs.last()) {
            assert(unrequested(rs, targets) == unrequested(rs.drop_last(), targets).push(rs.last()));
            if unrequested(rs, targets).contains(r) && r != rs.last() {
                let i = choose|i: int| 0 <= i < unrequested(rs, targets).len() && unrequested(rs, targets)[i] == r;
                assert(unrequested(rs.drop_last(), targets)[i] == r);
            }
            if unrequested(rs.drop_last(), targets).contains(r) {
                let i = choose|i: int| 0 <= i < unrequested(rs.drop_last(), targets).len() && unrequested(rs.drop_last(), targets)[i] == r;
                assert(unrequested(rs, targets)[i] == r);
            }
            if r == rs.last() {
                assert(unrequested(rs, targets)[unrequested(rs, targets).len() - 1] == r);
            }
        }
    }
}

impl CSharpPackagingPlan {
    /// The plan from what cargo and the configuration resolved: refused
    /// when the library does not build a `cdylib`, then when its package
    /// has no source directory; the version defaults to `0.1.0`.
    pub fn from_resolved(
        package_id: String,
        package_version: Option<String>,
        target_framework: String,
        artifact_name: String,
        builds_cdylib: bool,
        source_directory: Option<String>,
        layout: CSharpPackageLayout,
        packaging_targets: Vec<CSharpPackagingTarget>,
    ) -> (res: Result<Self, CliError>)
        ensures
            !builds_cdylib ==> (res matches Err(CliError::CommandFailed { command, status })
                && command@ == "pack csharp requires the selected Rust library target to build a cdylib"@ && status is None),
            builds_cdylib && source_directory is None ==> (res matches Err(CliError::CommandFailed { command, status })
                && command@ == "could not resolve selected Cargo package source directory for C# generation"@ && status is None),
            builds_cdylib && source_directory is Some <==> res is Ok,
            res matches Ok(plan) ==> plan.package_id == package_id && plan.target_framework == target_framework
                && plan.artifact_name == artifact_name && plan.source_directory == source_directory->0 && plan.layout == layout
                && plan.packaging_targets == packaging_targets && plan.package_version@ == (match package_version {
                Some(v) => v@,
                None => "0.1.0"@,
            }),
    {
        if !builds_cdylib {
            return Err(
                CliError::refused(String::from_str("pack csharp requires the selected Rust library target to build a cdylib")),
            );
        }
        let source_directory = match source_directory {
            Some(d) => d,
            None => {
                return Err(
                    CliError::refused(String::from_str("could not resolve selected Cargo package source directory for C# generation")),
                );
            },
        };
        let package_version = match package_version {
            Some(v) => v,
            None => String::from_str("0.1.0"),
        };
        Ok(CSharpPackagingPlan { package_id, package_version, target_framework, artifact_name, source_directory, layout, packaging_targets })
    }

    /// The explicit runtimes whose stale assets are removed: those the
    /// plan does not carry; see [`stale_rids`].
    pub fn stale_runtime_identifiers(&self) -> (res: Vec<CSharpRuntimeIdentifier>)
        ensures
            res@ == stale_rids(self.packaging_targets@),
    {
        let explicit = CSharpRuntimeIdentifier::explicit_targets();
        let ghost targets = self.packaging_targets@;
        let mut res: Vec<CSharpRuntimeIdentifier> = Vec::new();
        let mut i: usize = 0;
        while i < explicit.len()
            invariant
                explicit@ == explicit_rids(),
                targets == self.packaging_targets@,
                i <= explicit@.len(),
                res@ == unrequested(explicit_rids().take(i as int), targets),
            decreases explicit.len() - i,
        {
            let r = explicit[i];
            let mut found = false;
            let mut j: usize = 0;
            while j < self.packaging_targets.len()
                invariant
                    targets == self.packaging_targets@,
                    j <= targets.len(),
                    found <==> exists|k: int| 0 <= k < j && targets[k].runtime_identifier == r,
                decreases self.packaging_targets.len() - j,
            {
                if self.packaging_targets[j].runtime_identifier == r {
                    found = true;
                }
                j = j + 1;
            }
            assert(found <==> requested(targets, r));
            assert(explicit_rids().take(i + 1).drop_last() =~= explicit_rids().take(i as int));
            if !found {
                res.push(r);
            }
            i = i + 1;
        }
        assert(explicit_rids().take(5) =~= explicit_rids());
        res
    }

    /// The .NET configuration `dotnet pack` uses: `Release` when any
    /// runtime is built with a release-like profile, `Debug` otherwise.
    pub fn dotnet_configuration(&self) -> (res: &'static str)
        ensures
            (exists|i: int| 0 <= i < self.packaging_targets@.len() && self.packaging_targets@[i].cargo_context.build_profile.release_like)
                ==> res@ == "Release"@,
            !(exists|i: int| 0 <= i < self.packaging_targets@.len() && self.packaging_targets@[i].cargo_context.build_profile.release_like)
                ==> res@ == "Debug"@,
    {
        let mut i: usize = 0;
        while i < self.packaging_targets.len()
            invariant
                i <= self.packaging_targets@.len(),
                forall|k: int| 0 <= k < i ==> !self.packaging_targets@[k].cargo_context.build_profile.release_like,
            decreases self.packaging_targets.len() - i,
        {
            if self.packaging_targets[i].cargo_context.build_profile.release_like {
                return "Release";
            }
            i = i + 1;
        }
        "Debug"
    }

    /// The package `dotnet pack` writes: `<id>.<version>.nupkg` in the
    /// package output.
    pub fn package_path(&self) -> (res: String)
        ensures
            res@ == path_join(self.layout.package_output@, self.package_id@ + "."@ + self.package_version@ + ".nupkg"@),
    {
        let mut file = self.package_id.clone();
        file.append(".");
        file.append(self.package_version.as_str());
        file.append(".nupkg");
        join_path(self.layout.package_output.as_str(), file.as_str())
    }
}

/// A character as it stands in escaped markup: the five markup characters
/// as numeric references, any other as itself.
pub open spec fn escaped_char(c: char) -> Seq<char> {
    if c == '<' {
        "&#60;"@
    } else if c == '>' {
        "&#62;"@
    } else if c == '&' {
        "&#38;"@
    } else if c == '"' {
        "&#34;"@
    } else if c == '\'' {
        "&#39;"@
    } else {
        seq![c]
    }
}

/// A text with every character escaped for markup.
pub open spec fn html_escaped(s: Seq<char>) -> Seq<char>
    decreases s.len(),
{
    if s.len() == 0 {
        Seq::empty()
    } else {
        html_escaped(s.drop_last()) + escaped_char(s.last())
    }
}

/// Escaped text never holds a raw `<`, `>`, `"` or `'`: each of them is
/// spelled as a numeric reference.
pub proof fn lemma_escaped_has_no_markup_characters(s: Seq<char>)
    ensures
        forall|i: int|
            0 <= i < html_escaped(s).len() ==> #[trigger] html_escaped(s)[i] != '<' && html_escaped(s)[i] != '>'
                && html_escaped(s)[i] != '"' && html_escaped(s)[i] != '\'',
    decreases s.len(),
{
    if s.len() > 0 {
        lemma_escaped_has_no_markup_characters(s.drop_last());
        let prefix = html_escaped(s.drop_last());
        let tail = escaped_char(s.last());
        reveal_strlit("&#60;");
        reveal_strlit("&#62;");
        reveal_strlit("&#38;");
        reveal_strlit("&#34;");
        reveal_strlit("&#39;");
        assert forall|i: int| 0 <= i < html_escaped(s).len() implies #[trigger] html_escaped(s)[i] != '<' && html_escaped(s)[i]
            != '>' && html_escaped(s)[i] != '"' && html_escaped(s)[i] != '\'' by {
            if i >= prefix.len() {
                assert(html_escaped(s)[i] == tail[i - prefix.len()]);
            } else {
                assert(html_escaped(s)[i] == prefix[i]);
            }
        }
    }
}

/// Escapes a text for markup; see [`html_escaped`].
pub fn escape_html(s: &str) -> (res: String)
    ensures
        res@ == html_escaped(s@),
{
    let n = s.unicode_len();
    let mut res = String::new();
    let mut i: usize = 0;
    while i < n
        invariant
            n == s@.len(),
            i <= n,
            res@ == html_escaped(s@.take(i as int)),
        decreases n - i,
    {
        let c = s.get_char(i);
        assert(s@.take(i + 1).drop_last() =~= s@.take(i as int));
        if c == '<' {
            res.append("&#60;");
        } else if c == '>' {
            res.append("&#62;");
        } else if c == '&' {
            res.append("&#38;");
        } else if c == '"' {
            res.append("&#34;");
        } else if c == '\'' {
            res.append("&#39;");
        } else {
            push_char(&mut res, c);
        }
        i = i + 1;
    }
    assert(s@.take(n as int) =~= s@);
    res
}

/// An optional property line of the project file, when the value is there.
pub open spec fn optional_property(tag: Seq<char>, value: Option<Seq<char>>) -> Seq<char> {
    match value {
        Some(v) => "    <"@ + tag + ">"@ + html_escaped(v) + "</"@ + tag + ">\n"@,
        None => Seq::empty(),
    }
}

/// The C# project file: the target framework, the runtimes, the package id
/// and version, unsafe code allowed, the optional description, license and
/// repository, the sources under `src`, and every runtime asset packed
/// under its own path. Every value is escaped for markup.
pub open spec fn csproj_text(
    target_framework: Seq<char>,
    runtime_identifiers: Seq<char>,
    package_id: Seq<char>,
    package_version: Seq<char>,
    description: Option<Seq<char>>,
    license: Option<Seq<char>>,
    repository: Option<Seq<char>>,
) -> Seq<char> {
    "<Project Sdk=\"Microsoft.NET.Sdk\">\n\n  <PropertyGroup>\n    <TargetFramework>"@ + html_escaped(target_framework)
        + "</TargetFramework>\n    <RuntimeIdentifiers>"@ + html_escaped(runtime_identifiers) + "</RuntimeIdentifiers>\n    <PackageId>"@
        + html_escaped(package_id) + "</PackageId>\n    <Version>"@ + html_escaped(package_version)
        + "</Version>\n    <AllowUnsafeBlocks>true</AllowUnsafeBlocks>\n    <EnableDefaultCompileItems>false</EnableDefaultCompileItems>\n"@
        + optional_property("Description"@, description) + optional_property("PackageLicenseExpression"@, license) + optional_property(
        "RepositoryUrl"@,
        repository,
    )
        + "  </PropertyGroup>\n\n  <ItemGroup>\n    <Compile Include=\"src/**/*.cs\" />\n    <None Include=\"runtimes/**/*\" Pack=\"true\" PackagePath=\"%(Identity)\" />\n  </ItemGroup>\n\n</Project>\n"@
}

/// The view of an optional string.
pub open spec fn option_text(o: Option<String>) -> Option<Seq<char>> {
    match o {
        Some(s) => Some(s@),
        None => None,
    }
}

fn push_optional_property(res: &mut String, tag: &str, value: &Option<String>)
    ensures
        final(res)@ == old(res)@ + optional_property(tag@, option_text(*value)),
{
    match value {
        Some(v) => {
            res.append("    <");
            res.append(tag);
            res.append(">");
            let e = escape_html(v.as_str());
            res.append(e.as_str());
            res.append("</");
            res.append(tag);
            res.append(">\n");
        },
        None => {},
    }
}

/// The C# project file of a plan; see [`csproj_text`]. The runtimes are
/// the plan's, joined by `;`; the description, license and repository are
/// the package's.
pub fn render_csharp_project(config: &Config, plan: &CSharpPackagingPlan) -> (res: Result<String, CliError>)
    ensures
        res matches Ok(text) && text@ == csproj_text(
            plan.target_framework@,
            joined(target_rid_names(plan.packaging_targets@), ";"@),
            plan.package_id@,
            plan.package_version@,
            option_text(config.package.description),
            option_text(config.package.license),
            option_text(config.package.repository),
        ),
{
    let ghost targets = plan.packaging_targets@;
    let mut names: Vec<String> = Vec::new();
    let mut i: usize = 0;
    while i < plan.packaging_targets.len()
        invariant
            targets == plan.packaging_targets@,
            i <= targets.len(),
            names@.map_values(|s: String| s@) == target_rid_names(targets).take(i as int),
        decreases plan.packaging_targets.len() - i,
    {
        let name = String::from_str(plan.packaging_targets[i].runtime_identifier.canonical_name());
        let ghost before = names@.map_values(|s: String| s@);
        let ghost v = name@;
        names.push(name);
        assert(names@.map_values(|s: String| s@) =~= before.push(v));
        assert(target_rid_names(targets).take(i + 1) =~= target_rid_names(targets).take(i as int).push(v));
        i = i + 1;
    }
    assert(target_rid_names(targets).take(targets.len() as int) =~= target_rid_names(targets));
    let runtime_identifiers = join_strings(&names, ";");
    let license = config.package_license();
    let repository = config.package_repository();

    let mut res = String::from_str("<Project Sdk=\"Microsoft.NET.Sdk\">\n\n  <PropertyGroup>\n    <TargetFramework>");
    let e = escape_html(plan.target_framework.as_str());
    res.append(e.as_str());
    res.append("</TargetFramework>\n    <RuntimeIdentifiers>");
    let e = escape_html(runtime_identifiers.as_str());
    res.append(e.as_str());
    res.append("</RuntimeIdentifiers>\n    <PackageId>");
    let e = escape_html(plan.package_id.as_str());
    res.append(e.as_str());
    res.append("</PackageId>\n    <Version>");
    let e = escape_html(plan.package_version.as_str());
    res.append(e.as_str());
    res.append(
        "</Version>\n    <AllowUnsafeBlocks>true</AllowUnsafeBlocks>\n    <EnableDefaultCompileItems>false</EnableDefaultCompileItems>\n",
    );
    push_optional_property(&mut res, "Description", &config.package.description);
    push_optional_property(&mut res, "PackageLicenseExpression", &license);
    push_optional_property(&mut res, "RepositoryUrl", &repository);
    res.append(
        "  </PropertyGroup>\n\n  <ItemGroup>\n    <Compile Include=\"src/**/*.cs\" />\n    <None Include=\"runtimes/**/*\" Pack=\"true\" PackagePath=\"%(Identity)\" />\n  </ItemGroup>\n\n</Project>\n",
    );
    Ok(res)
}

/// Distinct runtimes have distinct .NET names, so no runtime's assets are
/// packed under another's name.
pub proof fn lemma_rid_names_distinct(a: CSharpRuntimeIdentifier, b: CSharpRuntimeIdentifier)
    ensures
        rid_name(a) == rid_name(b) ==> a == b,
{
    reveal_strlit("osx-arm64");
    reveal_strlit("osx-x64");
    reveal_strlit("linux-x64");
    reveal_strlit("linux-arm64");
    reveal_strlit("win-x64");
    if rid_name(a) == rid_name(b) {
        assert(rid_name(a).len() == rid_name(b).len());
        assert(rid_name(a)[0] == rid_name(b)[0]);
        assert(rid_name(a)[4] == rid_name(b)[4]);
    }
}

/// Whether `s` ends with `suffix`.
pub open spec fn ends_with_text(s: Seq<char>, suffix: Seq<char>) -> bool {
    suffix.len() <= s.len() && s.skip(s.len() - suffix.len()) == suffix
}

/// Whether `s` starts with `prefix`.
pub open spec fn starts_with_text(s: Seq<char>, prefix: Seq<char>) -> bool {
    prefix.len() <= s.len() && s.take(prefix.len() as int) == prefix
}

/// A runtime's .NET name starts with its operating system, the one its
/// native library is built for: `osx-` with a `.dylib`, `linux-` with a
/// `.so`, `win-` with a `.dll`.
pub proof fn lemma_rid_name_names_the_library_platform(r: CSharpRuntimeIdentifier, artifact: Seq<char>)
    ensures
        starts_with_text(rid_name(r), "osx-"@) <==> ends_with_text(native_library_name(r, artifact), ".dylib"@),
        starts_with_text(rid_name(r), "linux-"@) <==> ends_with_text(native_library_name(r, artifact), ".so"@),
        starts_with_text(rid_name(r), "win-"@) <==> ends_with_text(native_library_name(r, artifact), ".dll"@),
{
    reveal_strlit("osx-arm64");
    reveal_strlit("osx-x64");
    reveal_strlit("linux-x64");
    reveal_strlit("linux-arm64");
    reveal_strlit("win-x64");
    reveal_strlit("osx-");
    reveal_strlit("win-");
    reveal_strlit("linux-");
    reveal_strlit("lib");
    reveal_strlit(".dylib");
    reveal_strlit(".so");
    reveal_strlit(".dll");
    let n = native_library_name(r, artifact);
    let name = rid_name(r);
    if starts_with_text(name, "osx-"@) {
        assert(name.take(4)[0] == 'o');
    }
    if starts_with_text(name, "linux-"@) {
        assert(name.take(6)[0] == 'l');
    }
    if starts_with_text(name, "win-"@) {
        assert(name.take(4)[0] == 'w');
    }
    if ends_with_text(n, ".dylib"@) {
        assert(n.skip(n.len() - 6)[5] == 'b');
        assert(n.skip(n.len() - 6)[4] == 'i');
    }
    if ends_with_text(n, ".so"@) {
        assert(n.skip(n.len() - 3)[2] == 'o');
        assert(n.skip(n.len() - 3)[1] == 's');
    }
    if ends_with_text(n, ".dll"@) {
        assert(n.skip(n.len() - 4)[3] == 'l');
    }
    match r {
        CSharpRuntimeIdentifier::OsxArm64 | CSharpRuntimeIdentifier::OsxX64 => {
            assert(n.skip(n.len() - 6) =~= ".dylib"@);
            assert(name.take(4) =~= "osx-"@);
        },
        CSharpRuntimeIdentifier::LinuxX64 | CSharpRuntimeIdentifier::LinuxArm64 => {
            assert(n.skip(n.len() - 3) =~= ".so"@);
            assert(name.take(6) =~= "linux-"@);
        },
        CSharpRuntimeIdentifier::WinX64 => {
            assert(n.skip(n.len() - 4) =~= ".dll"@);
            assert(name.take(4) =~= "win-"@);
        },
    }
}

/// The operating system a runtime runs on.
#[derive(Clone, Copy, Debug, PartialEq, Eq, Structural)]
pub enum RuntimeOs {
    MacOs,
    Linux,
    Windows,
}

/// The processor architecture a runtime runs on.
#[derive(Clone, Copy, Debug, PartialEq, Eq, Structural)]
pub enum RuntimeArch {
    Arm64,
    X64,
}

/// The platform of each runtime: macOS, Linux or Windows, on ARM64 or
/// x64.
pub open spec fn rid_platform(r: CSharpRuntimeIdentifier) -> (RuntimeOs, RuntimeArch) {
    match r {
        CSharpRuntimeIdentifier::OsxArm64 => (RuntimeOs::MacOs, RuntimeArch::Arm64),
        CSharpRuntimeIdentifier::OsxX64 => (RuntimeOs::MacOs, RuntimeArch::X64),
        CSharpRuntimeIdentifier::LinuxX64 => (RuntimeOs::Linux, RuntimeArch::X64),
        CSharpRuntimeIdentifier::LinuxArm64 => (RuntimeOs::Linux, RuntimeArch::Arm64),
        CSharpRuntimeIdentifier::WinX64 => (RuntimeOs::Windows, RuntimeArch::X64),
    }
}

/// The .NET spelling of an operating system in a runtime identifier.
pub open spec fn dotnet_os_text(os: RuntimeOs) -> Seq<char> {
    match os {
        RuntimeOs::MacOs => "osx"@,
        RuntimeOs::Linux => "linux"@,
        RuntimeOs::Windows => "win"@,
    }
}

/// The .NET spelling of an architecture in a runtime identifier.
pub open spec fn dotnet_arch_text(arch: RuntimeArch) -> Seq<char> {
    match arch {
        RuntimeArch::Arm64 => "arm64"@,
        RuntimeArch::X64 => "x64"@,
    }
}

/// A runtime's .NET name is the .NET identifier of its platform, the
/// operating system and the architecture joined by `-` (macOS on x64 is
/// `osx-x64`), and a runtime's native library is the kind its operating
/// system loads (`.dylib` on macOS, `.so` on Linux, `.dll` on Windows).
pub proof fn lemma_rid_name_is_platform_identifier(r: CSharpRuntimeIdentifier, artifact: Seq<char>)
    ensures
        rid_name(r) == dotnet_os_text(rid_platform(r).0) + "-"@ + dotnet_arch_text(rid_platform(r).1),
        rid_platform(r).0 == RuntimeOs::MacOs <==> ends_with_text(native_library_name(r, artifact), ".dylib"@),
        rid_platform(r).0 == RuntimeOs::Linux <==> ends_with_text(native_library_name(r, artifact), ".so"@),
        rid_platform(r).0 == RuntimeOs::Windows <==> ends_with_text(native_library_name(r, artifact), ".dll"@),
{
    reveal_strlit("osx-arm64");
    reveal_strlit("osx-x64");
    reveal_strlit("linux-x64");
    reveal_strlit("linux-arm64");
    reveal_strlit("win-x64");
    reveal_strlit("osx");
    reveal_strlit("linux");
    reveal_strlit("win");
    reveal_strlit("-");
    reveal_strlit("arm64");
    reveal_strlit("x64");
    assert(rid_name(r) =~= dotnet_os_text(rid_platform(r).0) + "-"@ + dotnet_arch_text(rid_platform(r).1));
    lemma_rid_name_names_the_library_platform(r, artifact);
    reveal_strlit("osx-");
    reveal_strlit("linux-");
    reveal_strlit("win-");
    let name = rid_name(r);
    match r {
        CSharpRuntimeIdentifier::OsxArm64 | CSharpRuntimeIdentifier::OsxX64 => {
            assert(name.take(4) =~= "osx-"@);
            assert(name.take(6)[0] != "linux-"@[0]);
            assert(name.take(4)[0] != "win-"@[0]);
        },
        CSharpRuntimeIdentifier::LinuxX64 | CSharpRuntimeIdentifier::LinuxArm64 => {
            assert(name.take(6) =~= "linux-"@);
            assert(name.take(4)[0] != "osx-"@[0]);
            assert(name.take(4)[0] != "win-"@[0]);
        },
        CSharpRuntimeIdentifier::WinX64 => {
            assert(name.take(4) =~= "win-"@);
            assert(name.take(4)[0] != "osx-"@[0]);
            assert(name.take(6)[0] != "linux-"@[0]);
        },
    }
}

} // verus!
