use boltffi_bindgen::cli_config::{
    CSharpConfig, CliError, Config, KotlinMultiplatformConfig, PackageConfig, Target, TargetsConfig,
};
use boltffi_bindgen::generate_plan::{
    next_generate_action, run_generate_with_output, CSharpGenerator, GenerateAction, GenerateOptions, GenerateTarget,
    KMPGenerator, TypeScriptGenerator,
};
use boltffi_bindgen::pack_rules::{
    ensure_csharp_pack_cargo_args_supported, ensure_kmp_no_build_supported, ensure_kmp_packaging_enabled,
    escape_html, packaging_targets_for, kmp_jvm_jni_dir, kmp_jvm_native_layout, kmp_jvm_native_resource_root, pack_csharp,
    render_csharp_project, CSharpCargoContext, CSharpPackageLayout, CSharpPackagingPlan, CSharpPackagingTarget,
    CSharpRuntimeIdentifier, CargoBuildProfile, NativeLibrarySource, PackCSharpOptions, PackExecutionOptions,
};
use boltffi_bindgen::paths::join_path;

fn base_config(name: &str) -> Config {
    Config {
        experimental: Vec::new(),
        package: PackageConfig {
            name: name.to_string(),
            crate_name: None,
            version: None,
            description: None,
            license: None,
            repository: None,
        },
        targets: TargetsConfig {
            swift: false,
            kotlin: false,
            java: false,
            header: false,
            typescript: false,
            dart: false,
            python: false,
            kotlin_multiplatform: KotlinMultiplatformConfig {
                enabled: false,
                output: "dist/kmp".to_string(),
                module_name: None,
            },
            csharp: CSharpConfig { enabled: false, output: "dist/csharp".to_string(), runtime_identifiers: None },
            android_kotlin_library_name: None,
        },
    }
}

fn config() -> Config {
    let mut config = base_config("demo");
    config.package.version = Some("1.2.3".to_string());
    config.package.description = Some("Demo <runtime>".to_string());
    config.package.license = Some("MIT".to_string());
    config.package.repository = Some("https://example.com/demo".to_string());
    config.targets.csharp = CSharpConfig {
        enabled: true,
        output: "dist/csharp".to_string(),
        runtime_identifiers: Some(vec![CSharpRuntimeIdentifier::OsxArm64, CSharpRuntimeIdentifier::LinuxX64]),
    };
    config
}

fn options() -> PackCSharpOptions {
    PackCSharpOptions {
        execution: PackExecutionOptions { release: false, regenerate: true, no_build: false, cargo_args: Vec::new() },
    }
}

fn kmp_config(name: &str, enabled: bool, opted_in: bool) -> Config {
    let mut config = base_config(name);
    config.targets.kotlin_multiplatform.enabled = enabled;
    if opted_in {
        config.experimental.push("kotlin_multiplatform".to_string());
    }
    config
}

fn plan(targets: Vec<CSharpPackagingTarget>) -> CSharpPackagingPlan {
    CSharpPackagingPlan {
        package_id: "Demo.Runtime".to_string(),
        package_version: "1.2.3".to_string(),
        target_framework: "net10.0".to_string(),
        artifact_name: "demo".to_string(),
        source_directory: "/tmp/demo".to_string(),
        layout: CSharpPackageLayout {
            root_directory: "/tmp/dist/csharp".to_string(),
            source_directory: "/tmp/dist/csharp/src".to_string(),
            package_output: "/tmp/dist/csharp/packages".to_string(),
            project_path: "/tmp/dist/csharp/BoltFFI.CSharp.csproj".to_string(),
        },
        packaging_targets: targets,
    }
}

fn packaging_target(rid: CSharpRuntimeIdentifier, release_like: bool) -> CSharpPackagingTarget {
    CSharpPackagingTarget {
        runtime_identifier: rid,
        cargo_context: CSharpCargoContext {
            rust_target_triple: "x86_64-unknown-linux-gnu".to_string(),
            release: release_like,
            build_profile: CargoBuildProfile {
                output_directory_name: if release_like { "release" } else { "debug" }.to_string(),
                release_like,
            },
            artifact_name: "demo".to_string(),
            cargo_manifest_path: "Cargo.toml".to_string(),
            package_selector: None,
            target_directory: "target".to_string(),
            cargo_command_args: Vec::new(),
            toolchain_selector: None,
        },
    }
}

#[test]
fn csharp_runtime_identifier_maps_native_assets() {
    assert_eq!(CSharpRuntimeIdentifier::OsxArm64.native_library_filename("demo"), "libdemo.dylib");
    assert_eq!(CSharpRuntimeIdentifier::LinuxX64.native_library_filename("demo"), "libdemo.so");
    assert_eq!(CSharpRuntimeIdentifier::WinX64.native_library_filename("demo"), "demo.dll");
}

#[test]
fn csharp_project_includes_packable_native_assets() {
    let plan = plan(Vec::new());

    let project = render_csharp_project(&config(), &plan).ok().expect("C# project should render");

    assert!(project.contains("<TargetFramework>net10.0</TargetFramework>"));
    assert!(project.contains("<RuntimeIdentifiers></RuntimeIdentifiers>"));
    assert!(project.contains("<PackageId>Demo.Runtime</PackageId>"));
    assert!(project.contains("<Version>1.2.3</Version>"));
    assert!(project.contains("<AllowUnsafeBlocks>true</AllowUnsafeBlocks>"));
    assert!(project.contains(r#"<Compile Include="src/**/*.cs" />"#));
    assert!(project.contains(r#"<None Include="runtimes/**/*" Pack="true" PackagePath="%(Identity)" />"#));
    assert!(project.contains("<Description>Demo &#60;runtime&#62;</Description>"));
    assert!(project.contains("<RepositoryUrl>https://example.com/demo</RepositoryUrl>"));
}

#[test]
fn rejects_pack_csharp_when_target_is_disabled() {
    let mut config = config();
    config.targets.csharp.enabled = false;

    let error = pack_csharp(&config, &options()).err().expect("disabled csharp target should fail before packaging");

    assert!(matches!(
        error,
        CliError::CommandFailed { command, .. }
            if command.contains("targets.csharp.enabled = false")
    ));
}

#[test]
fn enabled_csharp_pack_builds_unless_told_to_reuse() {
    let run = pack_csharp(&config(), &options()).ok().expect("enabled target packs");
    assert!(run.regenerate);
    assert_eq!(run.native_libraries, NativeLibrarySource::Build);
    assert_eq!(run.native_library_action(), "Building");
    let mut reuse = options();
    reuse.execution.no_build = true;
    let run = pack_csharp(&config(), &reuse).ok().expect("enabled target packs");
    assert_eq!(run.native_library_action(), "Reusing");
}

#[test]
fn csharp_project_lists_runtimes_and_omits_missing_metadata() {
    let plan = plan(vec![
        packaging_target(CSharpRuntimeIdentifier::OsxArm64, false),
        packaging_target(CSharpRuntimeIdentifier::LinuxX64, false),
    ]);
    let config = base_config("demo");
    let project = render_csharp_project(&config, &plan).ok().expect("C# project should render");
    assert!(project.contains("<RuntimeIdentifiers>osx-arm64;linux-x64</RuntimeIdentifiers>"));
    assert!(!project.contains("<Description>"));
    assert!(!project.contains("<PackageLicenseExpression>"));
    assert!(!project.contains("<RepositoryUrl>"));
}

#[test]
fn stale_runtimes_are_the_unrequested_explicit_ones() {
    let plan = plan(vec![
        packaging_target(CSharpRuntimeIdentifier::LinuxX64, false),
        packaging_target(CSharpRuntimeIdentifier::OsxArm64, true),
    ]);
    assert_eq!(
        plan.stale_runtime_identifiers(),
        vec![CSharpRuntimeIdentifier::OsxX64, CSharpRuntimeIdentifier::LinuxArm64, CSharpRuntimeIdentifier::WinX64]
    );
    assert_eq!(plan.dotnet_configuration(), "Release");
    assert_eq!(plan.package_path(), "/tmp/dist/csharp/packages/Demo.Runtime.1.2.3.nupkg");
    assert_eq!(
        plan.layout.native_asset_directory(CSharpRuntimeIdentifier::WinX64),
        "/tmp/dist/csharp/runtimes/win-x64/native"
    );
    assert_eq!(
        plan.packaging_targets[0].native_library_path(),
        "target/x86_64-unknown-linux-gnu/debug/libdemo.so"
    );
    let debug_only = self::plan(vec![packaging_target(CSharpRuntimeIdentifier::WinX64, false)]);
    assert_eq!(debug_only.dotnet_configuration(), "Debug");
}

#[test]
fn packaging_plan_requires_cdylib_and_source_directory() {
    let layout = CSharpPackageLayout::under("dist/csharp", "dist/csharp/packages");
    assert_eq!(layout.source_directory, "dist/csharp/src");
    assert_eq!(layout.project_path, "dist/csharp/BoltFFI.CSharp.csproj");
    let refused = CSharpPackagingPlan::from_resolved(
        "Demo".to_string(),
        None,
        "net8.0".to_string(),
        "demo".to_string(),
        false,
        Some("/src".to_string()),
        CSharpPackageLayout::under("dist/csharp", "dist/csharp/packages"),
        Vec::new(),
    );
    assert!(matches!(
        refused,
        Err(CliError::CommandFailed { command, status: None })
            if command == "pack csharp requires the selected Rust library target to build a cdylib"
    ));
    let missing = CSharpPackagingPlan::from_resolved(
        "Demo".to_string(),
        None,
        "net8.0".to_string(),
        "demo".to_string(),
        true,
        None,
        CSharpPackageLayout::under("dist/csharp", "dist/csharp/packages"),
        Vec::new(),
    );
    assert!(matches!(
        missing,
        Err(CliError::CommandFailed { command, .. })
            if command == "could not resolve selected Cargo package source directory for C# generation"
    ));
    let planned = CSharpPackagingPlan::from_resolved(
        "Demo".to_string(),
        None,
        "net8.0".to_string(),
        "demo".to_string(),
        true,
        Some("/src".to_string()),
        layout,
        Vec::new(),
    )
    .ok()
    .expect("plan");
    assert_eq!(planned.package_version, "0.1.0");
}

#[test]
fn explicit_cargo_target_is_refused_for_csharp_pack() {
    assert!(ensure_csharp_pack_cargo_args_supported(None).is_ok());
    let error = ensure_csharp_pack_cargo_args_supported(Some("wasm32-unknown-unknown")).err().expect("refused");
    assert!(matches!(
        error,
        CliError::CommandFailed { command, .. }
            if command == "pack csharp resolves native assets from targets.csharp.runtime_identifiers; remove cargo --target 'wasm32-unknown-unknown'"
    ));
}

#[test]
fn html_escaping_uses_numeric_references() {
    assert_eq!(escape_html("a<b>&\"c'"), "a&#60;b&#62;&#38;&#34;c&#39;");
    assert_eq!(escape_html("plain"), "plain");
}

#[test]
fn kmp_jvm_paths_use_generated_kmp_project_layout() {
    let config = kmp_config("demo-lib", true, true);
    let layout = kmp_jvm_native_layout(&config, "demo-lib");

    assert_eq!(kmp_jvm_jni_dir(&config), "dist/kmp/src/jvmMain/c");
    assert_eq!(kmp_jvm_native_resource_root(&config), "dist/kmp/src/jvmMain/resources/native");
    assert_eq!(layout.jni_dir, "dist/kmp/src/jvmMain/c");
    assert_eq!(layout.header_name, "demo-lib");
    assert_eq!(layout.jni_library_name, "demo_lib");
    assert_eq!(layout.native_output_root, "dist/kmp/src/jvmMain/resources/native");
    assert!(layout.flat_output_root.is_none());
    assert!(!layout.strip_symbols);
    assert!(!layout.debug_symbols_enabled);
}

#[test]
fn kmp_jvm_layout_uses_configured_kotlin_library_name_for_jni_output() {
    let mut config = kmp_config("demo", true, true);
    config.targets.android_kotlin_library_name = Some("configured-library".to_string());
    let layout = kmp_jvm_native_layout(&config, "demo");

    assert_eq!(kmp_jvm_jni_dir(&config), "dist/kmp/src/jvmMain/c");
    assert_eq!(kmp_jvm_native_resource_root(&config), "dist/kmp/src/jvmMain/resources/native");
    assert_eq!(layout.jni_dir, "dist/kmp/src/jvmMain/c");
    assert_eq!(layout.header_name, "demo");
    assert_eq!(layout.jni_library_name, "configured_library");
    assert_eq!(layout.native_output_root, "dist/kmp/src/jvmMain/resources/native");
    assert!(layout.flat_output_root.is_none());
    assert!(!layout.strip_symbols);
    assert!(!layout.debug_symbols_enabled);
}

#[test]
fn kmp_jvm_layout_does_not_inherit_java_strip_or_debug_symbols_policy() {
    let config = kmp_config("demo", true, true);
    let layout = kmp_jvm_native_layout(&config, "demo");

    assert!(layout.flat_output_root.is_none());
    assert!(!layout.strip_symbols);
    assert!(!layout.debug_symbols_enabled);
}

#[test]
fn kmp_packaging_requires_enabled_target() {
    let config = kmp_config("demo", false, false);

    let error = ensure_kmp_packaging_enabled(&config, true).err().expect("target disabled");

    assert!(matches!(error, CliError::CommandFailed { command, .. } if command == "targets.kotlin_multiplatform.enabled = false"));
}

#[test]
fn kmp_packaging_requires_experimental_opt_in() {
    let config = kmp_config("demo", true, false);

    let error = ensure_kmp_packaging_enabled(&config, false).err().expect("missing opt-in");

    assert!(matches!(error, CliError::CommandFailed { command, .. } if command.contains("kotlin_multiplatform is experimental")));
}

#[test]
fn kmp_packaging_accepts_config_opt_in() {
    let config = kmp_config("demo", true, true);

    assert!(ensure_kmp_packaging_enabled(&config, false).is_ok(), "config opt-in");
}

#[test]
fn kmp_packaging_accepts_flag_opt_in() {
    let config = kmp_config("demo", true, false);

    assert!(ensure_kmp_packaging_enabled(&config, true).is_ok(), "flag opt-in");
}

#[test]
fn rejects_no_build_when_kmp_packaging_is_enabled() {
    let config = kmp_config("demo", true, true);

    let error = ensure_kmp_no_build_supported(&config, true, false, "pack all").err().expect("expected no-build rejection");

    assert!(matches!(
        error,
        CliError::CommandFailed { command, status: None }
            if command.contains("pack all --no-build is unsupported")
                && command.contains("Kotlin Multiplatform native packaging")
    ));
}

#[test]
fn allows_no_build_when_kmp_packaging_is_not_selected() {
    let config = kmp_config("demo", true, false);

    assert!(
        ensure_kmp_no_build_supported(&config, true, false, "pack all").is_ok(),
        "unselected KMP target should not reject no-build"
    );
}

#[test]
fn generate_all_runs_processed_targets_in_order() {
    let mut config = kmp_config("demo", true, false);
    config.targets.swift = true;
    config.targets.csharp.enabled = true;
    let all = GenerateOptions { target: GenerateTarget::All, output: None, experimental: false };
    assert_eq!(run_generate_with_output(&config, &all), vec![Target::Swift, Target::CSharp]);
    let all_experimental = GenerateOptions { target: GenerateTarget::All, output: None, experimental: true };
    assert_eq!(
        run_generate_with_output(&config, &all_experimental),
        vec![Target::Swift, Target::KotlinMultiplatform, Target::CSharp]
    );
    let one = GenerateOptions { target: GenerateTarget::Dart, output: None, experimental: false };
    assert_eq!(run_generate_with_output(&config, &one), vec![Target::Dart]);
}

#[test]
fn paths_join_with_one_separator() {
    assert_eq!(join_path("dist/kmp", "src"), "dist/kmp/src");
    assert_eq!(join_path("dist/kmp/", "src"), "dist/kmp/src");
    assert_eq!(join_path("", "src"), "src");
    assert_eq!(join_path("dist", "/abs"), "/abs");
}

#[test]
fn generators_write_to_the_override_or_the_configured_output() {
    let kmp = kmp_config("demo", true, false);
    assert_eq!(KMPGenerator::output_directory(&kmp, None).ok().expect("enabled"), "dist/kmp");
    assert_eq!(KMPGenerator::output_directory(&kmp, Some("out")).ok().expect("enabled"), "out");
    assert_eq!(KMPGenerator::output_file_path("out", "src/a.kt"), "out/src/a.kt");
    let disabled = kmp_config("demo", false, false);
    assert!(matches!(
        KMPGenerator::output_directory(&disabled, None),
        Err(CliError::CommandFailed { command, .. }) if command == "targets.kotlin_multiplatform.enabled = false"
    ));
    assert_eq!(CSharpGenerator::output_directory(&config(), None).ok().expect("enabled"), "dist/csharp");
    assert!(matches!(
        CSharpGenerator::output_directory(&base_config("demo"), Some("x")),
        Err(CliError::CommandFailed { command, .. }) if command == "targets.csharp.enabled = false"
    ));
    assert_eq!(TypeScriptGenerator::output_directory(true, None, "dist/ts").ok().expect("enabled"), "dist/ts");
    assert!(matches!(
        TypeScriptGenerator::output_directory(false, None, "dist/ts"),
        Err(CliError::CommandFailed { command, .. }) if command == "targets.wasm.enabled = false"
    ));
}

#[test]
fn packaging_targets_follow_the_configured_runtimes() {
    let shared = packaging_target(CSharpRuntimeIdentifier::LinuxX64, true).cargo_context;
    let rids = vec![CSharpRuntimeIdentifier::WinX64, CSharpRuntimeIdentifier::OsxArm64];
    let targets = packaging_targets_for(
        &rids,
        vec!["x86_64-pc-windows-msvc".to_string(), "aarch64-apple-darwin".to_string()],
        &shared,
    );
    assert_eq!(targets.len(), 2);
    assert_eq!(targets[0].runtime_identifier, CSharpRuntimeIdentifier::WinX64);
    assert_eq!(targets[0].cargo_context.rust_target_triple, "x86_64-pc-windows-msvc");
    assert_eq!(targets[1].runtime_identifier, CSharpRuntimeIdentifier::OsxArm64);
    assert_eq!(targets[1].cargo_context.rust_target_triple, "aarch64-apple-darwin");
    assert_eq!(targets[1].cargo_context.artifact_name, "demo");
    assert_eq!(targets[1].cargo_context.build_profile.output_directory_name, "release");
    assert_eq!(targets[1].native_library_path(), "target/aarch64-apple-darwin/release/libdemo.dylib");
}

#[test]
fn generate_runs_generators_in_order_and_stops_at_the_first_failure() {
    let generators = vec![Target::Swift, Target::Kotlin, Target::CSharp];
    assert!(matches!(next_generate_action(&generators, 0, Ok(())), GenerateAction::Run(Target::Swift)));
    assert!(matches!(next_generate_action(&generators, 1, Ok(())), GenerateAction::Run(Target::Kotlin)));
    assert!(matches!(next_generate_action(&generators, 3, Ok(())), GenerateAction::Finish(Ok(()))));
    let failed = next_generate_action(&generators, 2, Err(CliError::CommandFailed { command: "kotlin".to_string(), status: Some(1) }));
    assert!(matches!(
        failed,
        GenerateAction::Finish(Err(CliError::CommandFailed { command, status: Some(1) })) if command == "kotlin"
    ));
}
