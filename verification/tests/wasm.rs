use boltffi_bindgen::cli_config::CliError;
use boltffi_bindgen::wasm_pack_flow::{
    pack_wasm_checks, pack_wasm_flags, pack_wasm_path, pack_wasm_start, pack_wasm_step, PackWasmAction, PackWasmEvent,
    PackWasmFlags, PackWasmPath, PackWasmRefusal, PackWasmSettings,
};
use boltffi_bindgen::typescript_output::{
    emits_node_bundle, retarget_runtime_import, typescript_output_paths, WasmNpmTarget,
};
use boltffi_bindgen::wasm_bindgen::{
    find_text, has_placeholder_module, patch_wasm_bindgen_glue, wasm_bindgen_args, wasm_bindgen_files,
    wasm_bindgen_marker, wasm_has_placeholder_imports_bytes,
};
use boltffi_bindgen::wasm_pack::{
    ensure_wasm_pack_allowed, missing_wasm_opt, optimized_wasm_path, requested_wasm_profile, tsc_command,
    tsc_outcome, wasm_artifact_profile, wasm_opt_args, BuildProfileKind, MissingOptimizer, WasmOptimizeLevel,
    WasmOptimizeOnMissing, WasmProfile,
};

fn wasm_with_import(module: &str) -> Vec<u8> {
    let mut bytes = vec![0x00, 0x61, 0x73, 0x6d, 0x01, 0x00, 0x00, 0x00];
    bytes.extend_from_slice(&[0x01, 0x04, 0x01, 0x60, 0x00, 0x00]);
    let mut content = vec![0x01, module.len() as u8];
    content.extend_from_slice(module.as_bytes());
    content.extend_from_slice(&[0x01, b'f', 0x00, 0x00]);
    bytes.push(0x02);
    bytes.push(content.len() as u8);
    bytes.extend_from_slice(&content);
    bytes
}

#[test]
fn placeholder_imports_are_detected_in_wasm_binaries() {
    assert!(wasm_has_placeholder_imports_bytes(&wasm_with_import("__wbindgen_placeholder__")));
    assert!(wasm_has_placeholder_imports_bytes(&wasm_with_import("__wbindgen_externref_xform__")));
    assert!(!wasm_has_placeholder_imports_bytes(&wasm_with_import("env")));
    assert!(!wasm_has_placeholder_imports_bytes(b"not wasm"));
    assert!(has_placeholder_module(&vec!["env".to_string(), "__wbindgen_placeholder__x".to_string()]));
    assert!(!has_placeholder_module(&vec!["__wbindgen".to_string()]));
}

#[test]
fn web_glue_gets_runtime_environment() {
    let glue = "import * as import1 from \"env\"\nimport * as import2 from \"env\"\nfunction __wbg_get_imports() {\n  return {};\n}\n";
    let patched = patch_wasm_bindgen_glue(glue, "@boltffi/runtime", "out/demo_wbg.js").ok().expect("glue patches");
    assert_eq!(
        patched,
        "import { __boltffi_takePendingEnv } from \"@boltffi/runtime\";\nfunction __wbg_get_imports() {\n    const import1 = __boltffi_takePendingEnv();\n    const import2 = import1;\n\n  return {};\n}\n\n// boltffi: wasm-bindgen helpers for BoltFFI host instantiation\nexport { __wbg_get_imports, __wbg_finalize_init };\n"
    );
}

#[test]
fn web_glue_keeps_existing_exports_and_binds_one_environment() {
    let glue = "function __wbg_get_imports() {}\nexport { __wbg_get_imports };\n";
    let patched = patch_wasm_bindgen_glue(glue, "rt", "g.js").ok().expect("glue patches");
    assert_eq!(
        patched,
        "import { __boltffi_takePendingEnv } from \"rt\";\nfunction __wbg_get_imports() {\n    const import1 = __boltffi_takePendingEnv();\n}\nexport { __wbg_get_imports };\n"
    );
}

#[test]
fn web_glue_without_imports_function_is_refused() {
    let error = patch_wasm_bindgen_glue("console.log(1);\n", "rt", "out/demo_wbg.js").err().expect("refused");
    assert!(matches!(
        error,
        CliError::CommandFailed { command, status: None }
            if command == "wasm-bindgen glue missing `function __wbg_get_imports() {` in out/demo_wbg.js"
    ));
}

#[test]
fn text_search_finds_the_first_occurrence() {
    assert_eq!(find_text("abcabc", "bc"), Some(1));
    assert_eq!(find_text("abc", "x"), None);
    assert_eq!(find_text("ab", "abc"), None);
    assert_eq!(find_text("ab", ""), Some(0));
}

#[test]
fn wasm_bindgen_files_and_arguments() {
    let files = wasm_bindgen_files("dist/ts", "demo");
    assert_eq!(files.out_name, "demo_wbg");
    assert_eq!(files.bindgen_wasm, "dist/ts/demo_wbg_bg.wasm");
    assert_eq!(files.packaged_wasm, "dist/ts/demo_bg.wasm");
    assert_eq!(files.glue_js, "dist/ts/demo_wbg.js");
    assert_eq!(files.marker, "dist/ts/demo.boltffi.json");
    assert_eq!(
        wasm_bindgen_args("dist/ts", "demo_wbg", "target/demo.wasm"),
        vec![
            "--keep-debug",
            "--target",
            "web",
            "--out-dir",
            "dist/ts",
            "--out-name",
            "demo_wbg",
            "--omit-default-module-path",
            "--no-typescript",
            "target/demo.wasm"
        ]
    );
    assert_eq!(wasm_bindgen_marker("demo_wbg").ok().expect("marker"), "{\n  \"wasm_bindgen_glue\": \"demo_wbg.js\"\n}\n");
}

#[test]
fn wasm_pack_gates() {
    assert!(matches!(
        ensure_wasm_pack_allowed(false, false, None),
        Err(CliError::CommandFailed { command, .. }) if command == "targets.wasm.enabled = false"
    ));
    assert!(matches!(
        ensure_wasm_pack_allowed(true, true, None),
        Err(CliError::CommandFailed { command, .. }) if command == "targets.wasm.npm.package_name is required for pack wasm"
    ));
    assert!(ensure_wasm_pack_allowed(true, true, Some("@demo/wasm")).is_ok());
    assert!(ensure_wasm_pack_allowed(true, false, None).is_ok());
}

#[test]
fn wasm_profiles_follow_the_build() {
    assert_eq!(requested_wasm_profile(true, WasmProfile::Debug), WasmProfile::Release);
    assert_eq!(requested_wasm_profile(false, WasmProfile::Debug), WasmProfile::Debug);
    assert!(matches!(
        wasm_artifact_profile(&BuildProfileKind::Release, false, WasmProfile::Debug),
        Ok(WasmProfile::Release)
    ));
    assert!(matches!(
        wasm_artifact_profile(&BuildProfileKind::Named("bench".to_string()), true, WasmProfile::Debug),
        Ok(WasmProfile::Debug)
    ));
    assert!(matches!(
        wasm_artifact_profile(&BuildProfileKind::Named("bench".to_string()), false, WasmProfile::Debug),
        Err(CliError::CommandFailed { command, .. })
            if command == "custom cargo profile 'bench' for wasm pack requires targets.wasm.artifact_path"
    ));
}

#[test]
fn wasm_opt_invocation() {
    assert_eq!(optimized_wasm_path("target/demo.wasm"), "target/demo.optimized.wasm");
    assert_eq!(optimized_wasm_path("a.b/demo"), "a.b/demo.optimized.wasm");
    assert_eq!(optimized_wasm_path(".hidden"), ".hidden.optimized.wasm");
    assert_eq!(
        wasm_opt_args(WasmOptimizeLevel::MinSize, "t/x.wasm", false),
        vec!["-Oz", "t/x.wasm", "-o", "t/x.optimized.wasm", "-g"]
    );
    assert_eq!(wasm_opt_args(WasmOptimizeLevel::O3, "x.wasm", true), vec!["-O3", "x.wasm", "-o", "x.optimized.wasm"]);
    assert!(matches!(
        missing_wasm_opt(WasmOptimizeOnMissing::Error),
        Err(CliError::CommandFailed { command, .. }) if command == "wasm-opt not found in PATH"
    ));
    assert!(matches!(missing_wasm_opt(WasmOptimizeOnMissing::Warn), Ok(MissingOptimizer::WarnAndSkip)));
    assert!(matches!(missing_wasm_opt(WasmOptimizeOnMissing::Skip), Ok(MissingOptimizer::Skip)));
}

#[test]
fn tsc_invocation_and_outcome() {
    let command = tsc_command("ts/demo.ts", "npm", true, false);
    assert_eq!(command[0], "tsc");
    assert_eq!(command[1], "ts/demo.ts");
    assert_eq!(command[12], "true");
    assert_eq!(command.last().map(|s| s.as_str()), Some("npm"));
    let windows = tsc_command("ts/demo.ts", "npm", false, true);
    assert_eq!(&windows[..4], &["cmd", "/C", "npx", "tsc"]);
    assert_eq!(windows[15], "false");
    assert!(tsc_outcome(false, true, Some(2), "a.ts", "out", "/w", "tsc a.ts", "", "").is_ok());
    let error = tsc_outcome(false, false, Some(2), "a.ts", "out", "/w", "tsc a.ts", "  \n", "bad type \n")
        .err()
        .expect("failed transpilation");
    assert!(matches!(
        error,
        CliError::CommandFailed { command, status: Some(2) }
            if command == "tsc failed while transpiling a.ts into out\nworking directory: /w\ncommand: tsc a.ts\nstderr:\nbad type"
    ));
    let quiet = tsc_outcome(false, false, None, "a.ts", "out", "/w", "tsc", "", "").err().expect("failed");
    assert!(matches!(quiet, CliError::CommandFailed { command, .. } if command.ends_with("no stdout/stderr captured")));
}

#[test]
fn typescript_bindings_point_at_the_configured_runtime() {
    let source = "import { a } from \"@boltffi/runtime\";\nimport { b } from \"@boltffi/runtime\";\n";
    assert_eq!(
        retarget_runtime_import(source, "@acme/rt"),
        "import { a } from \"@acme/rt\";\nimport { b } from \"@boltffi/runtime\";\n"
    );
    assert_eq!(retarget_runtime_import("no import", "@acme/rt"), "no import");
    assert!(emits_node_bundle(&vec![WasmNpmTarget::Web, WasmNpmTarget::Nodejs]));
    assert!(!emits_node_bundle(&vec![WasmNpmTarget::Bundler]));
    let paths = typescript_output_paths("dist/ts", "demo");
    assert_eq!(paths.browser, "dist/ts/demo.ts");
    assert_eq!(paths.node, "dist/ts/demo_node.ts");
}

#[test]
fn wasm_bindgen_marker_escapes_json_text() {
    assert_eq!(
        wasm_bindgen_marker("a\"b\\c\u{1}\n").ok().expect("marker"),
        "{\n  \"wasm_bindgen_glue\": \"a\\\"b\\\\c\\u0001\\n.js\"\n}\n"
    );
}

fn pack_flags() -> PackWasmFlags {
    PackWasmFlags {
        refusal: None,
        no_build: false,
        optimize: true,
        regenerate: false,
        node_target: true,
        package_json: true,
        readme: false,
    }
}

fn run_pack_wasm(flags: PackWasmFlags, placeholders: bool, node_source: bool) -> Vec<PackWasmAction> {
    let mut state = pack_wasm_start();
    let mut event = PackWasmEvent::Start;
    let mut actions = Vec::new();
    loop {
        let (next, action) = pack_wasm_step(flags, state, event);
        state = next;
        actions.push(action);
        event = match action {
            PackWasmAction::Finish | PackWasmAction::MissingFile(_) | PackWasmAction::Refuse(_) => return actions,
            PackWasmAction::CheckFile(PackWasmPath::NodeSource) => PackWasmEvent::Observed(node_source),
            PackWasmAction::CheckFile(_) => PackWasmEvent::Observed(true),
            PackWasmAction::InspectImports => PackWasmEvent::Observed(placeholders),
            _ => PackWasmEvent::Completed,
        };
    }
}

#[test]
fn pack_wasm_runs_wasm_bindgen_and_packs_its_output() {
    let actions = run_pack_wasm(pack_flags(), true, true);
    assert_eq!(
        actions,
        vec![
            PackWasmAction::BuildWasm,
            PackWasmAction::CheckFile(PackWasmPath::Artifact),
            PackWasmAction::Optimize,
            PackWasmAction::CreateDirectory(PackWasmPath::TypescriptOutput),
            PackWasmAction::InspectImports,
            PackWasmAction::RunWasmBindgen,
            PackWasmAction::GenerateBindings,
            PackWasmAction::CreateDirectory(PackWasmPath::NpmOutput),
            PackWasmAction::Copy(PackWasmPath::BindgenWasm, PackWasmPath::PackagedWasm),
            PackWasmAction::Copy(PackWasmPath::BindgenGlue, PackWasmPath::PackagedGlue),
            PackWasmAction::CheckFile(PackWasmPath::TypescriptSource),
            PackWasmAction::Transpile(PackWasmPath::TypescriptSource),
            PackWasmAction::CheckFile(PackWasmPath::NodeSource),
            PackWasmAction::Transpile(PackWasmPath::NodeSource),
            PackWasmAction::WriteLoaders,
            PackWasmAction::WritePackageJson,
            PackWasmAction::Finish,
        ]
    );
}

#[test]
fn pack_wasm_without_placeholders_packs_the_artifact() {
    let flags = PackWasmFlags { refusal: None, no_build: true, optimize: false, regenerate: false, node_target: true, package_json: false, readme: true };
    let actions = run_pack_wasm(flags, false, false);
    assert_eq!(
        actions,
        vec![
            PackWasmAction::CheckFile(PackWasmPath::Artifact),
            PackWasmAction::CreateDirectory(PackWasmPath::TypescriptOutput),
            PackWasmAction::InspectImports,
            PackWasmAction::ClearStaleOutput,
            PackWasmAction::CreateDirectory(PackWasmPath::NpmOutput),
            PackWasmAction::Copy(PackWasmPath::Artifact, PackWasmPath::PackagedWasm),
            PackWasmAction::CheckFile(PackWasmPath::TypescriptSource),
            PackWasmAction::Transpile(PackWasmPath::TypescriptSource),
            PackWasmAction::CheckFile(PackWasmPath::NodeSource),
            PackWasmAction::WriteLoaders,
            PackWasmAction::WriteReadme,
            PackWasmAction::Finish,
        ]
    );
}

#[test]
fn pack_wasm_stops_on_a_missing_artifact() {
    let flags = pack_flags();
    let (state, action) = pack_wasm_step(flags, pack_wasm_start(), PackWasmEvent::Start);
    assert_eq!(action, PackWasmAction::BuildWasm);
    let (state, action) = pack_wasm_step(flags, state, PackWasmEvent::Completed);
    assert_eq!(action, PackWasmAction::CheckFile(PackWasmPath::Artifact));
    let (_, action) = pack_wasm_step(flags, state, PackWasmEvent::Observed(false));
    assert_eq!(action, PackWasmAction::MissingFile(PackWasmPath::Artifact));
}

#[test]
fn pack_wasm_paths_sit_under_their_directories() {
    let path = |which| pack_wasm_path(which, "target/demo.wasm", "dist/ts", "dist/npm", "demo");
    assert_eq!(path(PackWasmPath::Artifact), "target/demo.wasm");
    assert_eq!(path(PackWasmPath::BindgenWasm), "dist/ts/demo_bg.wasm");
    assert_eq!(path(PackWasmPath::PackagedWasm), "dist/npm/demo_bg.wasm");
    assert_eq!(path(PackWasmPath::BindgenGlue), "dist/ts/demo_wbg.js");
    assert_eq!(path(PackWasmPath::PackagedGlue), "dist/npm/demo_wbg.js");
    assert_eq!(path(PackWasmPath::TypescriptSource), "dist/ts/demo.ts");
    assert_eq!(path(PackWasmPath::NodeSource), "dist/ts/demo_node.ts");
}

fn settings() -> PackWasmSettings {
    PackWasmSettings {
        wasm_enabled: true,
        generate_package_json: true,
        npm_package_name: Some("@demo/wasm".to_string()),
        release: false,
        configured_profile: WasmProfile::Debug,
        build_profile: BuildProfileKind::Release,
        has_artifact_path_override: false,
        optimize_debug: false,
        optimize_release: true,
        no_build: false,
        regenerate: false,
        node_target: false,
        readme: false,
    }
}

fn refusal_command(settings: &PackWasmSettings) -> String {
    match pack_wasm_checks(settings) {
        Err(CliError::CommandFailed { command, status: None }) => command,
        _ => panic!("expecting a refusal"),
    }
}

#[test]
fn pack_wasm_checks_pass_and_pick_the_packed_profile() {
    let base = settings();
    assert!(matches!(pack_wasm_checks(&base), Ok(WasmProfile::Release)));
    let flags = pack_wasm_flags(&base);
    assert_eq!(flags.refusal, None);
    assert!(flags.optimize);
    assert!(flags.package_json);
    let (_, action) = pack_wasm_step(flags, pack_wasm_start(), PackWasmEvent::Start);
    assert_eq!(action, PackWasmAction::BuildWasm);

    let mut custom = settings();
    custom.build_profile = BuildProfileKind::Named("bench".to_string());
    custom.has_artifact_path_override = true;
    assert!(matches!(pack_wasm_checks(&custom), Ok(WasmProfile::Debug)));
    assert!(!pack_wasm_flags(&custom).optimize);
}

#[test]
fn pack_wasm_refuses_before_any_work() {
    let mut disabled = settings();
    disabled.wasm_enabled = false;
    assert_eq!(refusal_command(&disabled), "targets.wasm.enabled = false");
    let flags = pack_wasm_flags(&disabled);
    assert_eq!(flags.refusal, Some(PackWasmRefusal::WasmDisabled));
    assert_eq!(run_pack_wasm(flags, true, true), vec![PackWasmAction::Refuse(PackWasmRefusal::WasmDisabled)]);

    let mut unnamed = settings();
    unnamed.npm_package_name = None;
    assert_eq!(refusal_command(&unnamed), "targets.wasm.npm.package_name is required for pack wasm");
    assert_eq!(pack_wasm_flags(&unnamed).refusal, Some(PackWasmRefusal::MissingNpmPackageName));

    let mut custom = settings();
    custom.build_profile = BuildProfileKind::Named("bench".to_string());
    assert_eq!(refusal_command(&custom), "custom cargo profile 'bench' for wasm pack requires targets.wasm.artifact_path");
    let flags = pack_wasm_flags(&custom);
    assert_eq!(flags.refusal, Some(PackWasmRefusal::NamedProfileWithoutArtifactPath));
    assert_eq!(
        run_pack_wasm(flags, true, true),
        vec![PackWasmAction::Refuse(PackWasmRefusal::NamedProfileWithoutArtifactPath)]
    );
}
