use boltffi_bindgen::defs::{
    CStyleVariant, CustomTypeDef, EnumDef, EnumRepr, ExecutionKind, FfiContract, FieldDef, FunctionDef, PackageInfo,
    ParamDef, ParamPassing, RecordDef, ReturnDef, TypeCatalog,
};
use boltffi_bindgen::ids::{CustomTypeId, EnumId, FieldName, FunctionId, ParamName, RecordId};
use boltffi_bindgen::kmp_emit::{catalog_ids_are_distinct, KMPEmitter, KMPOptions, KmpActualBackend, KmpPlatformAdapter};
use boltffi_bindgen::kmp_names::{enum_literal, kotlin_integer_literal};
use boltffi_bindgen::kmp_support::KmpSurfaceSupport;
use boltffi_bindgen::types::{PrimitiveType, TypeExpr};

fn empty_record() -> RecordDef {
    RecordDef { id: RecordId::new("Empty"), is_repr_c: false, is_error: false, fields: Vec::new(), doc: None }
}

fn empty_contract() -> FfiContract {
    FfiContract {
        package: PackageInfo { name: "demo".to_string(), version: None },
        catalog: TypeCatalog::new(),
        functions: Vec::new(),
    }
}

fn field(name: &str, type_expr: TypeExpr) -> FieldDef {
    FieldDef { name: FieldName::new(name), type_expr, doc: None }
}

fn demo_contract() -> FfiContract {
    let mut contract = empty_contract();
    contract.catalog.insert_custom(CustomTypeDef {
        id: CustomTypeId::new("email"),
        rust_type: "demo::Email".to_string(),
        repr: TypeExpr::String,
        doc: None,
    });
    contract.catalog.insert_record(RecordDef {
        id: RecordId::new("point"),
        is_repr_c: true,
        is_error: false,
        fields: vec![
            field("x_coord", TypeExpr::Primitive(PrimitiveType::F64)),
            field("tags", TypeExpr::Vec(Box::new(TypeExpr::String))),
        ],
        doc: Some("A point.".to_string()),
    });
    contract.catalog.insert_enum(EnumDef {
        id: EnumId::new("log_level"),
        repr: EnumRepr::CStyle {
            tag_type: PrimitiveType::U8,
            variants: vec![
                CStyleVariant { name: "debug".to_string(), discriminant: 0, doc: None },
                CStyleVariant { name: "warn".to_string(), discriminant: 2, doc: None },
            ],
        },
        is_error: false,
        doc: None,
    });
    contract.functions.push(FunctionDef {
        id: FunctionId::new("move_point"),
        params: vec![
            ParamDef {
                name: ParamName::new("point"),
                type_expr: TypeExpr::Record(RecordId::new("point")),
                passing: ParamPassing::Value,
                doc: None,
            },
            ParamDef {
                name: ParamName::new("level"),
                type_expr: TypeExpr::Enum(EnumId::new("log_level")),
                passing: ParamPassing::Value,
                doc: None,
            },
        ],
        returns: ReturnDef::Value(TypeExpr::Option(Box::new(TypeExpr::Record(RecordId::new("point"))))),
        execution_kind: ExecutionKind::Async,
        doc: None,
    });
    contract.functions.push(FunctionDef {
        id: FunctionId::new("echo_bytes"),
        params: vec![],
        returns: ReturnDef::Result {
            ok: TypeExpr::Bytes,
            err: TypeExpr::String,
        },
        execution_kind: ExecutionKind::Sync,
        doc: None,
    });
    contract
}

#[test]
fn empty_records_render_as_objects() {
    let record = empty_record();

    let common = KMPEmitter::render_common_record(&record);
    let actual = KMPEmitter::render_record_actual_conversions(&record, "com.example.demo.jvm", &empty_contract());

    assert_eq!(common, "object Empty");
    assert!(actual.contains("= com.example.demo.jvm.Empty"));
    assert!(actual.contains("= Empty"));
    assert!(!common.contains("data class Empty()"));
    assert!(!actual.contains("Empty()"));
}

#[test]
fn default_platform_adapters_are_jvm_family_actuals() {
    let adapters = KMPEmitter::default_platform_adapters();

    assert_eq!(adapters, vec![KmpPlatformAdapter::jvm(), KmpPlatformAdapter::android()]);
    assert!(adapters.iter().all(|adapter| matches!(adapter.backend, KmpActualBackend::KotlinJvm)));
}

#[test]
fn surfaces_render_common_once_and_platform_actuals_separately() {
    let adapters = KMPEmitter::default_platform_adapters();
    let rendered =
        KMPEmitter::render_surfaces(&empty_contract(), "com.example.demo", "com.example.demo.jvm", &adapters);

    assert!(rendered.common.contains("package com.example.demo"));
    assert_eq!(rendered.platform_actuals.len(), 2);
    assert_eq!(rendered.platform_actuals[0].adapter.source_set, "jvmMain");
    assert_eq!(rendered.platform_actuals[1].adapter.source_set, "androidMain");
    assert!(rendered.platform_actuals.iter().all(|actual| actual.contents.contains("package com.example.demo")));
}

#[test]
fn unsigned_enum_discriminants_render_as_valid_signed_kotlin_literals() {
    assert_eq!(enum_literal(u32::MAX as i128, PrimitiveType::U32), "(4294967295L).toInt()");
    assert_eq!(enum_literal(u64::MAX as i128, PrimitiveType::U64), "(18446744073709551615uL).toLong()");
}

#[test]
fn integer_literals_in_range_stay_plain() {
    assert_eq!(kotlin_integer_literal(-5, "Int"), "-5");
    assert_eq!(kotlin_integer_literal(7, "Long"), "7L");
    assert_eq!(kotlin_integer_literal(200, "Byte"), "(200L).toByte()");
    assert_eq!(enum_literal(255, PrimitiveType::U8), "(255L).toByte()");
}

#[test]
fn common_surface_renders_supported_declarations_and_notes_the_rest() {
    let contract = demo_contract();
    let support = KmpSurfaceSupport::for_contract(&contract);
    let common = KMPEmitter::render_common_surface(&contract, "com.boltffi.demo", &support);

    let expected = [
        "// Auto-generated by BoltFFI. Do not edit.\n\n",
        "package com.boltffi.demo\n\n",
        "typealias Email = String\n\n",
        "/**\n * A point.\n */\ndata class Point(val xCoord: Double, val tags: List<String>)\n\n",
        "enum class LogLevel(val value: Byte) {\n    DEBUG((0L).toByte()),\n    WARN((2L).toByte());\n\n",
        "    companion object {\n        fun fromValue(value: Byte): LogLevel = entries.firstOrNull { it.value == value } ?: throw IllegalArgumentException(\"Unknown LogLevel value: $value\")\n    }\n}\n\n",
        "expect suspend fun movePoint(point: Point, level: LogLevel): Point?\n\n",
        "// Unsupported in the initial KMP generator slice: echo_bytes\n",
    ]
    .concat();
    assert_eq!(common, expected);
}

#[test]
fn jvm_actual_converts_arguments_and_result() {
    let contract = demo_contract();
    let support = KmpSurfaceSupport::for_contract(&contract);
    let actual =
        KMPEmitter::render_kotlin_jvm_actual(&contract, "com.boltffi.demo", "com.boltffi.demo.jvm", &support);

    assert!(actual.contains(
        "private fun Point.toBoltFfiJvm(): com.boltffi.demo.jvm.Point = com.boltffi.demo.jvm.Point(xCoord = xCoord, tags = tags.map { it })"
    ));
    assert!(actual.contains(
        "actual suspend fun movePoint(point: Point, level: LogLevel): Point? = com.boltffi.demo.jvm.movePoint(point.toBoltFfiJvm(), com.boltffi.demo.jvm.LogLevel.fromValue(level.value))?.let { it.toBoltFfiCommon() }"
    ));
    assert!(!actual.contains("echoBytes"));
}

#[test]
fn gradle_files_name_the_package_and_project() {
    let build = KMPEmitter::render_build_gradle("com.boltffi.demo", 24);
    assert!(build.contains("namespace = \"com.boltffi.demo\""));
    assert!(build.contains("minSdk = 24\n"));
    assert!(build.contains("kotlin(\"multiplatform\") version \"2.3.21\""));
    let settings = KMPEmitter::render_settings_gradle("DemoLib");
    assert!(settings.contains("rootProject.name = \"demolib-kmp\""));
    assert!(settings.starts_with("pluginManagement {"));
}

#[test]
fn package_paths_nest_by_dot() {
    assert_eq!(KMPEmitter::package_path("com.boltffi.demo"), "com/boltffi/demo");
    assert_eq!(KMPEmitter::package_path("a..b."), "a/b/");
    assert_eq!(KMPEmitter::package_path(""), "");
}

#[test]
fn emit_lays_out_the_project_files() {
    let contract = demo_contract();
    let options =
        KMPOptions { package_name: "com.boltffi.demo".to_string(), module_name: "Demo".to_string(), min_sdk: 21 };
    let output = KMPEmitter::emit(&contract, options, "jvm source".to_string(), "jni source".to_string());
    let paths: Vec<&str> = output.files.iter().map(|f| f.relative_path.as_str()).collect();
    assert_eq!(
        paths,
        vec![
            "settings.gradle.kts",
            "build.gradle.kts",
            "src/commonMain/kotlin/com/boltffi/demo/Demo.kt",
            "src/jvmMain/kotlin/com/boltffi/demo/DemoJvmActual.kt",
            "src/androidMain/kotlin/com/boltffi/demo/DemoAndroidActual.kt",
            "src/jvmMain/kotlin/com/boltffi/demo/jvm/Demo.kt",
            "src/androidMain/kotlin/com/boltffi/demo/jvm/Demo.kt",
            "src/jvmMain/c/jni_glue.c",
            "src/androidMain/c/jni_glue.c",
        ]
    );
    assert_eq!(output.files[5].contents, "jvm source");
    assert_eq!(output.files[8].contents, "jni source");
    assert!(output.files[3].contents.contains("actual suspend fun movePoint"));
    assert_eq!(output.files[3].contents, output.files[4].contents);
}

#[test]
fn package_paths_follow_path_joining() {
    assert_eq!(KMPEmitter::package_path("com./abs"), "/abs");
    assert_eq!(KMPEmitter::source_set_kotlin_dir("jvmMain", "com/demo"), "src/jvmMain/kotlin/com/demo");
    assert_eq!(KMPEmitter::source_set_kotlin_dir("jvmMain", ""), "src/jvmMain/kotlin/");
    assert_eq!(KMPEmitter::source_set_kotlin_dir("jvmMain", "/abs"), "/abs");
}

#[test]
fn emit_checked_refuses_a_catalog_with_a_repeated_id() {
    let mut contract = demo_contract();
    assert!(catalog_ids_are_distinct(&contract.catalog));
    contract.catalog.records.push(empty_record());
    contract.catalog.records.push(empty_record());
    assert!(!catalog_ids_are_distinct(&contract.catalog));
    let options =
        KMPOptions { package_name: "com.boltffi.demo".to_string(), module_name: "Demo".to_string(), min_sdk: 21 };
    assert!(KMPEmitter::emit_checked(&contract, options, String::new(), String::new()).is_none());
}

#[test]
fn emit_checked_lays_out_a_distinct_catalog() {
    let contract = demo_contract();
    let options =
        KMPOptions { package_name: "com.boltffi.demo".to_string(), module_name: "Demo".to_string(), min_sdk: 21 };
    let output = KMPEmitter::emit_checked(&contract, options, "jvm".to_string(), "jni".to_string()).expect("distinct ids");
    assert_eq!(output.files.len(), 9);
    assert_eq!(output.files[2].relative_path, "src/commonMain/kotlin/com/boltffi/demo/Demo.kt");
}
