use boltffi_bindgen::boxed_future::{
    boxed_future_inner_output_ty, future_method_inner_output, is_unit_future_output, parse_boxed_future_output,
    trait_method_returns_boxed_future, ObjectBound, SignatureKind, SignatureType,
};
use boltffi_bindgen::cfg_context::{CfgContext, CfgExpr, CfgPredicate, CfgTargetPredicate};
use boltffi_bindgen::codec::{CodecNode, CodecPlan, ReadPlan, WritePlan};
use boltffi_bindgen::exported_classes::{
    build_exported_class_registry, collect_item, ExportedClassRegistry, SourceItem, SourceType,
};
use boltffi_bindgen::id_sets::NameSet;
use boltffi_bindgen::ids::FieldName;
use boltffi_bindgen::kmp_names::{join_kotlin_sections, kdoc_block};
use boltffi_bindgen::lower_error::LowerError;
use boltffi_bindgen::names::{CanonicalName, NamePart};
use boltffi_bindgen::text::{lines, trim};
use boltffi_bindgen::ts_doc::ts_doc_block;
use boltffi_bindgen::wire::ValueExpr;

fn path(parts: &[&str]) -> Vec<String> {
    parts.iter().map(|p| p.to_string()).collect()
}

fn registry() -> ExportedClassRegistry {
    let mut registry = ExportedClassRegistry::new();
    registry.register(path(&["demo", "audio", "Engine"]));
    registry.register(path(&["demo", "video", "Engine"]));
    registry.register(path(&["demo", "Counter"]));
    registry.register(path(&["demo", "Counter"]));
    registry.finalize_unique_names();
    registry
}

#[test]
fn unique_class_names_resolve_and_shared_names_do_not() {
    let registry = registry();
    assert!(registry.lookup_qualified(&path(&["Counter"])));
    assert!(!registry.lookup_qualified(&path(&["Engine"])));
    assert!(!registry.lookup_qualified(&path(&["Missing"])));
}

#[test]
fn qualified_class_paths_resolve_by_suffix() {
    let registry = registry();
    assert!(registry.lookup_qualified(&path(&["demo", "audio", "Engine"])));
    assert!(registry.lookup_qualified(&path(&["crate", "demo", "video", "Engine"])));
    assert!(!registry.lookup_qualified(&path(&["audio", "Engine"])));
    assert!(!registry.lookup_qualified(&path(&["demo", "Engine"])));
}

#[test]
fn names_are_not_unique_before_finalizing() {
    let mut registry = ExportedClassRegistry::new();
    registry.register(path(&["demo", "Counter"]));
    assert!(!registry.lookup_qualified(&path(&["Counter"])));
    registry.finalize_unique_names();
    assert!(registry.lookup_qualified(&path(&["Counter"])));
}

fn context() -> CfgContext {
    let mut features = NameSet::new();
    features.insert("serde".to_string());
    CfgContext { features, target_arch: Some("wasm32".to_string()), scan_all: false }
}

fn feature(name: &str) -> CfgExpr {
    CfgExpr::Predicate(CfgPredicate::Feature(name.to_string()))
}

#[test]
fn cfg_predicates_follow_features_and_architecture() {
    let ctx = context();
    assert!(ctx.eval_predicate(&CfgPredicate::Feature("serde".to_string())));
    assert!(!ctx.eval_predicate(&CfgPredicate::Feature("tokio".to_string())));
    assert!(ctx.eval_predicate(&CfgPredicate::Target(CfgTargetPredicate::Arch("wasm32".to_string()))));
    assert!(!ctx.eval_predicate(&CfgPredicate::Target(CfgTargetPredicate::Arch("x86_64".to_string()))));
    assert!(ctx.eval_predicate(&CfgPredicate::Target(CfgTargetPredicate::Other)));
    assert!(!ctx.eval_predicate(&CfgPredicate::Test));
    assert!(!ctx.eval_predicate(&CfgPredicate::TargetFeature("simd128".to_string())));
    assert!(ctx.eval_predicate(&CfgPredicate::Flag("docsrs".to_string())));
    assert!(ctx.eval_predicate(&CfgPredicate::KeyValue { key: "feature".to_string(), val: "serde".to_string() }));
    assert!(!ctx.eval_predicate(&CfgPredicate::KeyValue {
        key: "target_arch".to_string(),
        val: "aarch64".to_string()
    }));
    assert!(ctx.eval_predicate(&CfgPredicate::KeyValue { key: "other".to_string(), val: "x".to_string() }));
}

#[test]
fn cfg_expressions_combine_and_gate_items() {
    let ctx = context();
    let both = CfgExpr::All(vec![feature("serde"), CfgExpr::Not(Box::new(feature("tokio")))]);
    let either = CfgExpr::Any(vec![feature("tokio"), CfgExpr::Predicate(CfgPredicate::Test)]);
    assert!(ctx.eval_expr(&both));
    assert!(!ctx.eval_expr(&either));
    assert!(ctx.eval_expr(&CfgExpr::All(vec![])));
    assert!(!ctx.eval_expr(&CfgExpr::Any(vec![])));
    assert!(ctx.is_active(&vec![Some(both), None]));
    assert!(!ctx.is_active(&vec![None, Some(either)]));
    assert!(ctx.is_active(&vec![]));
    let everything = CfgContext::scan_everything();
    assert!(everything.is_active(&vec![Some(CfgExpr::Predicate(CfgPredicate::Test))]));
}

#[test]
fn ts_doc_blocks_mark_blank_lines() {
    assert_eq!(ts_doc_block(&None, "  "), "");
    assert_eq!(
        ts_doc_block(&Some("First\n\nThird".to_string()), "  "),
        "  /**\n   * First\n   *\n   * Third\n   */\n"
    );
}

#[test]
fn kdoc_blocks_wrap_each_line() {
    assert_eq!(kdoc_block(&None), "");
    assert_eq!(kdoc_block(&Some("One\nTwo\n".to_string())), "/**\n * One\n * Two\n */\n");
}

#[test]
fn kotlin_sections_drop_blank_ones() {
    let joined = join_kotlin_sections(vec!["  a  ".to_string(), "   ".to_string(), "b\n".to_string()]);
    assert_eq!(joined, "a\n\nb\n");
}

#[test]
fn lines_and_trim_follow_std() {
    assert_eq!(lines("a\r\nb\n\nc"), vec!["a", "b", "", "c"]);
    assert_eq!(lines("x\n"), vec!["x"]);
    assert_eq!(lines(""), Vec::<String>::new());
    assert_eq!(trim("\t hi \n"), "hi");
}

#[test]
fn lower_errors_describe_themselves() {
    assert_eq!(LowerError::Invalid("missing op".to_string()).message(), "invalid: missing op");
    assert_eq!(LowerError::Unsupported("maps".to_string()).message(), "unsupported: maps");
}

#[test]
fn codec_plans_give_back_their_parts() {
    let read = ReadPlan::new(CodecNode::Optional(Box::new(CodecNode::String)));
    assert!(matches!(read.root(), CodecNode::Optional(inner) if matches!(**inner, CodecNode::String)));
    let write = WritePlan::new(
        ValueExpr::Field(Box::new(ValueExpr::Var("self".to_string())), FieldName::new("name")),
        CodecNode::Bytes,
    );
    assert!(matches!(write.root(), CodecNode::Bytes));
    assert!(matches!(write.value(), ValueExpr::Field(_, name) if name.as_str() == "name"));
    let plan = CodecPlan::new(read, write);
    assert!(matches!(plan.read().root(), CodecNode::Optional(_)));
    assert!(matches!(plan.write().root(), CodecNode::Bytes));
}

#[test]
fn canonical_names_join_with_path_separators() {
    let name = CanonicalName::new(vec![NamePart::new("demo".to_string()), NamePart::new("Engine".to_string())]);
    assert_eq!(name.as_path_string(), "demo::Engine");
    assert_eq!(name.parts().len(), 2);
    assert_eq!(CanonicalName::single(NamePart::new("Solo".to_string())).as_path_string(), "Solo");
}

#[test]
fn name_parts_keep_their_text() {
    let owned = "UserProfile".to_string();
    assert_eq!(NamePart::new(owned.clone()).as_str(), "UserProfile");
    assert_eq!(NamePart::from("UserProfile").as_str(), "UserProfile");
    assert_eq!(NamePart::from(owned.clone()).as_str(), "UserProfile");
    assert_eq!(NamePart::new(owned).to_string(), "UserProfile");
}

#[test]
fn exported_impls_register_under_their_module_paths() {
    let items = vec![
        SourceItem::Impl { exported: true, self_type: Some("Counter".to_string()) },
        SourceItem::Impl { exported: false, self_type: Some("Hidden".to_string()) },
        SourceItem::Impl { exported: true, self_type: None },
        SourceItem::Module {
            name: "audio".to_string(),
            items: Some(vec![SourceItem::Impl { exported: true, self_type: Some("Engine".to_string()) }]),
        },
        SourceItem::Module { name: "video".to_string(), items: None },
        SourceItem::Other,
    ];
    let registry = build_exported_class_registry(&vec![(path(&["demo"]), items)]);
    assert!(registry.lookup_qualified(&path(&["Counter"])));
    assert!(registry.lookup_qualified(&path(&["Engine"])));
    assert!(registry.lookup_qualified(&path(&["demo", "audio", "Engine"])));
    assert!(!registry.lookup_qualified(&path(&["audio", "Engine"])));
    assert!(!registry.lookup_qualified(&path(&["Hidden"])));

    let mut registry = ExportedClassRegistry::new();
    let mut scope = path(&["demo"]);
    collect_item(
        &mut registry,
        &mut scope,
        &SourceItem::Module {
            name: "video".to_string(),
            items: Some(vec![SourceItem::Impl { exported: true, self_type: Some("Engine".to_string()) }]),
        },
    );
    assert_eq!(scope, path(&["demo"]));
    registry.finalize_unique_names();
    assert!(registry.lookup_qualified(&path(&["demo", "video", "Engine"])));
}

#[test]
fn exported_class_types_resolve_behind_references_and_groups() {
    let registry = registry();
    let counter = SourceType::Path { qualified_self: false, segments: path(&["Counter"]) };
    assert!(registry.is_exported_class_type(&counter));
    let by_reference = SourceType::Reference(Box::new(SourceType::Reference(Box::new(SourceType::Paren(Box::new(
        SourceType::Path { qualified_self: false, segments: path(&["demo", "audio", "Engine"]) },
    ))))));
    assert!(registry.is_exported_class_type(&by_reference));
    let qualified = SourceType::Path { qualified_self: true, segments: path(&["Counter"]) };
    assert!(!registry.is_exported_class_type(&qualified));
    let grouped_reference =
        SourceType::Group(Box::new(SourceType::Reference(Box::new(SourceType::Path { qualified_self: false, segments: path(&["Counter"]) }))));
    assert!(!registry.is_exported_class_type(&grouped_reference));
    assert!(!registry.is_exported_class_type(&SourceType::Other));
    assert!(!registry.is_exported_class_type(&SourceType::Path { qualified_self: false, segments: path(&["Engine"]) }));
}

fn sig_path(last: &str, arg: Option<SignatureType>) -> SignatureType {
    SignatureType { source: 0, kind: SignatureKind::Path { last: last.to_string(), first_type_arg: arg.map(Box::new) } }
}

fn future_object(output: Option<SignatureType>, source: usize) -> SignatureType {
    let mut bindings = Vec::new();
    if let Some(t) = output {
        bindings.push(("Output".to_string(), t));
    }
    SignatureType {
        source,
        kind: SignatureKind::TraitObject {
            bounds: vec![
                ObjectBound { is_trait: false, last: String::new(), bindings: Vec::new() },
                ObjectBound { is_trait: true, last: "Future".to_string(), bindings },
                ObjectBound { is_trait: true, last: "Send".to_string(), bindings: Vec::new() },
            ],
        },
    }
}

#[test]
fn boxed_futures_are_recognised_through_pin_and_box() {
    let output = SignatureType { source: 7, kind: SignatureKind::Other };
    let ret = Some(sig_path("Pin", Some(sig_path("Box", Some(future_object(Some(output), 3))))));
    assert_eq!(boxed_future_inner_output_ty(&ret).map(|t| t.source), Some(7));
    assert!(trait_method_returns_boxed_future(false, &ret));
    assert!(!trait_method_returns_boxed_future(true, &ret));

    let boxed_only = Some(sig_path("Box", Some(future_object(Some(SignatureType { source: 9, kind: SignatureKind::Other }), 2))));
    assert_eq!(boxed_future_inner_output_ty(&boxed_only).map(|t| t.source), Some(9));

    let no_output = Some(sig_path("Box", Some(future_object(None, 2))));
    assert!(boxed_future_inner_output_ty(&no_output).is_none());
    let not_boxed = Some(future_object(Some(SignatureType { source: 1, kind: SignatureKind::Other }), 0));
    assert!(boxed_future_inner_output_ty(&not_boxed).is_none());
    let arc = Some(sig_path("Arc", Some(future_object(Some(SignatureType { source: 1, kind: SignatureKind::Other }), 0))));
    assert!(!trait_method_returns_boxed_future(false, &arc));
    assert!(!trait_method_returns_boxed_future(false, &None));
}

fn pin_box_dyn_future_u64() -> Option<SignatureType> {
    let output = sig_path("u64", None);
    let object = SignatureType {
        source: 2,
        kind: SignatureKind::TraitObject {
            bounds: vec![
                ObjectBound { is_trait: true, last: "Future".to_string(), bindings: vec![("Output".to_string(), output)] },
                ObjectBound { is_trait: true, last: "Send".to_string(), bindings: Vec::new() },
                ObjectBound { is_trait: false, last: String::new(), bindings: Vec::new() },
            ],
        },
    };
    Some(sig_path("Pin", Some(sig_path("Box", Some(object)))))
}

#[test]
fn detects_pin_box_dyn_future_return() {
    let ret = pin_box_dyn_future_u64();
    assert!(trait_method_returns_boxed_future(false, &ret));
    assert!(future_method_inner_output(&ret).is_some());
    assert!(parse_boxed_future_output(ret.as_ref().unwrap()).is_some());
}

#[test]
fn async_fn_is_not_classified_as_boxed_future() {
    let ret = Some(sig_path("u64", None));
    assert!(!trait_method_returns_boxed_future(true, &ret));
}

#[test]
fn unit_future_outputs_are_empty_tuples() {
    assert!(is_unit_future_output(&SignatureType { source: 0, kind: SignatureKind::Tuple { elements: 0 } }));
    assert!(!is_unit_future_output(&SignatureType { source: 0, kind: SignatureKind::Tuple { elements: 2 } }));
    assert!(!is_unit_future_output(&sig_path("u64", None)));
}
