use boltffi_bindgen::abi::{AbiContract, ReturnShape, ScalarOrigin, Transport};
use boltffi_bindgen::csharp_ast::{CSharpExpression, CSharpLiteral, CSharpType};
use boltffi_bindgen::csharp_callbacks::{CallbackNativeValuePlan, CallbackPublicValuePlan, CallbackReturn, CallbackReturnMode};
use boltffi_bindgen::csharp_lowerer::{CSharpLowerer, CSharpOptions};
use boltffi_bindgen::defs::{
    CStyleVariant, CustomTypeDef, DataVariant, EnumDef, EnumRepr, ExecutionKind, FfiContract, FieldDef,
    FunctionDef, PackageInfo, ParamDef, ParamPassing, RecordDef, ReturnDef, TypeCatalog, VariantPayload,
};
use boltffi_bindgen::ids::{CustomTypeId, EnumId, FieldName, FunctionId, ParamName, RecordId};
use boltffi_bindgen::types::{PrimitiveType, TypeExpr};

fn contract(name: &str) -> FfiContract {
    FfiContract {
        package: PackageInfo { name: name.to_string(), version: None },
        functions: vec![],
        catalog: TypeCatalog::new(),
    }
}

fn record_with_one_field(id: &str, field: &str, type_expr: TypeExpr) -> RecordDef {
    RecordDef {
        id: RecordId::new(id),
        is_repr_c: false,
        is_error: false,
        fields: vec![FieldDef { name: FieldName::new(field), type_expr, doc: None }],
        doc: None,
    }
}

fn struct_variant(name: &str, discriminant: i128, fields: Vec<(&str, TypeExpr)>) -> DataVariant {
    DataVariant {
        name: name.to_string(),
        discriminant,
        payload: VariantPayload::Struct(
            fields
                .into_iter()
                .map(|(n, t)| FieldDef { name: FieldName::new(n), type_expr: t, doc: None })
                .collect(),
        ),
        doc: None,
    }
}

fn data_enum(id: &str, variants: Vec<DataVariant>) -> EnumDef {
    EnumDef {
        id: EnumId::new(id),
        repr: EnumRepr::Data { tag_type: PrimitiveType::I32, variants },
        is_error: false,
        doc: None,
    }
}

fn datetime_custom_type() -> CustomTypeDef {
    CustomTypeDef {
        id: CustomTypeId::new("UtcDateTime"),
        rust_type: "chrono::DateTime<Utc>".to_string(),
        repr: TypeExpr::Primitive(PrimitiveType::I64),
        doc: None,
    }
}

fn email_custom() -> CustomTypeDef {
    CustomTypeDef {
        id: CustomTypeId::new("Email"),
        rust_type: "demo::Email".to_string(),
        repr: TypeExpr::String,
        doc: None,
    }
}

fn empty_contract_with(customs: Vec<CustomTypeDef>) -> FfiContract {
    let mut c = contract("demo");
    for custom in customs {
        c.catalog.insert_custom(custom);
    }
    c
}

#[test]
fn record_referencing_data_enum_is_admitted_jointly() {
    let mut contract = contract("demo_lib");
    contract.catalog.insert_enum(data_enum(
        "shape",
        vec![struct_variant("Circle", 0, vec![("radius", TypeExpr::Primitive(PrimitiveType::F64))])],
    ));
    contract
        .catalog
        .insert_record(record_with_one_field("holder", "shape", TypeExpr::Enum(EnumId::new("shape"))));

    let (records, enums) = CSharpLowerer::compute_supported_sets(&contract);

    assert!(
        enums.contains(&EnumId::new("shape")),
        "expecting the data enum to be admitted first so the record can reference it",
    );
    assert!(
        records.contains(&RecordId::new("holder")),
        "expecting the record with a data-enum field to be admitted once the enum joins the set",
    );
}

#[test]
fn data_enum_referencing_another_data_enum_is_admitted() {
    let mut contract = contract("demo_lib");
    contract.catalog.insert_enum(data_enum(
        "inner",
        vec![struct_variant("Value", 0, vec![("n", TypeExpr::Primitive(PrimitiveType::I32))])],
    ));
    contract.catalog.insert_enum(data_enum(
        "outer",
        vec![struct_variant("Wrap", 0, vec![("inner", TypeExpr::Enum(EnumId::new("inner")))])],
    ));

    let (_records, enums) = CSharpLowerer::compute_supported_sets(&contract);

    assert!(enums.contains(&EnumId::new("inner")), "expecting the leaf data enum to be admitted");
    assert!(
        enums.contains(&EnumId::new("outer")),
        "expecting the data enum referencing another data enum to join on a later fixed-point iteration",
    );
}

#[test]
fn c_style_enum_with_usize_repr_is_not_admitted() {
    let mut contract = contract("demo_lib");
    contract.catalog.insert_enum(EnumDef {
        id: EnumId::new("platform_status"),
        repr: EnumRepr::CStyle {
            tag_type: PrimitiveType::USize,
            variants: vec![CStyleVariant { name: "Ready".into(), discriminant: 0, doc: None }],
        },
        is_error: false,
        doc: None,
    });

    let (_records, enums) = CSharpLowerer::compute_supported_sets(&contract);

    assert!(
        !enums.contains(&EnumId::new("platform_status")),
        "expecting repr(usize) C-style enums to stay unsupported until the backend has a legal C# projection",
    );
}

#[test]
fn nested_option_shapes_are_rejected() {
    let mut contract = contract("demo_lib");
    let nested_option = || {
        TypeExpr::Option(Box::new(TypeExpr::Option(Box::new(TypeExpr::Primitive(PrimitiveType::I32)))))
    };
    contract.catalog.insert_record(record_with_one_field("holder", "value", nested_option()));
    contract.functions.push(FunctionDef {
        id: FunctionId::new("echo_nested_option"),
        params: vec![ParamDef {
            name: ParamName::new("value"),
            type_expr: nested_option(),
            passing: ParamPassing::Value,
            doc: None,
        }],
        returns: ReturnDef::Value(nested_option()),
        execution_kind: ExecutionKind::Sync,
        doc: None,
    });

    let abi = AbiContract::new();
    let options = CSharpOptions::default();
    let lowerer = CSharpLowerer::new(&contract, &abi, &options);
    let (records, _enums) = CSharpLowerer::compute_supported_sets(&contract);

    assert!(
        !records.contains(&RecordId::new("holder")),
        "expecting a record with Option<Option<i32>> field to stay unsupported because it would render as int??",
    );
    assert!(
        !lowerer.is_supported_type(&nested_option()),
        "expecting Option<Option<i32>> to fail the C# support gate before lowering",
    );
    assert!(
        lowerer.lower_function(&contract.functions[0]).is_none(),
        "expecting a function with nested Option param/return to be dropped rather than emitting int??",
    );
}

#[test]
fn record_with_custom_field_is_admitted() {
    let mut contract = contract("demo_lib");
    contract.catalog.insert_custom(datetime_custom_type());
    contract.catalog.insert_record(record_with_one_field(
        "event",
        "timestamp",
        TypeExpr::Custom(CustomTypeId::new("UtcDateTime")),
    ));

    let (records, _enums) = CSharpLowerer::compute_supported_sets(&contract);

    assert!(
        records.contains(&RecordId::new("event")),
        "expecting a record with a Custom<i64> field to be admitted",
    );
}

#[test]
fn blittable_vec_element_resolves_through_custom() {
    let mut contract = contract("demo_lib");
    contract.catalog.insert_custom(datetime_custom_type());

    let abi = AbiContract::new();
    let options = CSharpOptions::default();
    let lowerer = CSharpLowerer::new(&contract, &abi, &options);

    let custom = TypeExpr::Custom(CustomTypeId::new("UtcDateTime"));
    assert!(
        lowerer.is_blittable_vec_element(&custom),
        "expecting Vec<Custom<i64>> to qualify for the pinned-array fast path",
    );
    assert!(lowerer.is_supported_type(&custom), "expecting bare Custom<i64> to admit as a param/return type");
    assert!(lowerer.is_supported_vec_element(&custom), "expecting Custom<i64> to admit as a Vec element");
}

#[test]
fn custom_resolves_to_primitive_repr() {
    let contract = empty_contract_with(vec![datetime_custom_type()]);
    let abi = AbiContract::new();
    let options = CSharpOptions::default();
    let lowerer = CSharpLowerer::new(&contract, &abi, &options);

    let normalized = lowerer.normalize_custom_type_expr(&TypeExpr::Custom(CustomTypeId::new("UtcDateTime")));

    assert!(matches!(normalized, TypeExpr::Primitive(PrimitiveType::I64)));
}

#[test]
fn vec_of_custom_resolves_to_vec_of_repr() {
    let contract = empty_contract_with(vec![datetime_custom_type()]);
    let abi = AbiContract::new();
    let options = CSharpOptions::default();
    let lowerer = CSharpLowerer::new(&contract, &abi, &options);

    let normalized = lowerer.normalize_custom_type_expr(&TypeExpr::Vec(Box::new(TypeExpr::Custom(
        CustomTypeId::new("UtcDateTime"),
    ))));

    match normalized {
        TypeExpr::Vec(inner) => assert!(matches!(*inner, TypeExpr::Primitive(PrimitiveType::I64))),
        other => panic!("expected Vec<i64>, got {other:?}"),
    }
}

#[test]
fn option_of_custom_string_resolves_to_option_string() {
    let contract = empty_contract_with(vec![email_custom()]);
    let abi = AbiContract::new();
    let options = CSharpOptions::default();
    let lowerer = CSharpLowerer::new(&contract, &abi, &options);

    let normalized =
        lowerer.normalize_custom_type_expr(&TypeExpr::Option(Box::new(TypeExpr::Custom(CustomTypeId::new("Email")))));

    match normalized {
        TypeExpr::Option(inner) => assert!(matches!(*inner, TypeExpr::String)),
        other => panic!("expected Option<String>, got {other:?}"),
    }
}

#[test]
fn custom_chain_normalizes_to_final_representation() {
    let mut contract = contract("demo");
    contract.catalog.insert_custom(CustomTypeDef {
        id: CustomTypeId::new("Stamp"),
        rust_type: "demo::Stamp".to_string(),
        repr: TypeExpr::Custom(CustomTypeId::new("UtcDateTime")),
        doc: None,
    });
    contract.catalog.insert_custom(datetime_custom_type());
    let abi = AbiContract::new();
    let options = CSharpOptions::default();
    let lowerer = CSharpLowerer::new(&contract, &abi, &options);

    let normalized = lowerer.normalize_custom_type_expr(&TypeExpr::Vec(Box::new(TypeExpr::Option(Box::new(
        TypeExpr::Custom(CustomTypeId::new("Stamp")),
    )))));
    match normalized {
        TypeExpr::Vec(inner) => match *inner {
            TypeExpr::Option(inner) => assert!(matches!(*inner, TypeExpr::Primitive(PrimitiveType::I64))),
            other => panic!("expected Option<i64>, got {other:?}"),
        },
        other => panic!("expected Vec<Option<i64>>, got {other:?}"),
    }
}

#[test]
fn record_cycle_through_each_other_is_not_admitted() {
    let mut contract = contract("demo");
    contract
        .catalog
        .insert_record(record_with_one_field("a", "b", TypeExpr::Record(RecordId::new("b"))));
    contract
        .catalog
        .insert_record(record_with_one_field("b", "a", TypeExpr::Record(RecordId::new("a"))));
    contract
        .catalog
        .insert_record(record_with_one_field("leaf", "n", TypeExpr::Primitive(PrimitiveType::U8)));

    let (records, _enums) = CSharpLowerer::compute_supported_sets(&contract);

    assert!(!records.contains(&RecordId::new("a")));
    assert!(!records.contains(&RecordId::new("b")));
    assert!(records.contains(&RecordId::new("leaf")));
}

#[test]
fn supported_function_lowers_to_a_plan() {
    let mut contract = contract("demo_lib");
    contract.functions.push(FunctionDef {
        id: FunctionId::new("add_numbers"),
        params: vec![ParamDef {
            name: ParamName::new("left_value"),
            type_expr: TypeExpr::Primitive(PrimitiveType::I32),
            passing: ParamPassing::Value,
            doc: None,
        }],
        returns: ReturnDef::Value(TypeExpr::Primitive(PrimitiveType::I64)),
        execution_kind: ExecutionKind::Sync,
        doc: None,
    });
    let abi = AbiContract::new();
    let options = CSharpOptions::default();
    let lowerer = CSharpLowerer::new(&contract, &abi, &options);

    let plan = lowerer.lower_function(&contract.functions[0]).expect("supported function should lower");
    assert_eq!(plan.name.to_string(), "AddNumbers");
    assert_eq!(plan.params.to_string(), "int leftValue");
    assert_eq!(plan.return_type.to_string(), "long");
    assert!(!plan.is_async);
}

#[test]
fn bool_callback_return_marshals_through_a_byte() {
    let contract = contract("demo_lib");
    let abi = AbiContract::new();
    let options = CSharpOptions::default();
    let lowerer = CSharpLowerer::new(&contract, &abi, &options);
    let shape = ReturnShape {
        transport: Some(Transport::Scalar(ScalarOrigin::Primitive(PrimitiveType::Bool))),
        decode_ops: None,
        encode_ops: None,
    };
    let ret = lowerer.callback_value_return(&TypeExpr::Primitive(PrimitiveType::Bool), &shape, CallbackReturnMode::CallbackVtable);
    match ret {
        CallbackReturn::Direct {
            public_type,
            native_type,
            native_out_type,
            sync_default_value,
            async_default_value,
            native_value,
            public_value,
            marshals_bool,
        } => {
            assert!(matches!(public_type, CSharpType::Bool));
            assert!(matches!(native_type, CSharpType::Bool));
            assert!(matches!(native_out_type, CSharpType::Byte));
            assert!(matches!(sync_default_value, CSharpExpression::Literal(CSharpLiteral::Int(0))));
            assert!(matches!(async_default_value, CSharpExpression::Literal(CSharpLiteral::Bool(false))));
            assert!(matches!(native_value, CallbackNativeValuePlan::BoolToByte));
            assert!(matches!(public_value, CallbackPublicValuePlan::ByteToBool));
            assert!(marshals_bool);
        }
        _ => panic!("expecting a direct return"),
    }
}
