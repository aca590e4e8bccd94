use boltffi_bindgen::csharp_ast::{
    CSharpArgumentList, CSharpExpression, CSharpIdentity, CSharpLiteral, CSharpParameter, CSharpStatement, CSharpType,
};
use boltffi_bindgen::csharp_names::{CSharpLocalName, CSharpMethodName, CSharpParamName};
use boltffi_bindgen::csharp_plan::{CSharpCallbackBridgeParamPlan, CSharpWireWriterPlan};

fn param_expr(name: &CSharpParamName) -> CSharpExpression {
    CSharpExpression::Identity(CSharpIdentity::Param(name.clone()))
}

fn local(name: &str) -> CSharpLocalName {
    CSharpLocalName::new(name)
}

fn local_expr(name: &CSharpLocalName) -> CSharpExpression {
    CSharpExpression::Identity(CSharpIdentity::Local(name.clone()))
}

#[test]
fn direct_bridge_param_exposes_typed_signature_and_args() {
    let name = CSharpParamName::from_source("value");
    let plan = CSharpCallbackBridgeParamPlan::Direct {
        public_param: CSharpParameter::bare(CSharpType::Int, name.clone()),
        native_param: CSharpParameter::bare(CSharpType::Int, name.clone()),
        decoded_arg: param_expr(&name),
        proxy_arg: param_expr(&name),
    };

    assert_eq!(plan.public_param().to_string(), "int value");
    assert_eq!(
        plan.native_params().into_iter().map(|param| param.to_string()).collect::<Vec<_>>(),
        vec!["int value"]
    );
    assert_eq!(plan.decoded_arg().to_string(), "value");
    assert_eq!(plan.proxy_args().to_string(), "value");
    assert!(!plan.needs_wire_reader());
    assert!(!plan.needs_wire_writer());
}

#[test]
fn wire_encoded_bridge_param_exposes_reader_writer_pin_and_cleanup_parts() {
    let value = CSharpParamName::from_source("value");
    let value_len = CSharpParamName::new("valueLen");
    let writer = CSharpWireWriterPlan {
        binding_name: local("_valueWire"),
        bytes_binding_name: local("_valueBytes"),
        param_name: value.clone(),
        size_expr: CSharpExpression::Literal(CSharpLiteral::Int(4)),
        encode_stmts: vec![CSharpStatement::Expression(CSharpExpression::MethodCall {
            receiver: Box::new(local_expr(&local("_valueWire"))),
            method: CSharpMethodName::new("WriteI32"),
            type_args: vec![],
            args: CSharpArgumentList::from_vec(vec![param_expr(&value)]),
        })],
    };
    let plan = CSharpCallbackBridgeParamPlan::WireEncoded {
        public_param: CSharpParameter::bare(CSharpType::String, value.clone()),
        native_ptr_param: CSharpParameter::bare(CSharpType::IntPtr, value.clone()),
        native_len_param: CSharpParameter::bare(CSharpType::UIntPtr, value_len),
        reader_local: local("__boltffiValueReader"),
        decoded_arg: local_expr(&local("__boltffiValueReader")),
        writer: Box::new(writer),
        pin_local: local("_valuePin"),
        ptr_local: local("_valuePtr"),
    };

    assert_eq!(plan.public_param().to_string(), "string value");
    assert_eq!(
        plan.native_params().into_iter().map(|param| param.to_string()).collect::<Vec<_>>(),
        vec!["IntPtr value", "UIntPtr valueLen"]
    );
    assert_eq!(plan.proxy_args().to_string(), "_valuePtr, (UIntPtr)_valueBytes.Length");
    let CSharpCallbackBridgeParamPlan::WireEncoded { reader_local, writer, pin_local, ptr_local, .. } = &plan else {
        panic!("expected wire-encoded bridge param");
    };
    assert_eq!(reader_local.to_string(), "__boltffiValueReader");
    assert_eq!(writer.binding_name.to_string(), "_valueWire");
    assert_eq!(writer.bytes_binding_name.to_string(), "_valueBytes");
    assert_eq!(pin_local.to_string(), "_valuePin");
    assert_eq!(ptr_local.to_string(), "_valuePtr");
    assert!(plan.needs_wire_reader());
    assert!(plan.needs_wire_writer());
}

#[test]
fn keyword_parameter_names_are_escaped() {
    let name = CSharpParamName::from_source("class");
    let parameter = CSharpParameter::bare(CSharpType::Bool, name);
    assert_eq!(parameter.to_string(), "bool @class");
}

#[test]
fn nullable_array_types_spell_with_suffixes() {
    let ty = CSharpType::Nullable(Box::new(CSharpType::Array(Box::new(CSharpType::Long))));
    assert_eq!(ty.to_string(), "long[]?");
}
