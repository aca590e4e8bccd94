//! Lowering of callback traits and closures to C# plans.
//!
//! A callback method crosses the boundary in both directions: the native
//! side calls into a C# implementation through an entry point, and C# calls
//! a Rust implementation through a proxy. Each parameter is passed directly
//! or as a wire-encoded buffer, and each return value directly, as a wire
//! buffer, or not at all; every part of the plan follows from that choice.

use vstd::prelude::*;
use vstd::string::*;

use crate::abi::{AbiCallbackInvocation, AbiCallbackMethod, AbiParam, AbiType, ParamRole, ReturnShape, Transport};
use crate::csharp_ast::{
    attributes_text, expr_text, lemma_exprs_text_one, param_text, type_text, CSharpArgumentList, CSharpAttribute,
    CSharpAttributeArg, CSharpBinaryOp, CSharpExpression, CSharpIdentity, CSharpLiteral, CSharpParamModifier,
    CSharpParameter, CSharpParameterList, CSharpType, CSharpTypeReference,
};
use crate::csharp_codec::{
    decode_seq_text, encode_op_text, lower_decode_expr, lower_encode_expr, lower_size_expr, size_text, Renames,
};
use crate::csharp_custom::{
    lemma_write_ops_free_at, lemma_write_ops_model_index, norm_read_seq, norm_write_seq, read_seq_wf, write_seq_custom_free,
    write_seq_wf,
};
use crate::custom_chains::mentions_custom;
use crate::csharp_lowerer::lowerable;
use crate::csharp_names::escaped_identifier;
use crate::csharp_plan::{
    CFunctionName, CSharpCallbackPlan, CSharpClosurePlan,
    bridges_like, clone_bridge_params, CSharpAsyncCallbackEntryPlan, CSharpCallbackDelegatePlan, CSharpCallbackEntryPlan,
    CSharpCallbackMethodPlan, CSharpCallbackProxyPlan, CSharpClosureMethodPlan, CSharpSyncCallbackEntryPlan,
    CSharpSyncCallbackProxyPlan,
    CSharpCallbackParamPlan,
    CSharpAsyncCallbackFaultPlan, CSharpAsyncCallbackSuccessPlan, CSharpCallbackProxyCallPlan, CSharpClosureInvokePlan,
    CSharpSyncCallbackSuccessPlan,
    CSharpCallbackResultAssignmentPlan, CSharpCallbackResultCatchPlan, CSharpCallbackResultDecodePlan,
    CSharpCallbackResultOkPlan, CSharpResultTypePlan,
    CSharpAsyncCallbackFailurePlan, CSharpCallbackBridgeParamPlan, CSharpSyncCallbackOutInitializerPlan, CSharpWireWriterPlan,
};
use crate::custom_chains::customs_resolve;
use crate::defs::{ParamDef, ReturnDef};
use crate::naming::camel_case;
use crate::wire::{ReadOp, ReadOpModel, ReadSeq, WriteOp, WriteOpModel, WriteSeq, WriteSeqModel};
use crate::csharp_ast::{expr_like, is_method_call, statement_text};
use crate::csharp_lowerer::{csharp_primitive, csharp_type_for_primitive, lowers_to, CSharpLowerer};
use crate::csharp_names::{CSharpClassName, CSharpLocalName, CSharpMethodName, CSharpParamName, CSharpPropertyName};
use crate::defs::{CallbackKind, CallbackMethodDef, CallbackTraitDef, TypeCatalog};
use crate::ids::CallbackId;
use crate::naming::{pascal_case, strip_prefix_or_same, strip_prefix_or_same_exec};
use crate::types::{PrimitiveType, TypeExpr};

verus! {

/// `name` without a leading `@`: the spelling a keyword-escaped parameter
/// contributes to the names of the locals derived from it.
pub open spec fn stripped(name: Seq<char>) -> Seq<char> {
    strip_prefix_or_same(name, "@"@)
}

fn stripped_name(name: &CSharpParamName) -> (res: String)
    ensures
        res@ == stripped(name@),
{
    strip_prefix_or_same_exec(name.as_str(), "@")
}

fn local_expr(name: &str) -> (res: CSharpExpression)
    ensures
        res matches CSharpExpression::Identity(CSharpIdentity::Local(n)) && n@ == name@,
        expr_text(res) == name@,
{
    CSharpExpression::Identity(CSharpIdentity::Local(CSharpLocalName::new(name)))
}

fn type_ref_expr(name: CSharpClassName) -> (res: CSharpExpression)
    ensures
        res == CSharpExpression::TypeRef(CSharpTypeReference::Plain(name)),
        expr_text(res) == name@,
{
    CSharpExpression::TypeRef(CSharpTypeReference::Plain(name))
}

fn type_member_expr(ty_name: &str, member_name: &str) -> (res: CSharpExpression)
    ensures
        is_type_member(res, ty_name@, member_name@),
        expr_text(res) == ty_name@ + "."@ + member_name@,
{
    let receiver = type_ref_expr(CSharpClassName::new(ty_name));
    CSharpExpression::MemberAccess { receiver: Box::new(receiver), name: CSharpPropertyName::new(member_name) }
}

/// Whether `e` is the member `member` of the type named `ty`, as in
/// `IntPtr.Zero`.
pub open spec fn is_type_member(e: CSharpExpression, ty: Seq<char>, member: Seq<char>) -> bool {
    e matches CSharpExpression::MemberAccess { receiver, name } && name@ == member && (*receiver matches CSharpExpression::TypeRef(
        CSharpTypeReference::Plain(n),
    ) && n@ == ty)
}

fn named_type(name: &str) -> (res: CSharpType)
    ensures
        res.is_named_spec(name@),
        type_text(res) == name@,
{
    CSharpType::Named(CSharpTypeReference::Plain(CSharpClassName::new(name)))
}

/// The text of `[MarshalAs(UnmanagedType.I1)]`, which makes a `bool`
/// cross as one byte.
pub open spec fn marshal_as_i1_text() -> Seq<char> {
    "["@ + "MarshalAs"@ + ("("@ + ("UnmanagedType"@ + "."@ + pascal_case("i1"@)) + ")"@) + "]"@
}

fn marshal_as_i1() -> (res: CSharpAttribute)
    ensures
        crate::csharp_ast::attribute_text(res) == marshal_as_i1_text(),
{
    let receiver = CSharpExpression::TypeRef(CSharpTypeReference::Plain(CSharpClassName::new("UnmanagedType")));
    assert(expr_text(receiver) == "UnmanagedType"@);
    let arg = CSharpExpression::MemberAccess { receiver: Box::new(receiver), name: CSharpPropertyName::from_source("i1") };
    assert(expr_text(arg) == "UnmanagedType"@ + "."@ + pascal_case("i1"@));
    let mut args: Vec<CSharpAttributeArg> = Vec::new();
    args.push(CSharpAttributeArg::Positional(arg));
    let res = CSharpAttribute { name: CSharpClassName::new("MarshalAs"), args };
    proof {
        assert(crate::csharp_ast::attribute_arg_exprs(res.args@) =~= seq![arg]);
        lemma_exprs_text_one(arg);
    }
    res
}

/// Renames the root `ir_name` of the wire plan to the local `csharp_name`.
fn root_local_rename(ir_name: &str, csharp_name: &str) -> (res: Renames)
    ensures
        res@ == seq![(ir_name@, csharp_name@)],
{
    let mut renames = Renames::new();
    renames.insert(String::from_str(ir_name), local_expr(csharp_name));
    assert(renames@ =~= seq![(ir_name@, csharp_name@)]);
    renames
}

/// The C# spelling of a C-level type.
pub open spec fn abi_type_csharp(a: AbiType, t: CSharpType) -> bool {
    match a {
        AbiType::Void => t is Void,
        AbiType::Bool => t is Bool,
        AbiType::I8 => t is SByte,
        AbiType::U8 => t is Byte,
        AbiType::I16 => t is Short,
        AbiType::U16 => t is UShort,
        AbiType::I32 => t is Int,
        AbiType::U32 => t is UInt,
        AbiType::I64 => t is Long,
        AbiType::U64 => t is ULong,
        AbiType::ISize => t is NInt,
        AbiType::USize => t is NUInt,
        AbiType::F32 => t is Float,
        AbiType::F64 => t is Double,
        AbiType::Pointer(_) => t is IntPtr,
        AbiType::OwnedBuffer => t.is_named_spec("FfiBuf"@),
        AbiType::Handle(_) => t is IntPtr,
        AbiType::CallbackHandle => t.is_named_spec("BoltFFICallbackHandle"@),
        AbiType::Struct(id) => t matches CSharpType::Record(CSharpTypeReference::Plain(n)) && n@ == pascal_case(id@),
        AbiType::InlineCallbackFn { .. } => t is IntPtr,
    }
}

/// The C# type of a C-level type.
pub fn native_csharp_type_for_abi_type(abi_type: &AbiType) -> (res: CSharpType)
    ensures
        abi_type_csharp(*abi_type, res),
{
    match abi_type {
        AbiType::Void => CSharpType::Void,
        AbiType::Bool => CSharpType::Bool,
        AbiType::I8 => CSharpType::SByte,
        AbiType::U8 => CSharpType::Byte,
        AbiType::I16 => CSharpType::Short,
        AbiType::U16 => CSharpType::UShort,
        AbiType::I32 => CSharpType::Int,
        AbiType::U32 => CSharpType::UInt,
        AbiType::I64 => CSharpType::Long,
        AbiType::U64 => CSharpType::ULong,
        AbiType::ISize => CSharpType::NInt,
        AbiType::USize => CSharpType::NUInt,
        AbiType::F32 => CSharpType::Float,
        AbiType::F64 => CSharpType::Double,
        AbiType::Pointer(_) => CSharpType::IntPtr,
        AbiType::OwnedBuffer => named_type("FfiBuf"),
        AbiType::Handle(_) => CSharpType::IntPtr,
        AbiType::CallbackHandle => named_type("BoltFFICallbackHandle"),
        AbiType::Struct(id) => CSharpType::Record(CSharpTypeReference::Plain(CSharpClassName::from_source(id.as_str()))),
        AbiType::InlineCallbackFn { .. } => CSharpType::IntPtr,
    }
}

/// The native parameter for a C-level type: a `bool` marshalled as one
/// byte, anything else bare.
pub open spec fn native_param_spec(a: AbiType, name: Seq<char>, p: CSharpParameter) -> bool {
    &&& p.name@ == name
    &&& p.modifier is None
    &&& if a is Bool {
        &&& p.csharp_type is Bool
        &&& attributes_text(p.attributes@) == marshal_as_i1_text() + " "@
    } else {
        &&& abi_type_csharp(a, p.csharp_type)
        &&& p.attributes@.len() == 0
    }
}

/// The native parameter for a C-level type.
pub fn native_param(abi_type: &AbiType, name: &CSharpParamName) -> (res: CSharpParameter)
    ensures
        native_param_spec(*abi_type, name@, res),
{
    match abi_type {
        AbiType::Bool => {
            let mut attributes: Vec<CSharpAttribute> = Vec::new();
            let a = marshal_as_i1();
            attributes.push(a);
            let res = CSharpParameter { attributes, modifier: None, csharp_type: CSharpType::Bool, name: name.clone() };
            assert(res.attributes@.drop_last() =~= Seq::<CSharpAttribute>::empty());
            assert(attributes_text(Seq::<CSharpAttribute>::empty()) == Seq::<char>::empty());
            assert(attributes_text(res.attributes@) =~= crate::csharp_ast::attribute_text(a) + " "@);
            res
        },
        _ => CSharpParameter::bare(native_csharp_type_for_abi_type(abi_type), name.clone()),
    }
}

/// How a C# value becomes the native value of a direct return.
pub enum CallbackNativeValuePlan {
    Identity,
    BoolToByte,
    Cast(CSharpType),
    CallbackHandleCreate { bridge: CSharpClassName },
    HandleField,
}

/// How a native value becomes the C# value of a direct return.
pub enum CallbackPublicValuePlan {
    Identity,
    ByteToBool,
    Cast(CSharpType),
    CallbackHandleWrap { bridge: CSharpClassName },
}

/// The text of the native value made of the C# value `v`.
pub open spec fn native_value_text(plan: CallbackNativeValuePlan, v: Seq<char>) -> Seq<char> {
    match plan {
        CallbackNativeValuePlan::Identity => v,
        CallbackNativeValuePlan::BoolToByte => v + " ? "@ + ("("@ + type_text(CSharpType::Byte) + ")"@
            + crate::text::decimal_int(1)) + " : "@ + ("("@ + type_text(CSharpType::Byte) + ")"@
            + crate::text::decimal_int(0)),
        CallbackNativeValuePlan::Cast(t) => "("@ + type_text(t) + ")"@ + v,
        CallbackNativeValuePlan::CallbackHandleCreate { bridge } => bridge@ + "."@ + "Create"@ + "("@ + v + ")"@,
        CallbackNativeValuePlan::HandleField => v + "."@ + pascal_case("handle"@),
    }
}

/// The text of the C# value made of the native value `v`.
pub open spec fn public_value_text(plan: CallbackPublicValuePlan, v: Seq<char>) -> Seq<char> {
    match plan {
        CallbackPublicValuePlan::Identity => v,
        CallbackPublicValuePlan::ByteToBool => v + " "@ + "!="@ + " "@ + crate::text::decimal_int(0),
        CallbackPublicValuePlan::Cast(t) => "("@ + type_text(t) + ")"@ + v,
        CallbackPublicValuePlan::CallbackHandleWrap { bridge } => bridge@ + "."@ + "Wrap"@ + "("@ + v + ")"@,
    }
}

/// Turns the C# value `value` into the native value of a direct return.
/// Whether `e` is a local variable named `name`.
pub open spec fn is_local(e: CSharpExpression, name: Seq<char>) -> bool {
    e matches CSharpExpression::Identity(CSharpIdentity::Local(n)) && n@ == name
}

/// The expression that turns the C# value `value` into the native value of
/// a direct return: as it is, a `bool` as the byte `1` or `0`, a cast, a
/// callback handle made by the bridge's `Create`, or a class's `Handle`.
pub open spec fn native_value_shape(plan: CallbackNativeValuePlan, value: CSharpExpression, e: CSharpExpression) -> bool {
    match plan {
        CallbackNativeValuePlan::Identity => e == value,
        CallbackNativeValuePlan::BoolToByte => e == CSharpExpression::Ternary {
            cond: Box::new(value),
            then: Box::new(CSharpExpression::Cast { target: CSharpType::Byte, inner: Box::new(CSharpExpression::Literal(CSharpLiteral::Int(1))) }),
            otherwise: Box::new(CSharpExpression::Cast { target: CSharpType::Byte, inner: Box::new(CSharpExpression::Literal(CSharpLiteral::Int(0))) }),
        },
        CallbackNativeValuePlan::Cast(t) => e == CSharpExpression::Cast { target: t, inner: Box::new(value) },
        CallbackNativeValuePlan::CallbackHandleCreate { bridge } => is_method_call(
            e,
            CSharpExpression::TypeRef(CSharpTypeReference::Plain(bridge)),
            "Create"@,
            seq![value],
        ),
        CallbackNativeValuePlan::HandleField => e matches CSharpExpression::MemberAccess { receiver, name } && *receiver == value
            && name@ == pascal_case("handle"@),
    }
}

/// The expression that turns the native value `value` into the C# value of
/// a direct return: as it is, a byte compared with `0`, a cast, or a
/// callback wrapped by the bridge's `Wrap`.
pub open spec fn public_value_shape(plan: CallbackPublicValuePlan, value: CSharpExpression, e: CSharpExpression) -> bool {
    match plan {
        CallbackPublicValuePlan::Identity => e == value,
        CallbackPublicValuePlan::ByteToBool => e == CSharpExpression::Binary {
            op: CSharpBinaryOp::Ne,
            left: Box::new(value),
            right: Box::new(CSharpExpression::Literal(CSharpLiteral::Int(0))),
        },
        CallbackPublicValuePlan::Cast(t) => e == CSharpExpression::Cast { target: t, inner: Box::new(value) },
        CallbackPublicValuePlan::CallbackHandleWrap { bridge } => is_method_call(
            e,
            CSharpExpression::TypeRef(CSharpTypeReference::Plain(bridge)),
            "Wrap"@,
            seq![value],
        ),
    }
}

pub fn native_value_expr(plan: &CallbackNativeValuePlan, value: CSharpExpression) -> (res: CSharpExpression)
    ensures
        native_value_shape(*plan, value, res),
        expr_text(res) == native_value_text(*plan, expr_text(value)),
{
    match plan {
        CallbackNativeValuePlan::Identity => value,
        CallbackNativeValuePlan::BoolToByte => {
            let lit1 = CSharpExpression::Literal(CSharpLiteral::Int(1));
            let lit0 = CSharpExpression::Literal(CSharpLiteral::Int(0));
            assert(expr_text(lit1) == crate::text::decimal_int(1));
            assert(expr_text(lit0) == crate::text::decimal_int(0));
            let one = CSharpExpression::Cast { target: CSharpType::Byte, inner: Box::new(lit1) };
            let zero = CSharpExpression::Cast { target: CSharpType::Byte, inner: Box::new(lit0) };
            assert(expr_text(one) == "("@ + type_text(CSharpType::Byte) + ")"@ + crate::text::decimal_int(1));
            assert(expr_text(zero) == "("@ + type_text(CSharpType::Byte) + ")"@ + crate::text::decimal_int(0));
            CSharpExpression::Ternary { cond: Box::new(value), then: Box::new(one), otherwise: Box::new(zero) }
        },
        CallbackNativeValuePlan::Cast(target) => CSharpExpression::Cast { target: target.clone(), inner: Box::new(value) },
        CallbackNativeValuePlan::CallbackHandleCreate { bridge } => {
            let res = crate::csharp_ast::method_call1(type_ref_expr(bridge.clone()), "Create", value);
            res
        },
        CallbackNativeValuePlan::HandleField => CSharpExpression::MemberAccess {
            receiver: Box::new(value),
            name: CSharpPropertyName::from_source("handle"),
        },
    }
}

/// Turns the native value `value` into the C# value of a direct return.
pub fn public_value_expr(plan: &CallbackPublicValuePlan, value: CSharpExpression) -> (res: CSharpExpression)
    ensures
        public_value_shape(*plan, value, res),
        expr_text(res) == public_value_text(*plan, expr_text(value)),
{
    match plan {
        CallbackPublicValuePlan::Identity => value,
        CallbackPublicValuePlan::ByteToBool => {
            let zero = CSharpExpression::Literal(CSharpLiteral::Int(0));
            assert(expr_text(zero) == crate::text::decimal_int(0));
            CSharpExpression::Binary { op: CSharpBinaryOp::Ne, left: Box::new(value), right: Box::new(zero) }
        },
        CallbackPublicValuePlan::Cast(target) => CSharpExpression::Cast { target: target.clone(), inner: Box::new(value) },
        CallbackPublicValuePlan::CallbackHandleWrap { bridge } => {
            crate::csharp_ast::method_call1(type_ref_expr(bridge.clone()), "Wrap", value)
        },
    }
}

/// The index of the first invocation for `id`, or -1.
pub open spec fn abi_callback_index(abi: Seq<AbiCallbackInvocation>, id: Seq<char>) -> int {
    crate::defs::first_index(abi.map_values(|c: AbiCallbackInvocation| c.callback_id@), id)
}

/// The index of the first vtable method with the given id, or -1.
pub open spec fn abi_method_index(methods: Seq<AbiCallbackMethod>, id: Seq<char>) -> int {
    crate::defs::first_index(methods.map_values(|m: AbiCallbackMethod| m.id@), id)
}

impl<'a> CSharpLowerer<'a> {
    /// The C# name of the interface of a callback: `Closure` and the
    /// signature id for a closure, the `PascalCase` id otherwise.
    pub open spec fn public_class_name_spec(&self, id: Seq<char>) -> Seq<char> {
        let k = self.ffi.catalog.callback_index(id);
        if 0 <= k < self.ffi.catalog.callbacks@.len() && self.ffi.catalog.callbacks@[k].kind == CallbackKind::Closure {
            "Closure"@ + strip_prefix_or_same(id, "__Closure_"@)
        } else {
            pascal_case(id)
        }
    }

    /// The C# name of the bridge class of a callback.
    pub open spec fn bridge_class_name_spec(&self, id: Seq<char>) -> Seq<char> {
        let k = self.ffi.catalog.callback_index(id);
        if 0 <= k < self.ffi.catalog.callbacks@.len() && self.ffi.catalog.callbacks@[k].kind == CallbackKind::Closure {
            "Closure"@ + strip_prefix_or_same(id, "__Closure_"@) + "Bridge"@
        } else {
            pascal_case(id) + "Bridge"@
        }
    }

    fn is_closure(&self, callback_id: &CallbackId) -> (res: bool)
        ensures
            res == {
                let k = self.ffi.catalog.callback_index(callback_id@);
                0 <= k < self.ffi.catalog.callbacks@.len() && self.ffi.catalog.callbacks@[k].kind == CallbackKind::Closure
            },
    {
        match self.ffi.catalog.resolve_callback(callback_id) {
            Some(cb) => matches!(cb.kind, CallbackKind::Closure),
            None => false,
        }
    }

    /// The C# name of the interface of a callback.
    pub fn callback_public_class_name(&self, callback_id: &CallbackId) -> (res: CSharpClassName)
        ensures
            res@ == self.public_class_name_spec(callback_id@),
    {
        if self.is_closure(callback_id) {
            let signature_id = strip_prefix_or_same_exec(callback_id.as_str(), "__Closure_");
            let mut name = String::from_str("Closure");
            name.append(signature_id.as_str());
            CSharpClassName::new(name.as_str())
        } else {
            CSharpClassName::from_source(callback_id.as_str())
        }
    }

    /// The C# name of the bridge class of a callback.
    pub fn callback_bridge_class_name(&self, callback_id: &CallbackId) -> (res: CSharpClassName)
        ensures
            res@ == self.bridge_class_name_spec(callback_id@),
    {
        if self.is_closure(callback_id) {
            let signature_id = strip_prefix_or_same_exec(callback_id.as_str(), "__Closure_");
            let mut name = String::from_str("Closure");
            name.append(signature_id.as_str());
            name.append("Bridge");
            CSharpClassName::new(name.as_str())
        } else {
            let public = CSharpClassName::from_source(callback_id.as_str());
            let mut name = public.to_string();
            name.append("Bridge");
            CSharpClassName::new(name.as_str())
        }
    }

    /// The C# name of the proxy class of a callback: its interface name
    /// followed by `Proxy`.
    pub fn callback_proxy_class_name(&self, callback_id: &CallbackId) -> (res: CSharpClassName)
        ensures
            res@ == self.public_class_name_spec(callback_id@) + "Proxy"@,
    {
        let public_name = self.callback_public_class_name(callback_id);
        let mut name = public_name.to_string();
        name.append("Proxy");
        CSharpClassName::new(name.as_str())
    }

    /// The ABI invocation of a callback, if the ABI declares one.
    pub fn abi_callback_for(&self, callback_id: &CallbackId) -> (res: Option<&'a AbiCallbackInvocation>)
        ensures
            -1 <= abi_callback_index(self.abi.callbacks@, callback_id@) < self.abi.callbacks@.len(),
            res is Some <==> abi_callback_index(self.abi.callbacks@, callback_id@) >= 0,
            res matches Some(c) ==> *c == self.abi.callbacks@[abi_callback_index(self.abi.callbacks@, callback_id@)],
    {
        let abi: &'a crate::abi::AbiContract = self.abi;
        let ghost keys = abi.callbacks@.map_values(|c: AbiCallbackInvocation| c.callback_id@);
        let mut i: usize = 0;
        while i < abi.callbacks.len()
            invariant
                abi == self.abi,
                i <= abi.callbacks@.len(),
                keys == abi.callbacks@.map_values(|c: AbiCallbackInvocation| c.callback_id@),
                forall|j: int| 0 <= j < i ==> keys[j] != callback_id@,
            decreases abi.callbacks.len() - i,
        {
            if abi.callbacks[i].callback_id.same_as(callback_id) {
                proof {
                    crate::defs::lemma_first_index_at(keys, callback_id@, i as int);
                }
                return Some(&abi.callbacks[i]);
            }
            i = i + 1;
        }
        proof {
            crate::defs::lemma_first_index_absent(keys, callback_id@);
        }
        None
    }

    /// The vtable method of `abi_callback` that implements `method`.
    pub fn abi_method_for<'b>(&self, abi_callback: &'b AbiCallbackInvocation, method: &CallbackMethodDef) -> (res: Option<&'b AbiCallbackMethod>)
        ensures
            -1 <= abi_method_index(abi_callback.methods@, method.id@) < abi_callback.methods@.len(),
            res is Some <==> abi_method_index(abi_callback.methods@, method.id@) >= 0,
            res matches Some(m) ==> *m == abi_callback.methods@[abi_method_index(abi_callback.methods@, method.id@)],
    {
        let ghost keys = abi_callback.methods@.map_values(|m: AbiCallbackMethod| m.id@);
        let mut i: usize = 0;
        while i < abi_callback.methods.len()
            invariant
                i <= abi_callback.methods@.len(),
                keys == abi_callback.methods@.map_values(|m: AbiCallbackMethod| m.id@),
                forall|j: int| 0 <= j < i ==> keys[j] != method.id@,
            decreases abi_callback.methods.len() - i,
        {
            if abi_callback.methods[i].id.same_as(&method.id) {
                proof {
                    crate::defs::lemma_first_index_at(keys, method.id@, i as int);
                }
                return Some(&abi_callback.methods[i]);
            }
            i = i + 1;
        }
        proof {
            crate::defs::lemma_first_index_absent(keys, method.id@);
        }
        None
    }
}

/// How the return value of a callback method crosses the boundary.
pub enum CallbackReturn {
    Void,
    Direct {
        public_type: CSharpType,
        native_type: CSharpType,
        native_out_type: CSharpType,
        sync_default_value: CSharpExpression,
        async_default_value: CSharpExpression,
        native_value: CallbackNativeValuePlan,
        public_value: CallbackPublicValuePlan,
        marshals_bool: bool,
    },
    Encoded {
        public_type: CSharpType,
        decode_expr: Option<CSharpExpression>,
        encode_ops: WriteSeq,
        decode_ops: Option<ReadSeq>,
        is_result: bool,
    },
}

impl CallbackReturn {
    /// Whether the proxy needs a wire reader: an encoded value it decodes.
    pub fn needs_wire_reader(&self) -> (res: bool)
        ensures
            res == (self matches CallbackReturn::Encoded { decode_ops, .. } && decode_ops is Some),
    {
        match self {
            CallbackReturn::Encoded { decode_ops, .. } => decode_ops.is_some(),
            _ => false,
        }
    }

    /// Whether the entry needs a wire writer: any encoded value.
    pub fn needs_wire_writer(&self) -> (res: bool)
        ensures
            res == (*self is Encoded),
    {
        matches!(self, CallbackReturn::Encoded { .. })
    }

    /// The type of the return value on the public interface.
    pub open spec fn public_type_spec(self) -> CSharpType {
        match self {
            CallbackReturn::Void => CSharpType::Void,
            CallbackReturn::Direct { public_type, .. } => public_type,
            CallbackReturn::Encoded { public_type, .. } => public_type,
        }
    }

    /// The type of the return value on the public interface.
    pub fn public_type(&self) -> (res: CSharpType)
        ensures
            res == self.public_type_spec(),
    {
        match self {
            CallbackReturn::Void => CSharpType::Void,
            CallbackReturn::Direct { public_type, .. } => public_type.clone(),
            CallbackReturn::Encoded { public_type, .. } => public_type.clone(),
        }
    }
}

/// Whether a return is lowered for a callback vtable or for an inline
/// closure, which can return a record by value.
#[derive(Clone, Copy, Debug, PartialEq, Eq, Structural)]
pub enum CallbackReturnMode {
    CallbackVtable,
    InlineClosure,
}

/// The fuel that unfolds every custom type of an acyclic catalog.
pub open spec fn depth(cat: TypeCatalog) -> nat {
    crate::custom_chains::custom_depth(cat)
}

/// A type whose custom types all resolve and which has a C# spelling.
pub open spec fn type_ready(cat: TypeCatalog, ty: TypeExpr) -> bool {
    customs_resolve(cat, ty, depth(cat)) && crate::csharp_lowerer::lowerable(cat, ty, depth(cat))
}

/// Optional reads that can be normalized, when present.
pub open spec fn reads_ready(cat: TypeCatalog, ops: Option<ReadSeq>) -> bool {
    ops matches Some(d) ==> read_seq_wf(cat, d@, depth(cat))
}

/// Writes that are present and can be normalized.
pub open spec fn writes_ready(cat: TypeCatalog, ops: Option<WriteSeq>) -> bool {
    ops matches Some(e) && write_seq_wf(cat, e@, depth(cat))
}

/// What lowering one callback parameter needs: a type with a C# spelling,
/// an input role, and for a span its length parameter, its reads and its
/// writes.
pub open spec fn bridge_param_ready(cat: TypeCatalog, param: ParamDef, abi_param: AbiParam) -> bool {
    &&& type_ready(cat, param.type_expr)
    &&& abi_param.role matches ParamRole::Input { transport, len_param, decode_ops, encode_ops } && (transport is Span ==> {
        &&& len_param is Some
        &&& decode_ops is Some
        &&& reads_ready(cat, decode_ops)
        &&& writes_ready(cat, encode_ops)
    })
}

/// What lowering a return value needs: a type with a C# spelling, and the
/// writes (and reads, when given) of an encoded value.
pub open spec fn return_ready(cat: TypeCatalog, ret_def: ReturnDef, shape: ReturnShape, mode: CallbackReturnMode) -> bool {
    match ret_def {
        ReturnDef::Void => true,
        ReturnDef::Value(ty) => type_ready(cat, ty) && match shape.transport {
            Some(Transport::Composite(_)) => mode == CallbackReturnMode::InlineClosure || (writes_ready(cat, shape.encode_ops)
                && reads_ready(cat, shape.decode_ops)),
            Some(Transport::Span(_)) => writes_ready(cat, shape.encode_ops) && reads_ready(cat, shape.decode_ops),
            _ => true,
        },
        ReturnDef::Result { ok, .. } => (ok is Void || type_ready(cat, ok)) && writes_ready(cat, shape.encode_ops)
            && reads_ready(cat, shape.decode_ops),
    }
}

/// The writer plan: its locals, the parameter it encodes, its size and one
/// statement per write.
pub open spec fn writer_plan_spec(
    w: CSharpWireWriterPlan,
    ops: WriteSeqModel,
    writer_name: Seq<char>,
    bytes_name: Seq<char>,
    param_name: Seq<char>,
    renames: Seq<(Seq<char>, Seq<char>)>,
) -> bool {
    &&& w.binding_name@ == writer_name
    &&& w.bytes_binding_name@ == bytes_name
    &&& w.param_name@ == param_name
    &&& expr_text(w.size_expr) == size_text(ops.size, renames)
    &&& w.encode_stmts@.len() == ops.ops.len()
    &&& forall|i: int| 0 <= i < ops.ops.len() ==> statement_text(#[trigger] w.encode_stmts@[i]) == encode_op_text(
        ops.ops[i],
        writer_name,
        renames,
    ) + ";"@
}

/// A parameter of the public interface: the spelled type and the
/// `camelCase` name, with no modifier and no attribute.
pub open spec fn public_param_of(cat: TypeCatalog, param: ParamDef, p: CSharpParameter) -> bool {
    &&& lowers_to(cat, param.type_expr, p.csharp_type, depth(cat))
    &&& p.name@ == escaped_identifier(camel_case(param.name@))
    &&& p.modifier is None
    &&& p.attributes@.len() == 0
}

/// A bare parameter of type `t` named `name`.
pub open spec fn bare_param(p: CSharpParameter, t: CSharpType, name: Seq<char>) -> bool {
    p.csharp_type == t && p.name@ == name && p.modifier is None && p.attributes@.len() == 0
}

/// An `out` parameter of type `t` named `name`.
pub open spec fn out_param(p: CSharpParameter, t: CSharpType, name: Seq<char>) -> bool {
    p.csharp_type == t && p.name@ == name && p.modifier == Some(CSharpParamModifier::Out) && p.attributes@.len() == 0
}

impl<'a> CSharpLowerer<'a> {
    /// Whether `ty` is a declared C-style enum.
    pub open spec fn c_style_enum_spec(&self, ty: TypeExpr) -> bool {
        ty matches TypeExpr::Enum(id) && {
            let k = self.ffi.catalog.enum_index(id@);
            0 <= k < self.ffi.catalog.enums@.len() && self.ffi.catalog.enums@[k].repr is CStyle
        }
    }

    /// The argument handed to the implementation for a directly passed
    /// parameter: the parameter itself, cast to the enum type for a C-style
    /// enum.
    fn direct_decode_expr(&self, type_expr: &TypeExpr, name: &CSharpParamName) -> (res: CSharpExpression)
        requires
            type_ready(self.ffi.catalog, *type_expr),
        ensures
            if self.c_style_enum_spec(*type_expr) {
                res matches CSharpExpression::Cast { target, inner } && lowers_to(self.ffi.catalog, *type_expr, target, depth(self.ffi.catalog))
                    && expr_text(*inner) == name@
            } else {
                expr_text(res) == name@
            },
    {
        let param = CSharpExpression::Identity(CSharpIdentity::Param(name.clone()));
        if self.is_c_style_enum_type(type_expr) {
            let ty = self.lower_type(type_expr).unwrap();
            CSharpExpression::Cast { target: ty, inner: Box::new(param) }
        } else {
            param
        }
    }

    /// The argument a proxy passes for a directly passed parameter: the
    /// parameter itself, cast to its native type for a C-style enum.
    fn direct_proxy_arg_expr(&self, type_expr: &TypeExpr, abi_type: &AbiType, name: &CSharpParamName) -> (res: CSharpExpression)
        ensures
            if self.c_style_enum_spec(*type_expr) {
                res matches CSharpExpression::Cast { target, inner } && abi_type_csharp(*abi_type, target)
                    && expr_text(*inner) == name@
            } else {
                expr_text(res) == name@
            },
    {
        let param = CSharpExpression::Identity(CSharpIdentity::Param(name.clone()));
        if self.is_c_style_enum_type(type_expr) {
            CSharpExpression::Cast { target: native_csharp_type_for_abi_type(abi_type), inner: Box::new(param) }
        } else {
            param
        }
    }

    /// The expression that decodes a value from `reader`.
    fn decode_expr_from_reader(&self, decode_ops: &ReadSeq, reader: CSharpExpression) -> (res: CSharpExpression)
        ensures
            expr_text(res) == decode_seq_text(decode_ops@, expr_text(reader)),
    {
        lower_decode_expr(decode_ops, &reader)
    }

    /// The writer plan of a value with the given locals and renames.
    fn wire_writer_plan_with_renames(
        &self,
        encode_ops: &WriteSeq,
        writer_name: &str,
        bytes_name: &str,
        param_name: &CSharpParamName,
        renames: &Renames,
    ) -> (res: CSharpWireWriterPlan)
        ensures
            writer_plan_spec(res, encode_ops@, writer_name@, bytes_name@, param_name@, renames@),
    {
        let writer_local = CSharpLocalName::new(writer_name);
        let bytes_local = CSharpLocalName::new(bytes_name);
        let writer = CSharpExpression::Identity(CSharpIdentity::Local(writer_local.clone()));
        let size_expr = lower_size_expr(&encode_ops.size, renames);
        let encode_stmts = lower_encode_expr(encode_ops, &writer, renames);
        proof {
            crate::csharp_custom::lemma_write_ops_model_index(encode_ops.ops@, 0);
        }
        CSharpWireWriterPlan {
            binding_name: writer_local,
            bytes_binding_name: bytes_local,
            param_name: param_name.clone(),
            size_expr,
            encode_stmts,
        }
    }

    /// The writer plan of a wire-encoded parameter: locals `_<name>Wire`
    /// and `_<name>Bytes`.
    fn callback_param_wire_writer_plan(&self, encode_ops: &WriteSeq, name: &CSharpParamName) -> (res: CSharpWireWriterPlan)
        ensures
            writer_plan_spec(
                res,
                encode_ops@,
                "_"@ + stripped(name@) + "Wire"@,
                "_"@ + stripped(name@) + "Bytes"@,
                name@,
                Seq::empty(),
            ),
    {
        let base = stripped_name(name);
        let mut writer_name = String::from_str("_");
        writer_name.append(base.as_str());
        writer_name.append("Wire");
        let mut bytes_name = String::from_str("_");
        bytes_name.append(base.as_str());
        bytes_name.append("Bytes");
        self.wire_writer_plan_with_renames(encode_ops, writer_name.as_str(), bytes_name.as_str(), name, &Renames::new())
    }

    /// The writer plan of a return value, which encodes `__boltffiValue`.
    fn return_wire_writer_plan(&self, encode_ops: &WriteSeq, writer_name: &str, bytes_name: &str, renames: &Renames) -> (res: CSharpWireWriterPlan)
        ensures
            writer_plan_spec(res, encode_ops@, writer_name@, bytes_name@, "__boltffiValue"@, renames@),
    {
        self.wire_writer_plan_with_renames(encode_ops, writer_name, bytes_name, &CSharpParamName::new("__boltffiValue"), renames)
    }

    /// One parameter as it crosses the callback bridge.
    pub open spec fn bridge_param_spec(&self, param: ParamDef, abi_param: AbiParam, res: CSharpCallbackBridgeParamPlan) -> bool {
        let cat = self.ffi.catalog;
        let name = escaped_identifier(camel_case(param.name@));
        &&& public_param_of(cat, param, res.public_param_spec())
        &&& abi_param.role matches ParamRole::Input { transport, len_param, decode_ops, encode_ops } && if transport is Span {
            res matches CSharpCallbackBridgeParamPlan::WireEncoded {
                native_ptr_param,
                native_len_param,
                reader_local,
                decoded_arg,
                writer,
                pin_local,
                ptr_local,
                ..
            } && {
                &&& bare_param(native_ptr_param, CSharpType::IntPtr, name)
                &&& bare_param(native_len_param, CSharpType::UIntPtr, escaped_identifier(camel_case(len_param->0@)))
                &&& reader_local@ == "__boltffi"@ + stripped(name) + "Reader"@
                &&& expr_text(decoded_arg) == decode_seq_text(norm_read_seq(cat, decode_ops->0@, depth(cat)), reader_local@)
                &&& writer_plan_spec(
                    *writer,
                    norm_write_seq(cat, encode_ops->0@, depth(cat)),
                    "_"@ + stripped(name) + "Wire"@,
                    "_"@ + stripped(name) + "Bytes"@,
                    name,
                    Seq::empty(),
                )
                &&& pin_local@ == "_"@ + stripped(name) + "Pin"@
                &&& ptr_local@ == "_"@ + stripped(name) + "Ptr"@
            }
        } else {
            res matches CSharpCallbackBridgeParamPlan::Direct { native_param, decoded_arg, proxy_arg, .. } && {
                &&& native_param_spec(abi_param.abi_type, name, native_param)
                &&& if self.c_style_enum_spec(param.type_expr) {
                    &&& decoded_arg matches CSharpExpression::Cast { target, inner } && lowers_to(cat, param.type_expr, target, depth(cat))
                        && expr_text(*inner) == name
                    &&& proxy_arg matches CSharpExpression::Cast { target, inner } && abi_type_csharp(abi_param.abi_type, target)
                        && expr_text(*inner) == name
                } else {
                    expr_text(decoded_arg) == name && expr_text(proxy_arg) == name
                }
            }
        }
    }

    /// Lowers one parameter of a callback method: passed directly, or, for a
    /// span, wire-encoded as a pointer and a length, decoded on entry with a
    /// reader and encoded by a proxy with a writer over pinned bytes.
    pub fn bridge_param(&self, param: &ParamDef, abi_param: &AbiParam) -> (res: CSharpCallbackBridgeParamPlan)
        requires
            bridge_param_ready(self.ffi.catalog, *param, *abi_param),
        ensures
            self.bridge_param_spec(*param, *abi_param, res),
    {
        let name = CSharpParamName::from_source(param.name.as_str());
        let public_type = self.lower_type(&param.type_expr).unwrap();
        let public_param = CSharpParameter::bare(public_type, name.clone());
        let (transport, len_param, decode_ops, encode_ops) = match &abi_param.role {
            ParamRole::Input { transport, len_param, decode_ops, encode_ops } => (transport, len_param, decode_ops, encode_ops),
            _ => {
                proof {
                    assert(false);
                }
                return CSharpCallbackBridgeParamPlan::Direct {
                    public_param,
                    native_param: native_param(&abi_param.abi_type, &name),
                    decoded_arg: CSharpExpression::Literal(CSharpLiteral::Default),
                    proxy_arg: CSharpExpression::Literal(CSharpLiteral::Default),
                };
            },
        };
        if matches!(transport, Transport::Span(_)) {
            let len_param = len_param.as_ref().unwrap();
            let len_name = CSharpParamName::from_source(len_param.as_str());
            let decode_ops = decode_ops.as_ref().unwrap();
            let base = stripped_name(&name);
            let mut reader_text = String::from_str("__boltffi");
            reader_text.append(base.as_str());
            reader_text.append("Reader");
            let reader_name = CSharpLocalName::new(reader_text.as_str());
            let normalized_reads = self.normalize_custom_read_seq(decode_ops);
            let decode_expr = self.decode_expr_from_reader(
                &normalized_reads,
                CSharpExpression::Identity(CSharpIdentity::Local(reader_name.clone())),
            );
            let encode_ops = self.normalize_custom_write_seq(encode_ops.as_ref().unwrap());
            let writer = self.callback_param_wire_writer_plan(&encode_ops, &name);
            let mut pin_text = String::from_str("_");
            pin_text.append(base.as_str());
            pin_text.append("Pin");
            let mut ptr_text = String::from_str("_");
            ptr_text.append(base.as_str());
            ptr_text.append("Ptr");
            CSharpCallbackBridgeParamPlan::WireEncoded {
                public_param,
                native_ptr_param: CSharpParameter::bare(CSharpType::IntPtr, name),
                native_len_param: CSharpParameter::bare(CSharpType::UIntPtr, len_name),
                reader_local: reader_name,
                decoded_arg: decode_expr,
                writer: Box::new(writer),
                pin_local: CSharpLocalName::new(pin_text.as_str()),
                ptr_local: CSharpLocalName::new(ptr_text.as_str()),
            }
        } else {
            let decode_expr = self.direct_decode_expr(&param.type_expr, &name);
            let proxy_expr = self.direct_proxy_arg_expr(&param.type_expr, &abi_param.abi_type, &name);
            CSharpCallbackBridgeParamPlan::Direct {
                public_param,
                native_param: native_param(&abi_param.abi_type, &name),
                decoded_arg: decode_expr,
                proxy_arg: proxy_expr,
            }
        }
    }
}

/// An encoded return: the public type, the normalized writes, and the
/// normalized reads with the expression that decodes them from
/// `__boltffiReader` when reads are given.
pub open spec fn encoded_return_spec(cat: TypeCatalog, public: CSharpType, shape: ReturnShape, is_result_value: bool, ret: CallbackReturn) -> bool {
    ret matches CallbackReturn::Encoded { public_type, decode_expr, encode_ops, decode_ops, is_result } && {
        &&& public_type == public
        &&& is_result == is_result_value
        &&& encode_ops@ == norm_write_seq(cat, shape.encode_ops->0@, depth(cat))
        &&& (shape.decode_ops is None ==> decode_ops is None)
        &&& (shape.decode_ops matches Some(d) ==> decode_ops matches Some(nd) && nd@ == norm_read_seq(cat, d@, depth(cat)))
        &&& (!is_result_value ==> (decode_expr is Some <==> shape.decode_ops is Some))
        &&& (!is_result_value ==> (decode_expr matches Some(e) ==> expr_text(e) == decode_seq_text(decode_ops->0@, "__boltffiReader"@)))
        &&& (is_result_value ==> decode_expr is None)
    }
}

/// A direct return with the given types, default texts and value plans.
pub open spec fn direct_return_spec(
    ret: CallbackReturn,
    native: CSharpType,
    native_out: CSharpType,
    sync_default: Seq<char>,
    async_default: Seq<char>,
    bool_marshalled: bool,
) -> bool {
    ret matches CallbackReturn::Direct {
        native_type,
        native_out_type,
        sync_default_value,
        async_default_value,
        marshals_bool,
        ..
    } && {
        &&& native_type == native
        &&& native_out_type == native_out
        &&& expr_text(sync_default_value) == sync_default
        &&& expr_text(async_default_value) == async_default
        &&& marshals_bool == bool_marshalled
    }
}

impl<'a> CSharpLowerer<'a> {
    /// How a value return of type `ty` crosses the boundary, by transport:
    /// nothing is returned without one; a scalar comes back directly, a
    /// `bool` as a byte and a C-style enum cast to and from its tag; a record
    /// is returned by value to an inline closure and wire-encoded otherwise,
    /// like a span; a callback comes back as a callback handle and a class
    /// as its native handle.
    pub open spec fn value_return_spec(&self, ty: TypeExpr, shape: ReturnShape, mode: CallbackReturnMode, ret: CallbackReturn) -> bool {
        let cat = self.ffi.catalog;
        &&& (!(ret is Void) ==> lowers_to(cat, ty, ret.public_type_spec(), depth(cat)))
        &&& match shape.transport {
            None => ret is Void,
            Some(Transport::Scalar(origin)) => {
                let p = origin.primitive_spec();
                let b = p == PrimitiveType::Bool;
                &&& direct_return_spec(
                    ret,
                    csharp_primitive(p),
                    if b { CSharpType::Byte } else { csharp_primitive(p) },
                    if b { crate::text::decimal_int(0) } else { "default"@ },
                    if b { "false"@ } else { "default"@ },
                    b,
                )
                &&& ret->sync_default_value == if b {
                    CSharpExpression::Literal(CSharpLiteral::Int(0))
                } else {
                    CSharpExpression::Literal(CSharpLiteral::Default)
                }
                &&& ret->async_default_value == if b {
                    CSharpExpression::Literal(CSharpLiteral::Bool(false))
                } else {
                    CSharpExpression::Literal(CSharpLiteral::Default)
                }
                &&& ret matches CallbackReturn::Direct { native_value, public_value, .. } && if b {
                    native_value is BoolToByte && public_value is ByteToBool
                } else if self.c_style_enum_spec(ty) {
                    native_value == CallbackNativeValuePlan::Cast(csharp_primitive(p)) && (public_value matches CallbackPublicValuePlan::Cast(t)
                        && lowers_to(cat, ty, t, depth(cat)))
                } else {
                    native_value is Identity && public_value is Identity
                }
            },
            Some(Transport::Composite(layout)) => if mode == CallbackReturnMode::InlineClosure {
                &&& ret matches CallbackReturn::Direct { native_type, native_value, public_value, .. } && {
                    &&& native_type matches CSharpType::Record(CSharpTypeReference::Plain(n)) && n@ == pascal_case(layout.record_id@)
                    &&& native_value is Identity
                    &&& public_value is Identity
                }
                &&& direct_return_spec(ret, ret->native_type, ret->native_type, "default"@, "default"@, false)
                &&& ret->sync_default_value == CSharpExpression::Literal(CSharpLiteral::Default)
                &&& ret->async_default_value == CSharpExpression::Literal(CSharpLiteral::Default)
            } else {
                encoded_return_spec(cat, ret.public_type_spec(), shape, false, ret)
            },
            Some(Transport::Span(_)) => encoded_return_spec(cat, ret.public_type_spec(), shape, false, ret),
            Some(Transport::Callback { callback_id, .. }) => {
                &&& ret matches CallbackReturn::Direct { native_type, native_value, public_value, .. } && {
                    &&& native_type.is_named_spec("BoltFFICallbackHandle"@)
                    &&& native_value matches CallbackNativeValuePlan::CallbackHandleCreate { bridge } && bridge@ == self.bridge_class_name_spec(callback_id@)
                    &&& public_value matches CallbackPublicValuePlan::CallbackHandleWrap { bridge } && bridge@ == self.bridge_class_name_spec(callback_id@)
                }
                &&& direct_return_spec(
                    ret,
                    ret->native_type,
                    ret->native_type,
                    "BoltFFICallbackHandle"@ + "."@ + "Null"@,
                    "BoltFFICallbackHandle"@ + "."@ + "Null"@,
                    false,
                )
                &&& is_type_member(ret->sync_default_value, "BoltFFICallbackHandle"@, "Null"@)
                &&& is_type_member(ret->async_default_value, "BoltFFICallbackHandle"@, "Null"@)
            },
            Some(Transport::Handle { .. }) => {
                &&& direct_return_spec(ret, CSharpType::IntPtr, CSharpType::IntPtr, "IntPtr"@ + "."@ + "Zero"@, "IntPtr"@ + "."@ + "Zero"@, false)
                &&& is_type_member(ret->sync_default_value, "IntPtr"@, "Zero"@)
                &&& is_type_member(ret->async_default_value, "IntPtr"@, "Zero"@)
                &&& ret matches CallbackReturn::Direct { native_value, public_value, .. } && native_value is HandleField && public_value is Identity
            },
        }
    }

    fn direct_return_native_value_plan(&self, type_expr: &TypeExpr, primitive: PrimitiveType) -> (res: CallbackNativeValuePlan)
        ensures
            res == if primitive == PrimitiveType::Bool {
                CallbackNativeValuePlan::BoolToByte
            } else if self.c_style_enum_spec(*type_expr) {
                CallbackNativeValuePlan::Cast(csharp_primitive(primitive))
            } else {
                CallbackNativeValuePlan::Identity
            },
    {
        if primitive == PrimitiveType::Bool {
            CallbackNativeValuePlan::BoolToByte
        } else if self.is_c_style_enum_type(type_expr) {
            CallbackNativeValuePlan::Cast(csharp_type_for_primitive(primitive))
        } else {
            CallbackNativeValuePlan::Identity
        }
    }

    fn direct_return_public_value_plan(&self, type_expr: &TypeExpr, primitive: PrimitiveType) -> (res: CallbackPublicValuePlan)
        requires
            type_ready(self.ffi.catalog, *type_expr),
        ensures
            if primitive == PrimitiveType::Bool {
                res is ByteToBool
            } else if self.c_style_enum_spec(*type_expr) {
                res matches CallbackPublicValuePlan::Cast(t) && lowers_to(self.ffi.catalog, *type_expr, t, depth(self.ffi.catalog))
            } else {
                res is Identity
            },
    {
        if primitive == PrimitiveType::Bool {
            CallbackPublicValuePlan::ByteToBool
        } else if self.is_c_style_enum_type(type_expr) {
            let ty = self.lower_type(type_expr).unwrap();
            CallbackPublicValuePlan::Cast(ty)
        } else {
            CallbackPublicValuePlan::Identity
        }
    }

    /// The encoded return of a composite or span value.
    fn encoded_value_return(&self, public_type: CSharpType, ret_shape: &ReturnShape) -> (res: CallbackReturn)
        requires
            writes_ready(self.ffi.catalog, ret_shape.encode_ops),
            reads_ready(self.ffi.catalog, ret_shape.decode_ops),
        ensures
            encoded_return_spec(self.ffi.catalog, public_type, *ret_shape, false, res),
    {
        let decode_ops = match &ret_shape.decode_ops {
            Some(ops) => Some(self.normalize_custom_read_seq(ops)),
            None => None,
        };
        let decode_expr = match &decode_ops {
            Some(ops) => Some(self.decode_expr_from_reader(ops, local_expr("__boltffiReader"))),
            None => None,
        };
        let encode_ops = self.normalize_custom_write_seq(ret_shape.encode_ops.as_ref().unwrap());
        CallbackReturn::Encoded { public_type, decode_expr, encode_ops, decode_ops, is_result: false }
    }

    /// How a value return crosses the boundary; see
    /// [`Self::value_return_spec`].
    pub fn callback_value_return(&self, ty: &TypeExpr, ret_shape: &ReturnShape, mode: CallbackReturnMode) -> (res: CallbackReturn)
        requires
            return_ready(self.ffi.catalog, ReturnDef::Value(*ty), *ret_shape, mode),
        ensures
            self.value_return_spec(*ty, *ret_shape, mode, res),
    {
        let public_type = self.lower_type(ty).unwrap();
        match &ret_shape.transport {
            None => CallbackReturn::Void,
            Some(Transport::Scalar(origin)) => {
                let primitive = origin.primitive();
                let native_type = csharp_type_for_primitive(primitive);
                let marshals_bool = primitive == PrimitiveType::Bool;
                let native_out_type = if marshals_bool { CSharpType::Byte } else { native_type.clone() };
                let sync_default_value = if marshals_bool {
                    CSharpExpression::Literal(CSharpLiteral::Int(0))
                } else {
                    CSharpExpression::Literal(CSharpLiteral::Default)
                };
                let async_default_value = if marshals_bool {
                    CSharpExpression::Literal(CSharpLiteral::Bool(false))
                } else {
                    CSharpExpression::Literal(CSharpLiteral::Default)
                };
                let native_value = self.direct_return_native_value_plan(ty, primitive);
                let public_value = self.direct_return_public_value_plan(ty, primitive);
                assert(expr_text(sync_default_value) == if marshals_bool { crate::text::decimal_int(0) } else { "default"@ });
                assert(expr_text(async_default_value) == if marshals_bool { "false"@ } else { "default"@ });
                CallbackReturn::Direct {
                    public_type,
                    native_type,
                    native_out_type,
                    sync_default_value,
                    async_default_value,
                    native_value,
                    public_value,
                    marshals_bool,
                }
            },
            Some(Transport::Composite(layout)) => {
                if mode == CallbackReturnMode::InlineClosure {
                    let native_type = CSharpType::Record(
                        CSharpTypeReference::Plain(CSharpClassName::from_source(layout.record_id.as_str())),
                    );
                    let d1 = CSharpExpression::Literal(CSharpLiteral::Default);
                    let d2 = CSharpExpression::Literal(CSharpLiteral::Default);
                    assert(expr_text(d1) == "default"@);
                    assert(expr_text(d2) == "default"@);
                    CallbackReturn::Direct {
                        public_type,
                        native_type: native_type.clone(),
                        native_out_type: native_type,
                        sync_default_value: d1,
                        async_default_value: d2,
                        native_value: CallbackNativeValuePlan::Identity,
                        public_value: CallbackPublicValuePlan::Identity,
                        marshals_bool: false,
                    }
                } else {
                    self.encoded_value_return(public_type, ret_shape)
                }
            },
            Some(Transport::Callback { callback_id, .. }) => {
                let bridge = self.callback_bridge_class_name(callback_id);
                let handle_type = named_type("BoltFFICallbackHandle");
                CallbackReturn::Direct {
                    public_type,
                    native_type: handle_type.clone(),
                    native_out_type: handle_type,
                    sync_default_value: type_member_expr("BoltFFICallbackHandle", "Null"),
                    async_default_value: type_member_expr("BoltFFICallbackHandle", "Null"),
                    native_value: CallbackNativeValuePlan::CallbackHandleCreate { bridge: bridge.clone() },
                    public_value: CallbackPublicValuePlan::CallbackHandleWrap { bridge },
                    marshals_bool: false,
                }
            },
            Some(Transport::Handle { .. }) => CallbackReturn::Direct {
                public_type,
                native_type: CSharpType::IntPtr,
                native_out_type: CSharpType::IntPtr,
                sync_default_value: type_member_expr("IntPtr", "Zero"),
                async_default_value: type_member_expr("IntPtr", "Zero"),
                native_value: CallbackNativeValuePlan::HandleField,
                public_value: CallbackPublicValuePlan::Identity,
                marshals_bool: false,
            },
            Some(Transport::Span(_)) => self.encoded_value_return(public_type, ret_shape),
        }
    }

    /// How any return crosses the boundary: nothing for `()`, a value as in
    /// [`Self::callback_value_return`], and a result always wire-encoded,
    /// with its `Ok` type as the public type.
    pub open spec fn return_spec(&self, ret_def: ReturnDef, shape: ReturnShape, mode: CallbackReturnMode, ret: CallbackReturn) -> bool {
        match ret_def {
            ReturnDef::Void => ret is Void,
            ReturnDef::Value(ty) => self.value_return_spec(ty, shape, mode, ret),
            ReturnDef::Result { ok, .. } => {
                &&& (ok is Void ==> ret.public_type_spec() is Void)
                &&& (!(ok is Void) ==> lowers_to(self.ffi.catalog, ok, ret.public_type_spec(), depth(self.ffi.catalog)))
                &&& encoded_return_spec(self.ffi.catalog, ret.public_type_spec(), shape, true, ret)
            },
        }
    }

    /// How a return crosses the boundary; see [`Self::return_spec`].
    pub fn callback_return(&self, ret_def: &ReturnDef, ret_shape: &ReturnShape, mode: CallbackReturnMode) -> (res: CallbackReturn)
        requires
            return_ready(self.ffi.catalog, *ret_def, *ret_shape, mode),
        ensures
            self.return_spec(*ret_def, *ret_shape, mode, res),
            return_wf(res),
            res is Encoded <==> return_encoded(*ret_def, *ret_shape, mode),
    {
        proof {
            if ret_shape.encode_ops is Some {
                let e = ret_shape.encode_ops->0;
                if write_seq_wf(self.ffi.catalog, e@, depth(self.ffi.catalog)) {
                    crate::csharp_custom::lemma_norm_write_seq_custom_free(self.ffi.catalog, e@, depth(self.ffi.catalog));
                }
            }
        }
        match ret_def {
            ReturnDef::Void => CallbackReturn::Void,
            ReturnDef::Value(ty) => self.callback_value_return(ty, ret_shape, mode),
            ReturnDef::Result { ok, .. } => {
                let public_type = if matches!(ok, TypeExpr::Void) {
                    CSharpType::Void
                } else {
                    self.lower_type(ok).unwrap()
                };
                let encode_ops = self.normalize_custom_write_seq(ret_shape.encode_ops.as_ref().unwrap());
                let decode_ops = match &ret_shape.decode_ops {
                    Some(ops) => Some(self.normalize_custom_read_seq(ops)),
                    None => None,
                };
                CallbackReturn::Encoded { public_type, decode_expr: None, encode_ops, decode_ops, is_result: true }
            },
        }
    }
}

/// Two parameters spelled alike, with the same type, name and modifier.
pub open spec fn param_like(a: CSharpParameter, b: CSharpParameter) -> bool {
    &&& param_text(a) == param_text(b)
    &&& a.csharp_type == b.csharp_type
    &&& a.name == b.name
    &&& a.modifier == b.modifier
}

/// The native parameters of the bridge parameters, in order.
pub open spec fn flat_native_params(bps: Seq<CSharpCallbackBridgeParamPlan>) -> Seq<CSharpParameter>
    decreases bps.len(),
{
    if bps.len() == 0 {
        Seq::empty()
    } else {
        flat_native_params(bps.drop_last()) + bps.last().native_params_spec()
    }
}

/// `list` extended by parameters like `more`, the old ones kept as they were.
pub open spec fn extended_by(old_list: Seq<CSharpParameter>, new_list: Seq<CSharpParameter>, more: Seq<CSharpParameter>) -> bool {
    &&& new_list.len() == old_list.len() + more.len()
    &&& new_list.take(old_list.len() as int) == old_list
    &&& forall|i: int| 0 <= i < more.len() ==> param_like(#[trigger] new_list[old_list.len() + i], more[i])
}

/// Appends the native parameters of every bridge parameter.
fn extend_native_params(list: &mut CSharpParameterList, bps: &Vec<CSharpCallbackBridgeParamPlan>)
    ensures
        extended_by(old(list).params@, final(list).params@, flat_native_params(bps@)),
{
    let ghost start = list.params@;
    let mut i: usize = 0;
    assert(bps@.take(0) =~= Seq::<CSharpCallbackBridgeParamPlan>::empty());
    assert(start.take(start.len() as int) =~= start);
    while i < bps.len()
        invariant
            i <= bps@.len(),
            extended_by(start, list.params@, flat_native_params(bps@.take(i as int))),
        decreases bps.len() - i,
    {
        let natives = bps[i].native_params();
        let ghost before = list.params@;
        let ghost flat_before = flat_native_params(bps@.take(i as int));
        list.extend(natives);
        proof {
            assert(bps@.take(i + 1).drop_last() =~= bps@.take(i as int));
            let flat_after = flat_native_params(bps@.take(i + 1));
            assert(flat_after == flat_before + bps@[i as int].native_params_spec());
            assert(list.params@.take(start.len() as int) =~= start) by {
                assert(before.take(start.len() as int) == start);
            }
            assert forall|j: int| 0 <= j < flat_after.len() implies param_like(#[trigger] list.params@[start.len() + j], flat_after[j]) by {
                if j < flat_before.len() {
                    assert(list.params@[start.len() + j] == before[start.len() + j]);
                } else {
                    let k = j - flat_before.len();
                    assert(list.params@[start.len() + j] == natives@[k]);
                }
            }
        }
        i = i + 1;
    }
    assert(bps@.take(bps@.len() as int) =~= bps@);
}

/// The native parameters of a synchronous entry point: the handle, the
/// native parameters of each bridge parameter, the `out` slots of the
/// return value, and the `out` status.
pub open spec fn sync_native_params_spec(bps: Seq<CSharpCallbackBridgeParamPlan>, ret: CallbackReturn, res: Seq<CSharpParameter>) -> bool {
    let n: int = flat_native_params(bps).len() as int;
    let k: int = match ret {
        CallbackReturn::Void => 0,
        CallbackReturn::Direct { .. } => 1,
        CallbackReturn::Encoded { .. } => 2,
    };
    &&& res.len() == 1 + n + k + 1
    &&& bare_param(res[0], CSharpType::ULong, "handle"@)
    &&& forall|i: int| 0 <= i < n ==> param_like(#[trigger] res[1 + i], flat_native_params(bps)[i])
    &&& (ret matches CallbackReturn::Direct { native_out_type, .. } ==> out_param(res[1 + n], native_out_type, "__boltffiOutPtr"@))
    &&& (ret is Encoded ==> out_param(res[1 + n], CSharpType::IntPtr, "__boltffiOutPtr"@) && out_param(res[2 + n], CSharpType::UIntPtr, "__boltffiOutLen"@))
    &&& res[1 + n + k].name@ == "__boltffiStatus"@
    &&& res[1 + n + k].csharp_type.is_named_spec("FfiStatus"@)
    &&& res[1 + n + k].modifier == Some(CSharpParamModifier::Out)
    &&& res[1 + n + k].attributes@.len() == 0
}

/// The native parameters of an asynchronous entry point: the handle, the
/// native parameters of each bridge parameter, the completion callback
/// (`<Method>Completion`) and its data.
pub open spec fn async_native_params_spec(method_name: Seq<char>, bps: Seq<CSharpCallbackBridgeParamPlan>, res: Seq<CSharpParameter>) -> bool {
    let n: int = flat_native_params(bps).len() as int;
    &&& res.len() == 1 + n + 2
    &&& bare_param(res[0], CSharpType::ULong, "handle"@)
    &&& forall|i: int| 0 <= i < n ==> param_like(#[trigger] res[1 + i], flat_native_params(bps)[i])
    &&& res[1 + n].csharp_type.is_named_spec(method_name + "Completion"@) && res[1 + n].name@ == "callback"@
    &&& res[1 + n].modifier is None
    &&& bare_param(res[2 + n], CSharpType::ULong, "callbackData"@)
}

/// The parameters of the completion of an asynchronous method: its data,
/// the value (a marshalled `bool`, the native value, or a pointer and a
/// length), and the status.
pub open spec fn completion_params_spec(ret: CallbackReturn, res: Seq<CSharpParameter>) -> bool {
    let k: int = match ret {
        CallbackReturn::Void => 0,
        CallbackReturn::Direct { .. } => 1,
        CallbackReturn::Encoded { .. } => 2,
    };
    &&& res.len() == 1 + k + 1
    &&& bare_param(res[0], CSharpType::ULong, "callbackData"@)
    &&& (ret matches CallbackReturn::Direct { native_type, marshals_bool, .. } ==> if marshals_bool {
        res[1].csharp_type is Bool && res[1].name@ == "value"@ && res[1].modifier is None
            && attributes_text(res[1].attributes@) == marshal_as_i1_text() + " "@
    } else {
        bare_param(res[1], native_type, "value"@)
    })
    &&& (ret is Encoded ==> bare_param(res[1], CSharpType::IntPtr, "valuePtr"@) && bare_param(res[2], CSharpType::UIntPtr, "valueLen"@))
    &&& res[1 + k].name@ == "__boltffiStatus"@
    &&& res[1 + k].csharp_type.is_named_spec("FfiStatus"@)
    &&& res[1 + k].modifier is None
}

impl<'a> CSharpLowerer<'a> {
    /// The native parameters of a synchronous entry point; see
    /// [`sync_native_params_spec`].
    fn sync_callback_native_params(&self, params: &Vec<CSharpCallbackBridgeParamPlan>, ret: &CallbackReturn) -> (res: CSharpParameterList)
        ensures
            sync_native_params_spec(params@, *ret, res.params@),
    {
        let mut decls = CSharpParameterList::empty();
        decls.push(CSharpParameter::bare(CSharpType::ULong, CSharpParamName::new("handle")));
        extend_native_params(&mut decls, params);
        let ghost mid = decls.params@;
        match ret {
            CallbackReturn::Void => {},
            CallbackReturn::Direct { native_out_type, .. } => {
                decls.push(CSharpParameter::out(native_out_type.clone(), CSharpParamName::new("__boltffiOutPtr")));
            },
            CallbackReturn::Encoded { .. } => {
                decls.push(CSharpParameter::out(CSharpType::IntPtr, CSharpParamName::new("__boltffiOutPtr")));
                decls.push(CSharpParameter::out(CSharpType::UIntPtr, CSharpParamName::new("__boltffiOutLen")));
            },
        }
        let ghost before_status = decls.params@;
        decls.push(CSharpParameter::out(named_type("FfiStatus"), CSharpParamName::new("__boltffiStatus")));
        proof {
            let n = flat_native_params(params@).len();
            assert forall|i: int| 0 <= i < n implies param_like(#[trigger] decls.params@[1 + i], flat_native_params(params@)[i]) by {
                assert(decls.params@[1 + i] == mid[1 + i]);
            }
            assert(decls.params@[0] == mid.take(1)[0]);
        }
        decls
    }

    /// The native parameters of an asynchronous entry point; see
    /// [`async_native_params_spec`].
    fn async_callback_native_params(&self, method_name: &CSharpMethodName, params: &Vec<CSharpCallbackBridgeParamPlan>) -> (res: CSharpParameterList)
        ensures
            async_native_params_spec(method_name@, params@, res.params@),
    {
        let mut decls = CSharpParameterList::empty();
        decls.push(CSharpParameter::bare(CSharpType::ULong, CSharpParamName::new("handle")));
        extend_native_params(&mut decls, params);
        let ghost mid = decls.params@;
        let mut completion = method_name.to_string();
        completion.append("Completion");
        decls.push(CSharpParameter::bare(named_type(completion.as_str()), CSharpParamName::new("callback")));
        decls.push(CSharpParameter::bare(CSharpType::ULong, CSharpParamName::new("callbackData")));
        proof {
            let n = flat_native_params(params@).len();
            assert forall|i: int| 0 <= i < n implies param_like(#[trigger] decls.params@[1 + i], flat_native_params(params@)[i]) by {
                assert(decls.params@[1 + i] == mid[1 + i]);
            }
            assert(decls.params@[0] == mid.take(1)[0]);
        }
        decls
    }

    /// The parameters of the completion of an asynchronous method; see
    /// [`completion_params_spec`].
    fn async_completion_params(&self, ret: &CallbackReturn) -> (res: CSharpParameterList)
        ensures
            completion_params_spec(*ret, res.params@),
    {
        let mut decls = CSharpParameterList::empty();
        decls.push(CSharpParameter::bare(CSharpType::ULong, CSharpParamName::new("callbackData")));
        match ret {
            CallbackReturn::Void => {},
            CallbackReturn::Direct { native_type, marshals_bool, .. } => {
                if *marshals_bool {
                    let mut attributes: Vec<CSharpAttribute> = Vec::new();
                    let a = marshal_as_i1();
                    attributes.push(a);
                    let p = CSharpParameter { attributes, modifier: None, csharp_type: CSharpType::Bool, name: CSharpParamName::new("value") };
                    proof {
                        assert(p.attributes@.drop_last() =~= Seq::<CSharpAttribute>::empty());
                        assert(attributes_text(Seq::<CSharpAttribute>::empty()) == Seq::<char>::empty());
                        assert(attributes_text(p.attributes@) =~= crate::csharp_ast::attribute_text(a) + " "@);
                    }
                    decls.push(p);
                } else {
                    decls.push(CSharpParameter::bare(native_type.clone(), CSharpParamName::new("value")));
                }
            },
            CallbackReturn::Encoded { .. } => {
                decls.push(CSharpParameter::bare(CSharpType::IntPtr, CSharpParamName::new("valuePtr")));
                decls.push(CSharpParameter::bare(CSharpType::UIntPtr, CSharpParamName::new("valueLen")));
            },
        }
        decls.push(CSharpParameter::bare(named_type("FfiStatus"), CSharpParamName::new("__boltffiStatus")));
        decls
    }

    /// What the `out` slots of a synchronous entry are set to first: the
    /// default native value of a direct return.
    fn sync_out_initializer(&self, ret: &CallbackReturn) -> (res: CSharpSyncCallbackOutInitializerPlan)
        ensures
            match *ret {
                CallbackReturn::Void => res is Void,
                CallbackReturn::Direct { sync_default_value, .. } => res matches CSharpSyncCallbackOutInitializerPlan::Direct { default_value }
                    && expr_text(default_value) == expr_text(sync_default_value),
                CallbackReturn::Encoded { .. } => res is Encoded,
            },
    {
        match ret {
            CallbackReturn::Void => CSharpSyncCallbackOutInitializerPlan::Void,
            CallbackReturn::Direct { sync_default_value, .. } => CSharpSyncCallbackOutInitializerPlan::Direct {
                default_value: sync_default_value.clone(),
            },
            CallbackReturn::Encoded { .. } => CSharpSyncCallbackOutInitializerPlan::Encoded,
        }
    }

    /// How an asynchronous entry reports a failure: with the default native
    /// value of a direct return.
    fn async_failure_completion(&self, ret: &CallbackReturn) -> (res: CSharpAsyncCallbackFailurePlan)
        ensures
            failure_spec(*ret, res),
    {
        match ret {
            CallbackReturn::Void => CSharpAsyncCallbackFailurePlan::Void,
            CallbackReturn::Direct { async_default_value, .. } => CSharpAsyncCallbackFailurePlan::Direct {
                default_value: async_default_value.clone(),
            },
            CallbackReturn::Encoded { .. } => CSharpAsyncCallbackFailurePlan::Encoded,
        }
    }

    /// The native type an inline closure returns: nothing, the native
    /// value, or an `FfiBuf` holding the encoded value.
    fn inline_callback_native_return_type(&self, ret: &CallbackReturn) -> (res: CSharpType)
        ensures
            match *ret {
                CallbackReturn::Void => res is Void,
                CallbackReturn::Direct { native_type, .. } => res == native_type,
                CallbackReturn::Encoded { .. } => res.is_named_spec("FfiBuf"@),
            },
    {
        match ret {
            CallbackReturn::Void => CSharpType::Void,
            CallbackReturn::Direct { native_type, .. } => native_type.clone(),
            CallbackReturn::Encoded { .. } => named_type("FfiBuf"),
        }
    }
}

/// How an asynchronous entry reports a failure of a return.
pub open spec fn failure_spec(ret: CallbackReturn, res: CSharpAsyncCallbackFailurePlan) -> bool {
    match ret {
        CallbackReturn::Void => res is Void,
        CallbackReturn::Direct { async_default_value, .. } => res matches CSharpAsyncCallbackFailurePlan::Direct { default_value }
            && expr_text(default_value) == expr_text(async_default_value),
        CallbackReturn::Encoded { .. } => res is Encoded,
    }
}

/// The exception type raised for the error type `id`.
fn exception_type_named(id: &str) -> (res: CSharpType)
    ensures
        res.is_named_spec(pascal_case(id@) + "Exception"@),
{
    let mut name = CSharpClassName::from_source(id).to_string();
    name.append("Exception");
    named_type(name.as_str())
}

/// A type that mentions no custom type resolves with any fuel.
pub proof fn lemma_custom_free_resolves(cat: TypeCatalog, ty: TypeExpr, fuel: nat)
    requires
        !mentions_custom(ty),
    ensures
        customs_resolve(cat, ty, fuel),
    decreases ty,
{
    match ty {
        TypeExpr::Vec(inner) => lemma_custom_free_resolves(cat, *inner, fuel),
        TypeExpr::Option(inner) => lemma_custom_free_resolves(cat, *inner, fuel),
        TypeExpr::Result { ok, err } => {
            lemma_custom_free_resolves(cat, *ok, fuel);
            lemma_custom_free_resolves(cat, *err, fuel);
        },
        _ => {},
    }
}

/// Whether the value a write sequence encodes has a C# type of its own: a
/// primitive, string, bytes, record or enum, an option of one, or an array
/// whose element type has a C# spelling; a nested result has none.
pub open spec fn has_branch_type(cat: TypeCatalog, m: WriteSeqModel) -> bool
    decreases m,
{
    m.ops.len() > 0 && match m.ops[0] {
        WriteOpModel::Option { some, .. } => has_branch_type(cat, *some),
        WriteOpModel::Vec { element_type, .. } => lowerable(cat, element_type, depth(cat)),
        WriteOpModel::Custom { underlying, .. } => has_branch_type(cat, *underlying),
        WriteOpModel::Result { .. } => false,
        _ => true,
    }
}

/// `t` is the C# type of the value a write sequence encodes.
pub open spec fn branch_type(cat: TypeCatalog, m: WriteSeqModel, t: CSharpType) -> bool
    decreases m,
{
    m.ops.len() > 0 && match m.ops[0] {
        WriteOpModel::Primitive { primitive, .. } => t == csharp_primitive(primitive),
        WriteOpModel::String { .. } => t is String,
        WriteOpModel::Bytes { .. } => t matches CSharpType::Array(e) && *e is Byte,
        WriteOpModel::Record { id, .. } => t matches CSharpType::Record(CSharpTypeReference::Plain(n)) && n@ == pascal_case(id@),
        WriteOpModel::Enum { id, .. } => t matches CSharpType::DataEnum(CSharpTypeReference::Plain(n)) && n@ == pascal_case(id@),
        WriteOpModel::Option { some, .. } => t matches CSharpType::Nullable(inner) && branch_type(cat, *some, *inner),
        WriteOpModel::Vec { element_type, .. } => t matches CSharpType::Array(inner) && lowers_to(cat, element_type, *inner, depth(cat)),
        WriteOpModel::Custom { underlying, .. } => branch_type(cat, *underlying, t),
        WriteOpModel::Result { .. } => false,
    }
}

/// Whether the value a write sequence encodes is an error record or enum,
/// which C# raises as `<Name>Exception`.
pub open spec fn has_error_exception(cat: TypeCatalog, m: WriteSeqModel) -> bool
    decreases m,
{
    m.ops.len() > 0 && match m.ops[0] {
        WriteOpModel::Record { id, .. } => {
            let k = cat.record_index(id@);
            0 <= k < cat.records@.len() && cat.records@[k].is_error
        },
        WriteOpModel::Enum { id, .. } => {
            let k = cat.enum_index(id@);
            0 <= k < cat.enums@.len() && cat.enums@[k].is_error
        },
        WriteOpModel::Custom { underlying, .. } => has_error_exception(cat, *underlying),
        _ => false,
    }
}

/// `t` is the exception type of an error record or enum.
pub open spec fn error_exception(cat: TypeCatalog, m: WriteSeqModel, t: CSharpType) -> bool
    decreases m,
{
    m.ops.len() > 0 && match m.ops[0] {
        WriteOpModel::Record { id, .. } => t.is_named_spec(pascal_case(id@) + "Exception"@),
        WriteOpModel::Enum { id, .. } => t.is_named_spec(pascal_case(id@) + "Exception"@),
        WriteOpModel::Custom { underlying, .. } => error_exception(cat, *underlying, t),
        _ => false,
    }
}

/// `t` is the C# type of one branch of a result: its own type, or `fallback`
/// when it has none.
pub open spec fn branch_or(cat: TypeCatalog, m: WriteSeqModel, t: CSharpType, fallback: Seq<char>) -> bool {
    if has_branch_type(cat, m) {
        branch_type(cat, m, t)
    } else {
        t.is_named_spec(fallback)
    }
}

/// The C# types of the branches of a result encoded by `m`: `BoltFFIUnit`
/// for an `Ok` with no type and `object` for an error with none; `object`
/// for both when `m` does not encode a result.
pub open spec fn result_type_spec(cat: TypeCatalog, m: WriteSeqModel, plan: CSharpResultTypePlan) -> bool {
    if m.ops.len() > 0 && m.ops[0] is Result {
        match m.ops[0] {
            WriteOpModel::Result { ok, err, .. } => branch_or(cat, *ok, plan.ok_type, "BoltFFIUnit"@) && branch_or(
                cat,
                *err,
                plan.err_type,
                "object"@,
            ),
            _ => false,
        }
    } else {
        plan.ok_type.is_named_spec("object"@) && plan.err_type.is_named_spec("object"@)
    }
}

/// Which exception a fallible C# implementation's error is caught as: the
/// typed exception of an error record or enum, the message of any
/// exception for a string error, and none otherwise.
pub open spec fn result_catch_spec(cat: TypeCatalog, m: WriteSeqModel, res: Option<CSharpCallbackResultCatchPlan>) -> bool {
    if m.ops.len() > 0 && m.ops[0] is Result {
        match m.ops[0] {
            WriteOpModel::Result { err, .. } => if has_error_exception(cat, *err) {
                res matches Some(CSharpCallbackResultCatchPlan::TypedException { exception_type }) && error_exception(cat, *err, exception_type)
            } else if has_branch_type(cat, *err) && branch_type(cat, *err, CSharpType::String) {
                res matches Some(CSharpCallbackResultCatchPlan::ExceptionMessage)
            } else {
                res is None
            },
            _ => false,
        }
    } else {
        res is None
    }
}

impl<'a> CSharpLowerer<'a> {
    /// The C# type of the value a write sequence encodes; see
    /// [`branch_type`].
    fn result_branch_type(&self, seq: &WriteSeq) -> (res: Option<CSharpType>)
        requires
            write_seq_custom_free(seq@),
        ensures
            res is Some <==> has_branch_type(self.ffi.catalog, seq@),
            res matches Some(t) ==> branch_type(self.ffi.catalog, seq@, t),
        decreases seq,
    {
        proof {
            lemma_write_ops_model_index(seq.ops@, 0);
        }
        if seq.ops.len() == 0 {
            return None;
        }
        proof {
            lemma_write_ops_free_at(seq@.ops, 0);
            assert(decreases_to!(seq.ops@ => seq.ops@[0]));
        }
        match &seq.ops[0] {
            WriteOp::Primitive { primitive, .. } => Some(csharp_type_for_primitive(*primitive)),
            WriteOp::String { .. } => Some(CSharpType::String),
            WriteOp::Bytes { .. } => Some(CSharpType::Array(Box::new(CSharpType::Byte))),
            WriteOp::Record { id, .. } => Some(CSharpType::Record(CSharpTypeReference::Plain(CSharpClassName::from_source(id.as_str())))),
            WriteOp::Enum { id, .. } => Some(CSharpType::DataEnum(CSharpTypeReference::Plain(CSharpClassName::from_source(id.as_str())))),
            WriteOp::Option { some, .. } => match self.result_branch_type(some) {
                Some(inner) => Some(CSharpType::Nullable(Box::new(inner))),
                None => None,
            },
            WriteOp::Vec { element_type, .. } => {
                proof {
                    lemma_custom_free_resolves(self.ffi.catalog, *element_type, depth(self.ffi.catalog));
                }
                match self.lower_type(element_type) {
                    Some(inner) => Some(CSharpType::Array(Box::new(inner))),
                    None => None,
                }
            },
            WriteOp::Custom { underlying, .. } => self.result_branch_type(underlying),
            WriteOp::Result { .. } => None,
        }
    }

    fn is_error_record(&self, id: &crate::ids::RecordId) -> (res: bool)
        ensures
            res == {
                let k = self.ffi.catalog.record_index(id@);
                0 <= k < self.ffi.catalog.records@.len() && self.ffi.catalog.records@[k].is_error
            },
    {
        match self.ffi.catalog.resolve_record(id) {
            Some(record) => record.is_error,
            None => false,
        }
    }

    fn is_error_enum(&self, id: &crate::ids::EnumId) -> (res: bool)
        ensures
            res == {
                let k = self.ffi.catalog.enum_index(id@);
                0 <= k < self.ffi.catalog.enums@.len() && self.ffi.catalog.enums@[k].is_error
            },
    {
        match self.ffi.catalog.resolve_enum(id) {
            Some(enumeration) => enumeration.is_error,
            None => false,
        }
    }

    /// The exception type of an error record or enum; see
    /// [`error_exception`].
    #[verifier::rlimit(40)]
    fn error_exception_for_write_seq(&self, seq: &WriteSeq) -> (res: Option<CSharpType>)
        ensures
            res is Some <==> has_error_exception(self.ffi.catalog, seq@),
            res matches Some(t) ==> error_exception(self.ffi.catalog, seq@, t),
        decreases seq,
    {
        proof {
            lemma_write_ops_model_index(seq.ops@, 0);
        }
        if seq.ops.len() == 0 {
            return None;
        }
        proof {
            assert(decreases_to!(seq.ops@ => seq.ops@[0]));
        }
        match &seq.ops[0] {
            WriteOp::Record { id, .. } => {
                if self.is_error_record(id) {
                    Some(exception_type_named(id.as_str()))
                } else {
                    None
                }
            },
            WriteOp::Enum { id, .. } => {
                if self.is_error_enum(id) {
                    Some(exception_type_named(id.as_str()))
                } else {
                    None
                }
            },
            WriteOp::Custom { underlying, .. } => self.error_exception_for_write_seq(underlying),
            _ => None,
        }
    }

    /// The C# types of the branches of an encoded result; see
    /// [`result_type_spec`].
    fn result_type_for_encode_ops(&self, encode_ops: &WriteSeq) -> (res: CSharpResultTypePlan)
        requires
            write_seq_custom_free(encode_ops@),
        ensures
            result_type_spec(self.ffi.catalog, encode_ops@, res),
    {
        proof {
            lemma_write_ops_model_index(encode_ops.ops@, 0);
        }
        if encode_ops.ops.len() > 0 {
            if let WriteOp::Result { ok, err, .. } = &encode_ops.ops[0] {
                proof {
                    lemma_write_ops_free_at(encode_ops@.ops, 0);
                }
                let ok_type = match self.result_branch_type(ok) {
                    Some(t) => t,
                    None => named_type("BoltFFIUnit"),
                };
                let err_type = match self.result_branch_type(err) {
                    Some(t) => t,
                    None => named_type("object"),
                };
                return CSharpResultTypePlan { ok_type, err_type };
            }
        }
        CSharpResultTypePlan { ok_type: named_type("object"), err_type: named_type("object") }
    }

    /// Which exception the error of a fallible implementation is caught
    /// as; see [`result_catch_spec`].
    fn result_catch_for_encode_ops(&self, encode_ops: &WriteSeq) -> (res: Option<CSharpCallbackResultCatchPlan>)
        requires
            write_seq_custom_free(encode_ops@),
        ensures
            result_catch_spec(self.ffi.catalog, encode_ops@, res),
    {
        proof {
            lemma_write_ops_model_index(encode_ops.ops@, 0);
        }
        if encode_ops.ops.len() == 0 {
            return None;
        }
        match &encode_ops.ops[0] {
            WriteOp::Result { err, .. } => {
                proof {
                    lemma_write_ops_free_at(encode_ops@.ops, 0);
                }
                let err_type = self.result_branch_type(err);
                match self.error_exception_for_write_seq(err) {
                    Some(exception) => Some(CSharpCallbackResultCatchPlan::TypedException { exception_type: exception }),
                    None => {
                        let is_string = match &err_type {
                            Some(t) => t.is_string(),
                            None => false,
                        };
                        proof {
                            if has_branch_type(self.ffi.catalog, err@) && branch_type(self.ffi.catalog, err@, CSharpType::String) {
                                lemma_branch_type_unique(self.ffi.catalog, err@, err_type->0, CSharpType::String);
                            }
                        }
                        if is_string {
                            Some(CSharpCallbackResultCatchPlan::ExceptionMessage)
                        } else {
                            None
                        }
                    },
                }
            },
            _ => None,
        }
    }

    /// How the result of a fallible implementation is computed: the call of
    /// `method_name` on `receiver`, kept as a value unless the `Ok` type is
    /// void or `BoltFFIUnit`, and the exception that becomes the error.
    fn result_assignment_plan(
        &self,
        receiver: CSharpExpression,
        method_name: CSharpMethodName,
        decoded_args: CSharpArgumentList,
        encode_ops: &WriteSeq,
    ) -> (res: CSharpCallbackResultAssignmentPlan)
        requires
            write_seq_custom_free(encode_ops@),
        ensures
            result_type_spec(self.ffi.catalog, encode_ops@, res.result_type),
            result_catch_spec(self.ffi.catalog, encode_ops@, res.catch),
            (res.ok is Void) == (res.result_type.ok_type is Void || res.result_type.ok_type.is_named_spec("BoltFFIUnit"@)),
            match res.ok {
                CSharpCallbackResultOkPlan::Void { receiver: r, method_name: m, args } => expr_text(r) == expr_text(receiver)
                    && m == method_name && crate::csharp_ast::exprs_text(args.args@) == crate::csharp_ast::exprs_text(decoded_args.args@),
                CSharpCallbackResultOkPlan::Value { receiver: r, method_name: m, args } => expr_text(r) == expr_text(receiver)
                    && m == method_name && crate::csharp_ast::exprs_text(args.args@) == crate::csharp_ast::exprs_text(decoded_args.args@),
            },
    {
        let result_type = self.result_type_for_encode_ops(encode_ops);
        let ok = if result_type.ok_type.is_void() || result_type.ok_type.is_named("BoltFFIUnit") {
            CSharpCallbackResultOkPlan::Void { receiver, method_name, args: decoded_args }
        } else {
            CSharpCallbackResultOkPlan::Value { receiver, method_name, args: decoded_args }
        };
        CSharpCallbackResultAssignmentPlan { result_type, ok, catch: self.result_catch_for_encode_ops(encode_ops) }
    }

    /// How a proxy decodes a result read back from `reader_name`: the error
    /// branch always, the `Ok` branch when it carries reads; `null` and
    /// nothing when the reads do not start with a result.
    fn result_decode_plan(&self, decode_ops: &ReadSeq, reader_name: &str) -> (res: CSharpCallbackResultDecodePlan)
        ensures
            if decode_ops@.ops.len() > 0 && decode_ops@.ops[0] is Result {
                match decode_ops@.ops[0] {
                    ReadOpModel::Result { ok, err, .. } => {
                        &&& expr_text(res.err_expr) == decode_seq_text(*err, reader_name@)
                        &&& (ok.ops.len() == 0 ==> res.ok_expr is None)
                        &&& (ok.ops.len() > 0 ==> (res.ok_expr matches Some(e) && expr_text(e) == decode_seq_text(*ok, reader_name@)))
                    },
                    _ => false,
                }
            } else {
                expr_text(res.err_expr) == "null"@ && res.ok_expr is None
            },
    {
        proof {
            crate::csharp_custom::lemma_read_ops_model_index(decode_ops.ops@, 0);
        }
        if decode_ops.ops.len() > 0 {
            if let ReadOp::Result { ok, err, .. } = &decode_ops.ops[0] {
                let reader = local_expr(reader_name);
                let err_expr = lower_decode_expr(err, &reader);
                proof {
                    crate::csharp_custom::lemma_read_ops_model_index(ok.ops@, 0);
                }
                let ok_expr = if ok.ops.len() == 0 {
                    None
                } else {
                    Some(lower_decode_expr(ok, &reader))
                };
                return CSharpCallbackResultDecodePlan { err_expr, ok_expr };
            }
        }
        let null = CSharpExpression::Literal(CSharpLiteral::Null);
        assert(expr_text(null) == "null"@);
        CSharpCallbackResultDecodePlan { err_expr: null, ok_expr: None }
    }
}

/// The C# type of a branch is unique.
pub proof fn lemma_branch_type_unique(cat: TypeCatalog, m: WriteSeqModel, t1: CSharpType, t2: CSharpType)
    requires
        branch_type(cat, m, t1),
        branch_type(cat, m, t2),
        t1 is String || t2 is String,
    ensures
        t1 is String && t2 is String,
    decreases m,
{
    if let WriteOpModel::Custom { underlying, .. } = m.ops[0] {
        lemma_branch_type_unique(cat, *underlying, t1, t2);
    }
}

/// The writes of an encoded return hold no custom type, as callback
/// lowering leaves them.
pub open spec fn return_wf(ret: CallbackReturn) -> bool {
    ret matches CallbackReturn::Encoded { encode_ops, .. } ==> write_seq_custom_free(encode_ops@)
}

/// Arguments spelled like the decoded arguments of the bridge parameters.
pub open spec fn decoded_args_like(args: Seq<CSharpExpression>, params: Seq<CSharpCallbackBridgeParamPlan>) -> bool {
    &&& args.len() == params.len()
    &&& forall|i: int| 0 <= i < args.len() ==> expr_text(#[trigger] args[i]) == expr_text(params[i].decoded_arg_spec())
    &&& forall|i: int| 0 <= i < args.len() ==> expr_like(params[i].decoded_arg_spec(), #[trigger] args[i])
}

/// The root renaming of a return writer: `result` to `__boltffiResult`
/// for a result, `value` to `__boltffiValue` otherwise.
pub open spec fn return_renames(is_result: bool) -> Seq<(Seq<char>, Seq<char>)> {
    if is_result {
        seq![("result"@, "__boltffiResult"@)]
    } else {
        seq![("value"@, "__boltffiValue"@)]
    }
}

/// The arguments handed to the implementation, in order.
fn decoded_arg_list(params: &Vec<CSharpCallbackBridgeParamPlan>) -> (res: CSharpArgumentList)
    ensures
        decoded_args_like(res.args@, params@),
{
    let mut args = CSharpArgumentList::empty();
    let mut i: usize = 0;
    while i < params.len()
        invariant
            i <= params@.len(),
            args.args@.len() == i,
            forall|j: int| 0 <= j < i ==> expr_text(#[trigger] args.args@[j]) == expr_text(params@[j].decoded_arg_spec()),
            forall|j: int| 0 <= j < i ==> expr_like(params@[j].decoded_arg_spec(), #[trigger] args.args@[j]),
        decreases params.len() - i,
    {
        args.push(params[i].decoded_arg().clone());
        i = i + 1;
    }
    args
}

/// The parameters of the public interface method, in order.
fn callback_public_param_list(params: &Vec<CSharpCallbackBridgeParamPlan>) -> (res: CSharpParameterList)
    ensures
        res.params@.len() == params@.len(),
        forall|i: int| 0 <= i < params@.len() ==> param_like(#[trigger] res.params@[i], params@[i].public_param_spec()),
{
    let mut list = CSharpParameterList::empty();
    let mut i: usize = 0;
    while i < params.len()
        invariant
            i <= params@.len(),
            list.params@.len() == i,
            forall|j: int| 0 <= j < i ==> param_like(#[trigger] list.params@[j], params@[j].public_param_spec()),
        decreases params.len() - i,
    {
        list.push(params[i].public_param().clone());
        i = i + 1;
    }
    list
}

/// The arguments of a proxy's native call: the callback handle, then the
/// proxy arguments of every bridge parameter.
pub open spec fn proxy_args_ok(args: Seq<CSharpExpression>, params: Seq<CSharpCallbackBridgeParamPlan>) -> bool {
    let arg_texts = seq!["_handle"@ + "."@ + "handle"@] + flat_proxy_arg_texts(params);
    &&& args.len() == arg_texts.len()
    &&& forall|i: int| 0 <= i < arg_texts.len() ==> expr_text(#[trigger] args[i]) == arg_texts[i]
    &&& args[0] matches CSharpExpression::MemberAccess { receiver, name } && is_local(*receiver, "_handle"@) && name@ == "handle"@
    &&& proxy_args_flat(args.skip(1), params)
}

/// Whether `args` are the proxy arguments of the bridge parameters one
/// after the other, each run built as [`CSharpCallbackBridgeParamPlan::proxy_args_shape`]
/// says.
pub open spec fn proxy_args_flat(args: Seq<CSharpExpression>, ps: Seq<CSharpCallbackBridgeParamPlan>) -> bool
    decreases ps.len(),
{
    if ps.len() == 0 {
        args.len() == 0
    } else {
        let k = ps.last().proxy_arg_texts().len() as int;
        &&& k <= args.len()
        &&& proxy_args_flat(args.take(args.len() - k), ps.drop_last())
        &&& ps.last().proxy_args_shape(args.skip(args.len() - k))
    }
}

/// The texts of the arguments a proxy passes for the bridge parameters.
pub open spec fn flat_proxy_arg_texts(params: Seq<CSharpCallbackBridgeParamPlan>) -> Seq<Seq<char>>
    decreases params.len(),
{
    if params.len() == 0 {
        Seq::empty()
    } else {
        flat_proxy_arg_texts(params.drop_last()) + params.last().proxy_arg_texts()
    }
}

impl<'a> CSharpLowerer<'a> {
    /// What a synchronous entry does once the implementation returned:
    /// nothing for `()`, the native value of a direct return, and the
    /// writer (with the result computation of a fallible method) of an
    /// encoded return.
    pub open spec fn success_spec(&self, method_name: Seq<char>, params: Seq<CSharpCallbackBridgeParamPlan>, ret: CallbackReturn, res: CSharpSyncCallbackSuccessPlan) -> bool {
        match ret {
            CallbackReturn::Void => res matches CSharpSyncCallbackSuccessPlan::Void { decoded_args } && decoded_args_like(decoded_args.args@, params),
            CallbackReturn::Direct { native_value, .. } => res matches CSharpSyncCallbackSuccessPlan::Direct { decoded_args, native_value_expr }
                && decoded_args_like(decoded_args.args@, params)
                && expr_text(native_value_expr) == native_value_text(native_value, "__boltffiValue"@),
            CallbackReturn::Encoded { encode_ops, is_result, .. } => res matches CSharpSyncCallbackSuccessPlan::Encoded {
                is_result: r,
                decoded_args,
                result_assignment,
                writer,
            } && {
                &&& r == is_result
                &&& decoded_args_like(decoded_args.args@, params)
                &&& (result_assignment is Some <==> is_result)
                &&& (result_assignment matches Some(a) ==> result_type_spec(self.ffi.catalog, encode_ops@, a.result_type)
                    && result_catch_spec(self.ffi.catalog, encode_ops@, a.catch))
                &&& writer_plan_spec(*writer, encode_ops@, "_returnWire"@, "_returnBytes"@, "__boltffiValue"@, return_renames(is_result))
            },
        }
    }

    fn encoded_writer_and_assignment(
        &self,
        receiver_method: &CSharpMethodName,
        decoded_args: &CSharpArgumentList,
        encode_ops: &WriteSeq,
        is_result: bool,
    ) -> (res: (Option<Box<CSharpCallbackResultAssignmentPlan>>, Box<CSharpWireWriterPlan>))
        requires
            write_seq_custom_free(encode_ops@),
        ensures
            (res.0 is Some <==> is_result),
            res.0 matches Some(a) ==> result_type_spec(self.ffi.catalog, encode_ops@, a.result_type)
                && result_catch_spec(self.ffi.catalog, encode_ops@, a.catch),
            writer_plan_spec(*res.1, encode_ops@, "_returnWire"@, "_returnBytes"@, "__boltffiValue"@, return_renames(is_result)),
    {
        let result_assignment = if is_result {
            Some(Box::new(self.result_assignment_plan(local_expr("impl_"), receiver_method.clone(), decoded_args.clone(), encode_ops)))
        } else {
            None
        };
        let renames = if is_result {
            root_local_rename("result", "__boltffiResult")
        } else {
            root_local_rename("value", "__boltffiValue")
        };
        let writer = self.return_wire_writer_plan(encode_ops, "_returnWire", "_returnBytes", &renames);
        (result_assignment, Box::new(writer))
    }

    /// What a synchronous entry does once the implementation returned; see
    /// [`Self::success_spec`].
    fn sync_callback_success(
        &self,
        method_name: &CSharpMethodName,
        params: &Vec<CSharpCallbackBridgeParamPlan>,
        ret: &CallbackReturn,
    ) -> (res: CSharpSyncCallbackSuccessPlan)
        requires
            return_wf(*ret),
        ensures
            self.success_spec(method_name@, params@, *ret, res),
    {
        let decoded_args = decoded_arg_list(params);
        match ret {
            CallbackReturn::Void => CSharpSyncCallbackSuccessPlan::Void { decoded_args },
            CallbackReturn::Direct { native_value, .. } => CSharpSyncCallbackSuccessPlan::Direct {
                decoded_args,
                native_value_expr: native_value_expr(native_value, local_expr("__boltffiValue")),
            },
            CallbackReturn::Encoded { encode_ops, is_result, .. } => {
                let (result_assignment, writer) = self.encoded_writer_and_assignment(method_name, &decoded_args, encode_ops, *is_result);
                CSharpSyncCallbackSuccessPlan::Encoded { is_result: *is_result, decoded_args, result_assignment, writer }
            },
        }
    }

    /// How an inline closure's bridge invokes the user's delegate: like a
    /// synchronous entry, on the delegate `impl_` through `Invoke`, with a
    /// marshalled `bool` passed through as it is.
    pub open spec fn invoke_spec(&self, params: Seq<CSharpCallbackBridgeParamPlan>, ret: CallbackReturn, res: CSharpClosureInvokePlan) -> bool {
        match ret {
            CallbackReturn::Void => res matches CSharpClosureInvokePlan::Void { decoded_args } && decoded_args_like(decoded_args.args@, params),
            CallbackReturn::Direct { native_value, marshals_bool, .. } => res matches CSharpClosureInvokePlan::Direct { decoded_args, native_value_expr }
                && decoded_args_like(decoded_args.args@, params)
                && (if marshals_bool {
                    is_local(native_value_expr, "__boltffiValue"@)
                } else {
                    exists|v: CSharpExpression| is_local(v, "__boltffiValue"@) && #[trigger] native_value_shape(native_value, v, native_value_expr)
                })
                && expr_text(native_value_expr) == (if marshals_bool {
                    "__boltffiValue"@
                } else {
                    native_value_text(native_value, "__boltffiValue"@)
                }),
            CallbackReturn::Encoded { encode_ops, is_result, .. } => res matches CSharpClosureInvokePlan::Encoded {
                is_result: r,
                decoded_args,
                result_assignment,
                writer,
            } && {
                &&& r == is_result
                &&& decoded_args_like(decoded_args.args@, params)
                &&& (result_assignment is Some <==> is_result)
                &&& (result_assignment matches Some(a) ==> result_type_spec(self.ffi.catalog, encode_ops@, a.result_type)
                    && result_catch_spec(self.ffi.catalog, encode_ops@, a.catch))
                &&& writer_plan_spec(*writer, encode_ops@, "_returnWire"@, "_returnBytes"@, "__boltffiValue"@, return_renames(is_result))
            },
        }
    }

    /// How an inline closure's bridge invokes the delegate; see
    /// [`Self::invoke_spec`].
    fn closure_invoke(&self, ret: &CallbackReturn, params: &Vec<CSharpCallbackBridgeParamPlan>) -> (res: CSharpClosureInvokePlan)
        requires
            return_wf(*ret),
        ensures
            self.invoke_spec(params@, *ret, res),
    {
        let decoded_args = decoded_arg_list(params);
        match ret {
            CallbackReturn::Void => CSharpClosureInvokePlan::Void { decoded_args },
            CallbackReturn::Direct { native_value, marshals_bool, .. } => {
                let value_expr = local_expr("__boltffiValue");
                let native_value_expr = if *marshals_bool {
                    value_expr
                } else {
                    native_value_expr(native_value, value_expr)
                };
                CSharpClosureInvokePlan::Direct { decoded_args, native_value_expr }
            },
            CallbackReturn::Encoded { encode_ops, is_result, .. } => {
                let (result_assignment, writer) = self.encoded_writer_and_assignment(
                    &CSharpMethodName::new("Invoke"),
                    &decoded_args,
                    encode_ops,
                    *is_result,
                );
                CSharpClosureInvokePlan::Encoded { is_result: *is_result, decoded_args, result_assignment, writer }
            },
        }
    }

    /// The native call a proxy makes: the handle and every bridge
    /// parameter's proxy arguments, then how the result is read back.
    pub open spec fn proxy_call_spec(&self, params: Seq<CSharpCallbackBridgeParamPlan>, ret: CallbackReturn, res: CSharpCallbackProxyCallPlan) -> bool {
        let args_ok = |args: CSharpArgumentList| proxy_args_ok(args.args@, params);
        match ret {
            CallbackReturn::Void => res matches CSharpCallbackProxyCallPlan::Void { args } && args_ok(args),
            CallbackReturn::Direct { native_out_type, public_value, .. } => res matches CSharpCallbackProxyCallPlan::Direct {
                args,
                native_out_type: out,
                public_expr,
            } && args_ok(args) && out == native_out_type && expr_text(public_expr) == public_value_text(public_value, "__boltffiOutPtr"@)
                && exists|v: CSharpExpression| is_local(v, "__boltffiOutPtr"@) && #[trigger] public_value_shape(public_value, v, public_expr),
            CallbackReturn::Encoded { decode_expr, decode_ops, is_result, .. } => res matches CSharpCallbackProxyCallPlan::Encoded {
                args,
                decode_expr: d,
                result_decode,
            } && {
                &&& args_ok(args)
                &&& (d is Some <==> decode_expr is Some)
                &&& (d matches Some(e) ==> expr_text(e) == expr_text(decode_expr->0) && expr_like(decode_expr->0, e))
                &&& (result_decode is Some <==> is_result)
            },
        }
    }

    /// The native call a proxy makes; see [`Self::proxy_call_spec`].
    fn proxy_call(&self, params: &Vec<CSharpCallbackBridgeParamPlan>, ret: &CallbackReturn) -> (res: CSharpCallbackProxyCallPlan)
        requires
            *ret matches CallbackReturn::Encoded { decode_ops, is_result, .. } ==> (is_result ==> decode_ops is Some),
        ensures
            self.proxy_call_spec(params@, *ret, res),
    {
        let mut args = CSharpArgumentList::empty();
        let handle = CSharpExpression::MemberAccess {
            receiver: Box::new(local_expr("_handle")),
            name: CSharpPropertyName::new("handle"),
        };
        assert(expr_text(handle) == "_handle"@ + "."@ + "handle"@);
        let ghost handle0 = handle;
        args.push(handle);
        assert(params@.take(0) =~= Seq::<CSharpCallbackBridgeParamPlan>::empty());
        assert(args.args@.skip(1) =~= Seq::<CSharpExpression>::empty());
        let mut i: usize = 0;
        while i < params.len()
            invariant
                i <= params@.len(),
                args.args@.len() == 1 + flat_proxy_arg_texts(params@.take(i as int)).len(),
                expr_text(args.args@[0]) == "_handle"@ + "."@ + "handle"@,
                args.args@[0] == handle0,
                args.args@.len() >= 1,
                proxy_args_flat(args.args@.skip(1), params@.take(i as int)),
                forall|j: int| 0 <= j < flat_proxy_arg_texts(params@.take(i as int)).len() ==> expr_text(#[trigger] args.args@[1 + j])
                    == flat_proxy_arg_texts(params@.take(i as int))[j],
            decreases params.len() - i,
        {
            let mut more = params[i].proxy_args();
            let ghost before = args.args@;
            let ghost flat_before = flat_proxy_arg_texts(params@.take(i as int));
            let ghost added = more.args@;
            args.args.append(&mut more.args);
            proof {
                let k = added.len() as int;
                let rest = args.args@.skip(1);
                assert(rest =~= before.skip(1) + added);
                assert(rest.take(rest.len() - k) =~= before.skip(1));
                assert(rest.skip(rest.len() - k) =~= added);
                assert(params@.take(i + 1).last() == params@[i as int]);
                assert(params@.take(i + 1).drop_last() =~= params@.take(i as int));
                assert forall|m: int| 0 <= m < k implies expr_text(#[trigger] args.args@[before.len() + m]) == expr_text(added[m]) by {
                    assert(args.args@[before.len() + m] == added[m]);
                }
                assert forall|j: int| 0 <= j < before.len() implies args.args@[j] == before[j] by {}
            }
            proof {
                assert(params@.take(i + 1).drop_last() =~= params@.take(i as int));
                let flat_after = flat_proxy_arg_texts(params@.take(i + 1));
                assert(flat_after == flat_before + params@[i as int].proxy_arg_texts());
                assert forall|j: int| 0 <= j < flat_after.len() implies expr_text(#[trigger] args.args@[1 + j]) == flat_after[j] by {
                    if j < flat_before.len() {
                        assert(args.args@[1 + j] == before[1 + j]);
                    } else {
                        let m = j - flat_before.len();
                        assert(expr_text(args.args@[before.len() + m]) == expr_text(added[m]));
                    }
                }
            }
            i = i + 1;
        }
        assert(params@.take(params@.len() as int) =~= params@);
        proof {
            let arg_texts = seq!["_handle"@ + "."@ + "handle"@] + flat_proxy_arg_texts(params@);
            assert forall|j: int| 0 <= j < arg_texts.len() implies expr_text(#[trigger] args.args@[j]) == arg_texts[j] by {
                if j > 0 {
                    assert(expr_text(args.args@[1 + (j - 1)]) == flat_proxy_arg_texts(params@)[j - 1]);
                }
            }
            assert(proxy_args_ok(args.args@, params@));
        }
        match ret {
            CallbackReturn::Void => CSharpCallbackProxyCallPlan::Void { args },
            CallbackReturn::Direct { native_out_type, public_value, .. } => CSharpCallbackProxyCallPlan::Direct {
                args,
                native_out_type: native_out_type.clone(),
                public_expr: public_value_expr(public_value, local_expr("__boltffiOutPtr")),
            },
            CallbackReturn::Encoded { decode_expr, decode_ops, is_result, .. } => {
                let result_decode = if *is_result {
                    Some(self.result_decode_plan(decode_ops.as_ref().unwrap(), "__boltffiReader"))
                } else {
                    None
                };
                let d = match decode_expr {
                    Some(e) => Some(e.clone()),
                    None => None,
                };
                CSharpCallbackProxyCallPlan::Encoded { args, decode_expr: d, result_decode }
            },
        }
    }

    /// How an asynchronous entry reports the task's result: the native
    /// value of `__boltffiCompleted.Result` (as it is for a marshalled
    /// `bool`), or the writer of an encoded value.
    pub open spec fn async_success_spec(&self, ret: CallbackReturn, res: CSharpAsyncCallbackSuccessPlan) -> bool {
        let task_result = "__boltffiCompleted"@ + "."@ + pascal_case("result"@);
        match ret {
            CallbackReturn::Void => res is Void,
            CallbackReturn::Direct { native_value, marshals_bool, .. } => res matches CSharpAsyncCallbackSuccessPlan::Direct { native_value_expr }
                && expr_text(native_value_expr) == (if marshals_bool { task_result } else { native_value_text(native_value, task_result) }),
            CallbackReturn::Encoded { encode_ops, is_result, .. } => res matches CSharpAsyncCallbackSuccessPlan::Encoded { is_result: r, result_type, writer }
                && r == is_result && result_type_spec(self.ffi.catalog, encode_ops@, result_type)
                && writer_plan_spec(*writer, encode_ops@, "_returnWire"@, "_returnBytes"@, "__boltffiValue"@, return_renames(is_result)),
        }
    }

    /// How an asynchronous entry reports the task's result; see
    /// [`Self::async_success_spec`].
    fn async_success_completion(&self, ret: &CallbackReturn) -> (res: CSharpAsyncCallbackSuccessPlan)
        requires
            return_wf(*ret),
        ensures
            self.async_success_spec(*ret, res),
    {
        match ret {
            CallbackReturn::Void => CSharpAsyncCallbackSuccessPlan::Void,
            CallbackReturn::Direct { native_value, marshals_bool, .. } => {
                let completed = local_expr("__boltffiCompleted");
                let task_result = CSharpExpression::MemberAccess {
                    receiver: Box::new(completed),
                    name: CSharpPropertyName::from_source("result"),
                };
                assert(expr_text(task_result) == "__boltffiCompleted"@ + "."@ + pascal_case("result"@));
                let native_value_expr = if *marshals_bool {
                    task_result
                } else {
                    native_value_expr(native_value, task_result)
                };
                CSharpAsyncCallbackSuccessPlan::Direct { native_value_expr }
            },
            CallbackReturn::Encoded { encode_ops, is_result, .. } => {
                let renames = if *is_result {
                    root_local_rename("result", "__boltffiResult")
                } else {
                    root_local_rename("value", "__boltffiValue")
                };
                let writer = self.return_wire_writer_plan(encode_ops, "_returnWire", "_returnBytes", &renames);
                CSharpAsyncCallbackSuccessPlan::Encoded {
                    is_result: *is_result,
                    result_type: self.result_type_for_encode_ops(encode_ops),
                    writer: Box::new(writer),
                }
            },
        }
    }

    /// How an asynchronous entry reports a faulted task: a fallible method
    /// whose error is an error type reports the typed exception's `Error`
    /// (falling back to a plain failure for other exceptions), one whose
    /// error is a string reports the exception's `Message`, and anything
    /// else is reported as a plain failure.
    pub open spec fn fault_spec(&self, ret: CallbackReturn, res: CSharpAsyncCallbackFaultPlan) -> bool {
        let cat = self.ffi.catalog;
        if ret matches CallbackReturn::Encoded { encode_ops, is_result, .. } && is_result && encode_ops@.ops.len() > 0
            && encode_ops@.ops[0] is Result {
            let m = ret->encode_ops@;
            let err = m.ops[0]->Result_err;
            if has_error_exception(cat, *err) {
                res matches CSharpAsyncCallbackFaultPlan::EncodedResult { exception_type, error_value_expr, result_type, writer, fallback } && {
                    &&& exception_type matches Some(t) && error_exception(cat, *err, t)
                    &&& expr_text(*error_value_expr) == "__boltffiTypedException"@ + "."@ + pascal_case("error"@)
                    &&& *error_value_expr matches CSharpExpression::MemberAccess { receiver, name } && is_local(*receiver, "__boltffiTypedException"@)
                        && name@ == pascal_case("error"@)
                    &&& result_type_spec(cat, m, *result_type)
                    &&& writer_plan_spec(*writer, m, "_returnErrorWire"@, "_returnErrorBytes"@, "__boltffiValue"@, seq![("result"@, "__boltffiErrorResult"@)])
                    &&& fallback matches Some(f) && failure_spec(ret, f)
                }
            } else if has_branch_type(cat, *err) && branch_type(cat, *err, CSharpType::String) {
                res matches CSharpAsyncCallbackFaultPlan::EncodedResult { exception_type, error_value_expr, result_type, writer, fallback } && {
                    &&& exception_type is None
                    &&& expr_text(*error_value_expr) == "__boltffiException"@ + "."@ + pascal_case("message"@)
                    &&& *error_value_expr matches CSharpExpression::MemberAccess { receiver, name } && is_local(*receiver, "__boltffiException"@)
                        && name@ == pascal_case("message"@)
                    &&& result_type_spec(cat, m, *result_type)
                    &&& writer_plan_spec(*writer, m, "_returnErrorWire"@, "_returnErrorBytes"@, "__boltffiValue"@, seq![("result"@, "__boltffiErrorResult"@)])
                    &&& fallback is None
                }
            } else {
                res matches CSharpAsyncCallbackFaultPlan::Failure(f) && failure_spec(ret, f)
            }
        } else {
            res matches CSharpAsyncCallbackFaultPlan::Failure(f) && failure_spec(ret, f)
        }
    }

    /// How an asynchronous entry reports a faulted task; see
    /// [`Self::fault_spec`].
    fn async_fault_completion(&self, ret: &CallbackReturn) -> (res: CSharpAsyncCallbackFaultPlan)
        requires
            return_wf(*ret),
        ensures
            self.fault_spec(*ret, res),
    {
        let encode_ops = match ret {
            CallbackReturn::Encoded { encode_ops, is_result: true, .. } => encode_ops,
            _ => {
                return CSharpAsyncCallbackFaultPlan::Failure(self.async_failure_completion(ret));
            },
        };
        let result_ty = self.result_type_for_encode_ops(encode_ops);
        proof {
            lemma_write_ops_model_index(encode_ops.ops@, 0);
        }
        if encode_ops.ops.len() == 0 {
            return CSharpAsyncCallbackFaultPlan::Failure(self.async_failure_completion(ret));
        }
        let err = match &encode_ops.ops[0] {
            WriteOp::Result { err, .. } => err,
            _ => {
                return CSharpAsyncCallbackFaultPlan::Failure(self.async_failure_completion(ret));
            },
        };
        proof {
            lemma_write_ops_free_at(encode_ops@.ops, 0);
        }
        let err_type = self.result_branch_type(err);
        let exception = self.error_exception_for_write_seq(err);
        let is_string = match &err_type {
            Some(t) => t.is_string(),
            None => false,
        };
        proof {
            if has_branch_type(self.ffi.catalog, err@) && branch_type(self.ffi.catalog, err@, CSharpType::String) {
                lemma_branch_type_unique(self.ffi.catalog, err@, err_type->0, CSharpType::String);
            }
        }
        let (exception_type, error_value_expr, fallback) = match exception {
            Some(exception_ty) => {
                let typed = local_expr("__boltffiTypedException");
                let e = CSharpExpression::MemberAccess { receiver: Box::new(typed), name: CSharpPropertyName::from_source("error") };
                assert(expr_text(e) == "__boltffiTypedException"@ + "."@ + pascal_case("error"@));
                (Some(exception_ty), Box::new(e), Some(self.async_failure_completion(ret)))
            },
            None => {
                if is_string {
                    let caught = local_expr("__boltffiException");
                    let e = CSharpExpression::MemberAccess { receiver: Box::new(caught), name: CSharpPropertyName::from_source("message") };
                    assert(expr_text(e) == "__boltffiException"@ + "."@ + pascal_case("message"@));
                    (None, Box::new(e), None)
                } else {
                    return CSharpAsyncCallbackFaultPlan::Failure(self.async_failure_completion(ret));
                }
            },
        };
        let renames = root_local_rename("result", "__boltffiErrorResult");
        let writer = self.return_wire_writer_plan(encode_ops, "_returnErrorWire", "_returnErrorBytes", &renames);
        CSharpAsyncCallbackFaultPlan::EncodedResult {
            exception_type,
            error_value_expr,
            result_type: Box::new(result_ty),
            writer: Box::new(writer),
            fallback,
        }
    }
}

/// The index of the first input parameter of the ABI named `name`, or -1.
pub open spec fn input_param_index(abi_params: Seq<AbiParam>, name: Seq<char>) -> int
    decreases abi_params.len(),
{
    if abi_params.len() == 0 {
        -1
    } else {
        let k = input_param_index(abi_params.drop_last(), name);
        if k >= 0 {
            k
        } else if abi_params.last().role is Input && abi_params.last().name@ == name {
            abi_params.len() - 1
        } else {
            -1
        }
    }
}

/// The method parameters that have an input parameter in the ABI, each
/// paired with it, in order.
pub open spec fn bridged_pairs(params: Seq<ParamDef>, abi_params: Seq<AbiParam>) -> Seq<(ParamDef, AbiParam)>
    decreases params.len(),
{
    if params.len() == 0 {
        Seq::empty()
    } else {
        let rest = bridged_pairs(params.drop_last(), abi_params);
        let k = input_param_index(abi_params, params.last().name@);
        if k >= 0 {
            rest.push((params.last(), abi_params[k]))
        } else {
            rest
        }
    }
}

/// Whether a return is wire-encoded.
pub open spec fn return_encoded(ret_def: ReturnDef, shape: ReturnShape, mode: CallbackReturnMode) -> bool {
    match ret_def {
        ReturnDef::Void => false,
        ReturnDef::Value(_) => match shape.transport {
            Some(Transport::Composite(_)) => mode != CallbackReturnMode::InlineClosure,
            Some(Transport::Span(_)) => true,
            _ => false,
        },
        ReturnDef::Result { .. } => true,
    }
}

/// What lowering a callback method needs: every bridged parameter and the
/// return can be lowered, and a synchronous fallible method of a callback
/// trait has the reads its proxy decodes the result with.
pub open spec fn method_ready(cat: TypeCatalog, method: CallbackMethodDef, abi_method: AbiCallbackMethod, mode: CallbackReturnMode) -> bool {
    &&& forall|j: int| 0 <= j < bridged_pairs(method.params@, abi_method.params@).len()
        ==> bridge_param_ready(cat, #[trigger] bridged_pairs(method.params@, abi_method.params@)[j].0, bridged_pairs(method.params@, abi_method.params@)[j].1)
    &&& return_ready(cat, method.returns, abi_method.returns, mode)
    &&& (mode == CallbackReturnMode::CallbackVtable && method.execution_kind == crate::defs::ExecutionKind::Sync
        && method.returns is Result ==> abi_method.returns.decode_ops is Some)
}

/// The shape of a callback method: its name, vtable field, whether it is
/// asynchronous, its bridge parameters and its return.
pub struct CallbackMethodShape {
    pub name: CSharpMethodName,
    pub vtable_field: CSharpLocalName,
    pub is_async: bool,
    pub bridge_params: Vec<CSharpCallbackBridgeParamPlan>,
    pub ret: CallbackReturn,
}

impl CallbackMethodShape {
    /// The return type of the public interface method.
    pub fn public_return_type(&self) -> (res: CSharpType)
        ensures
            res == self.ret.public_type_spec(),
    {
        self.ret.public_type()
    }

    /// The parameters of the public interface method, as type and name.
    pub fn public_param_plans(&self) -> (res: Vec<CSharpCallbackParamPlan>)
        ensures
            res@.len() == self.bridge_params@.len(),
            forall|i: int| 0 <= i < res@.len() ==> {
                &&& (#[trigger] res@[i]).csharp_type == self.bridge_params@[i].public_param_spec().csharp_type
                &&& res@[i].name == self.bridge_params@[i].public_param_spec().name
            },
    {
        let mut res: Vec<CSharpCallbackParamPlan> = Vec::new();
        let mut i: usize = 0;
        while i < self.bridge_params.len()
            invariant
                i <= self.bridge_params@.len(),
                res@.len() == i,
                forall|j: int| 0 <= j < i ==> {
                    &&& (#[trigger] res@[j]).csharp_type == self.bridge_params@[j].public_param_spec().csharp_type
                    &&& res@[j].name == self.bridge_params@[j].public_param_spec().name
                },
            decreases self.bridge_params.len() - i,
        {
            let public_param = self.bridge_params[i].public_param();
            res.push(CSharpCallbackParamPlan { csharp_type: public_param.csharp_type.clone(), name: public_param.name.clone() });
            i = i + 1;
        }
        res
    }

    /// The parameter list of the public interface method.
    pub fn public_param_list(&self) -> (res: CSharpParameterList)
        ensures
            res.params@.len() == self.bridge_params@.len(),
            forall|i: int| 0 <= i < self.bridge_params@.len() ==> param_like(#[trigger] res.params@[i], self.bridge_params@[i].public_param_spec()),
    {
        callback_public_param_list(&self.bridge_params)
    }
}

impl<'a> CSharpLowerer<'a> {
    /// The bridge parameters of a method: one for each parameter that has an
    /// input parameter in the ABI, in order.
    pub fn bridge_params(&self, method: &CallbackMethodDef, abi_method: &AbiCallbackMethod) -> (res: Vec<CSharpCallbackBridgeParamPlan>)
        requires
            forall|j: int| 0 <= j < bridged_pairs(method.params@, abi_method.params@).len()
                ==> bridge_param_ready(self.ffi.catalog, #[trigger] bridged_pairs(method.params@, abi_method.params@)[j].0, bridged_pairs(method.params@, abi_method.params@)[j].1),
        ensures
            res@.len() == bridged_pairs(method.params@, abi_method.params@).len(),
            forall|j: int| 0 <= j < res@.len() ==> self.bridge_param_spec(
                bridged_pairs(method.params@, abi_method.params@)[j].0,
                bridged_pairs(method.params@, abi_method.params@)[j].1,
                #[trigger] res@[j],
            ),
    {
        let ghost abi_params = abi_method.params@;
        let mut res: Vec<CSharpCallbackBridgeParamPlan> = Vec::new();
        let mut i: usize = 0;
        while i < method.params.len()
            invariant
                abi_params == abi_method.params@,
                i <= method.params@.len(),
                forall|j: int| 0 <= j < bridged_pairs(method.params@, abi_params).len()
                    ==> bridge_param_ready(self.ffi.catalog, #[trigger] bridged_pairs(method.params@, abi_params)[j].0, bridged_pairs(method.params@, abi_params)[j].1),
                res@.len() == bridged_pairs(method.params@.take(i as int), abi_params).len(),
                forall|j: int| 0 <= j < res@.len() ==> self.bridge_param_spec(
                    bridged_pairs(method.params@.take(i as int), abi_params)[j].0,
                    bridged_pairs(method.params@.take(i as int), abi_params)[j].1,
                    #[trigger] res@[j],
                ),
            decreases method.params.len() - i,
        {
            let param = &method.params[i];
            let k = self.find_input_param(abi_method, param);
            proof {
                assert(method.params@.take(i + 1).drop_last() =~= method.params@.take(i as int));
                lemma_bridged_pairs_prefix(method.params@, abi_params, i + 1);
            }
            match k {
                Some(k) => {
                    proof {
                        let pairs = bridged_pairs(method.params@.take(i + 1), abi_params);
                        lemma_bridged_pairs_is_prefix(method.params@, abi_params, i + 1);
                        let last = pairs.len() - 1;
                        assert(pairs[last] == (*param, abi_params[k as int]));
                        assert(pairs[last] == bridged_pairs(method.params@, abi_params)[last]);
                        assert(bridge_param_ready(
                            self.ffi.catalog,
                            bridged_pairs(method.params@, abi_params)[last].0,
                            bridged_pairs(method.params@, abi_params)[last].1,
                        ));
                    }
                    let plan = self.bridge_param(param, &abi_method.params[k]);
                    res.push(plan);
                },
                None => {},
            }
            i = i + 1;
        }
        assert(method.params@.take(method.params@.len() as int) =~= method.params@);
        res
    }

    fn find_input_param(&self, abi_method: &AbiCallbackMethod, param: &ParamDef) -> (res: Option<usize>)
        ensures
            res is Some <==> input_param_index(abi_method.params@, param.name@) >= 0,
            res matches Some(k) ==> k == input_param_index(abi_method.params@, param.name@) && k < abi_method.params@.len(),
    {
        proof {
            lemma_input_param_index_bounds(abi_method.params@, param.name@);
        }
        let mut j: usize = 0;
        while j < abi_method.params.len()
            invariant
                j <= abi_method.params@.len(),
                input_param_index(abi_method.params@.take(j as int), param.name@) == -1,
            decreases abi_method.params.len() - j,
        {
            let candidate = &abi_method.params[j];
            let is_input = matches!(candidate.role, ParamRole::Input { .. });
            proof {
                assert(abi_method.params@.take(j + 1).drop_last() =~= abi_method.params@.take(j as int));
            }
            if is_input && candidate.name.same_as(&param.name) {
                proof {
                    lemma_input_param_index_prefix(abi_method.params@, param.name@, j + 1);
                }
                return Some(j);
            }
            j = j + 1;
        }
        assert(abi_method.params@.take(abi_method.params@.len() as int) =~= abi_method.params@);
        None
    }
}

/// The first input parameter of a name lies within the list.
pub proof fn lemma_input_param_index_bounds(abi_params: Seq<AbiParam>, name: Seq<char>)
    ensures
        -1 <= input_param_index(abi_params, name) < abi_params.len(),
    decreases abi_params.len(),
{
    if abi_params.len() > 0 {
        lemma_input_param_index_bounds(abi_params.drop_last(), name);
    }
}

/// A first input found in a prefix is the first input of the whole list.
proof fn lemma_input_param_index_prefix(abi_params: Seq<AbiParam>, name: Seq<char>, n: int)
    requires
        0 <= n <= abi_params.len(),
        input_param_index(abi_params.take(n), name) >= 0,
    ensures
        input_param_index(abi_params, name) == input_param_index(abi_params.take(n), name),
    decreases abi_params.len() - n,
{
    if n < abi_params.len() {
        assert(abi_params.take(n + 1).drop_last() =~= abi_params.take(n));
        lemma_input_param_index_prefix(abi_params, name, n + 1);
    } else {
        assert(abi_params.take(n) =~= abi_params);
    }
}

/// The bridged pairs of a prefix of the parameters start the bridged pairs
/// of all of them.
proof fn lemma_bridged_pairs_is_prefix(params: Seq<ParamDef>, abi_params: Seq<AbiParam>, n: int)
    requires
        0 <= n <= params.len(),
    ensures
        bridged_pairs(params.take(n), abi_params).len() <= bridged_pairs(params, abi_params).len(),
        forall|j: int| 0 <= j < bridged_pairs(params.take(n), abi_params).len()
            ==> #[trigger] bridged_pairs(params.take(n), abi_params)[j] == bridged_pairs(params, abi_params)[j],
    decreases params.len() - n,
{
    if n < params.len() {
        lemma_bridged_pairs_prefix(params, abi_params, n + 1);
        lemma_bridged_pairs_is_prefix(params, abi_params, n + 1);
        let short = bridged_pairs(params.take(n), abi_params);
        let long = bridged_pairs(params.take(n + 1), abi_params);
        assert forall|j: int| 0 <= j < short.len() implies #[trigger] short[j] == bridged_pairs(params, abi_params)[j] by {
            assert(long[j] == short[j]);
        }
    } else {
        assert(params.take(n) =~= params);
    }
}

/// Bridged pairs of a longer prefix extend those of a shorter one.
proof fn lemma_bridged_pairs_prefix(params: Seq<ParamDef>, abi_params: Seq<AbiParam>, n: int)
    requires
        0 < n <= params.len(),
    ensures
        bridged_pairs(params.take(n), abi_params) == if input_param_index(abi_params, params[n - 1].name@) >= 0 {
            bridged_pairs(params.take(n - 1), abi_params).push((params[n - 1], abi_params[input_param_index(abi_params, params[n - 1].name@)]))
        } else {
            bridged_pairs(params.take(n - 1), abi_params)
        },
{
    assert(params.take(n).drop_last() =~= params.take(n - 1));
    assert(params.take(n).last() == params[n - 1]);
}

/// Whether a bridged parameter crosses as a span.
pub open spec fn is_span_pair(pair: (ParamDef, AbiParam)) -> bool {
    pair.1.role matches ParamRole::Input { transport, .. } && transport is Span
}

/// Whether some bridged parameter crosses as a span.
pub open spec fn any_span_pair(pairs: Seq<(ParamDef, AbiParam)>) -> bool {
    exists|j: int| 0 <= j < pairs.len() && is_span_pair(#[trigger] pairs[j])
}

/// Whether a bridge parameter list holds a wire-encoded parameter.
pub open spec fn any_wire_encoded(params: Seq<CSharpCallbackBridgeParamPlan>) -> bool {
    exists|j: int| 0 <= j < params.len() && (#[trigger] params[j]) is WireEncoded
}

fn any_needs_wire(params: &Vec<CSharpCallbackBridgeParamPlan>) -> (res: bool)
    ensures
        res == any_wire_encoded(params@),
{
    let mut i: usize = 0;
    while i < params.len()
        invariant
            i <= params@.len(),
            forall|j: int| 0 <= j < i ==> !(#[trigger] params@[j] is WireEncoded),
        decreases params.len() - i,
    {
        if params[i].needs_wire_writer() {
            return true;
        }
        i = i + 1;
    }
    false
}

impl<'a> CSharpLowerer<'a> {
    /// The shape of a callback method: its `PascalCase` name, its vtable
    /// field, whether it is asynchronous, its bridge parameters and its
    /// return.
    pub open spec fn shape_spec(&self, method: CallbackMethodDef, abi_method: AbiCallbackMethod, mode: CallbackReturnMode, shape: CallbackMethodShape) -> bool {
        let pairs = bridged_pairs(method.params@, abi_method.params@);
        &&& shape.name@ == pascal_case(method.id@)
        &&& shape.vtable_field@ == abi_method.vtable_field@
        &&& shape.is_async == (method.execution_kind == crate::defs::ExecutionKind::Async)
        &&& shape.bridge_params@.len() == pairs.len()
        &&& forall|j: int| 0 <= j < pairs.len() ==> self.bridge_param_spec(pairs[j].0, pairs[j].1, #[trigger] shape.bridge_params@[j])
        &&& self.return_spec(method.returns, abi_method.returns, mode, shape.ret)
        &&& return_wf(shape.ret)
        &&& (shape.ret is Encoded <==> return_encoded(method.returns, abi_method.returns, mode))
        &&& (any_wire_encoded(shape.bridge_params@) <==> any_span_pair(pairs))
        &&& (mode == CallbackReturnMode::CallbackVtable && !shape.is_async ==> (shape.ret matches CallbackReturn::Encoded { decode_ops, is_result, .. }
            ==> (is_result ==> decode_ops is Some)))
    }

    fn lower_callback_method_shape(&self, method: &CallbackMethodDef, abi_method: &AbiCallbackMethod, mode: CallbackReturnMode) -> (res: CallbackMethodShape)
        requires
            method_ready(self.ffi.catalog, *method, *abi_method, mode),
        ensures
            self.shape_spec(*method, *abi_method, mode, res),
    {
        let bridge_params = self.bridge_params(method, abi_method);
        let ret = self.callback_return(&method.returns, &abi_method.returns, mode);
        let ghost pairs = bridged_pairs(method.params@, abi_method.params@);
        proof {
            if any_wire_encoded(bridge_params@) {
                let j = choose|j: int| 0 <= j < bridge_params@.len() && (#[trigger] bridge_params@[j]) is WireEncoded;
                assert(self.bridge_param_spec(pairs[j].0, pairs[j].1, bridge_params@[j]));
                assert(is_span_pair(pairs[j]));
            }
            if any_span_pair(pairs) {
                let j = choose|j: int| 0 <= j < pairs.len() && is_span_pair(#[trigger] pairs[j]);
                assert(self.bridge_param_spec(pairs[j].0, pairs[j].1, bridge_params@[j]));
                assert(bridge_params@[j] is WireEncoded);
            }
        }
        CallbackMethodShape {
            name: CSharpMethodName::from_source(method.id.as_str()),
            vtable_field: CSharpLocalName::new(abi_method.vtable_field.as_str()),
            is_async: method.is_async(),
            bridge_params,
            ret,
        }
    }

    /// The native entry point: the asynchronous entry with its completions,
    /// or the synchronous one with its `out` slots and success handling.
    pub open spec fn entry_spec(&self, shape: CallbackMethodShape, res: CSharpCallbackEntryPlan) -> bool {
        if shape.is_async {
            res matches CSharpCallbackEntryPlan::Async(e) && {
                &&& async_native_params_spec(shape.name@, shape.bridge_params@, e.native_params.params@)
                &&& bridges_like(e.bridge_params@, shape.bridge_params@)
                &&& decoded_args_like(e.decoded_args.args@, shape.bridge_params@)
                &&& failure_spec(shape.ret, e.invalid_handle_completion)
                &&& failure_spec(shape.ret, e.canceled_completion)
                &&& self.fault_spec(shape.ret, e.faulted_completion)
                &&& self.async_success_spec(shape.ret, e.success_completion)
                &&& failure_spec(shape.ret, e.catch_completion)
            }
        } else {
            res matches CSharpCallbackEntryPlan::Sync(e) && {
                &&& sync_native_params_spec(shape.bridge_params@, shape.ret, e.native_params.params@)
                &&& bridges_like(e.bridge_params@, shape.bridge_params@)
                &&& self.success_spec(shape.name@, shape.bridge_params@, shape.ret, e.success)
                &&& match shape.ret {
                    CallbackReturn::Void => e.out_initializer is Void,
                    CallbackReturn::Direct { sync_default_value, .. } => e.out_initializer matches CSharpSyncCallbackOutInitializerPlan::Direct { default_value }
                        && expr_text(default_value) == expr_text(sync_default_value),
                    CallbackReturn::Encoded { .. } => e.out_initializer is Encoded,
                }
            }
        }
    }

    fn lower_callback_entry(&self, shape: &CallbackMethodShape) -> (res: CSharpCallbackEntryPlan)
        requires
            return_wf(shape.ret),
        ensures
            self.entry_spec(*shape, res),
    {
        if shape.is_async {
            CSharpCallbackEntryPlan::Async(Box::new(CSharpAsyncCallbackEntryPlan {
                native_params: self.async_callback_native_params(&shape.name, &shape.bridge_params),
                bridge_params: clone_bridge_params(&shape.bridge_params),
                decoded_args: decoded_arg_list(&shape.bridge_params),
                invalid_handle_completion: self.async_failure_completion(&shape.ret),
                canceled_completion: self.async_failure_completion(&shape.ret),
                faulted_completion: self.async_fault_completion(&shape.ret),
                success_completion: self.async_success_completion(&shape.ret),
                catch_completion: self.async_failure_completion(&shape.ret),
            }))
        } else {
            let success = self.sync_callback_success(&shape.name, &shape.bridge_params, &shape.ret);
            CSharpCallbackEntryPlan::Sync(Box::new(CSharpSyncCallbackEntryPlan {
                native_params: self.sync_callback_native_params(&shape.bridge_params, &shape.ret),
                out_initializer: self.sync_out_initializer(&shape.ret),
                bridge_params: clone_bridge_params(&shape.bridge_params),
                success,
            }))
        }
    }

    /// The proxy of a Rust-implemented callback method: unsupported for an
    /// asynchronous method, which only names its parameters and result
    /// type, and otherwise the native call with cleanup of any pinned
    /// wire-encoded parameters.
    pub open spec fn proxy_spec(&self, shape: CallbackMethodShape, res: CSharpCallbackProxyPlan) -> bool {
        let public_like = |list: CSharpParameterList|
            list.params@.len() == shape.bridge_params@.len() && forall|i: int| 0 <= i < list.params@.len()
                ==> param_like(#[trigger] list.params@[i], shape.bridge_params@[i].public_param_spec());
        if shape.is_async {
            res matches CSharpCallbackProxyPlan::AsyncUnsupported { public_params, result_type } && public_like(public_params) && (if shape.ret is Void {
                result_type is None
            } else {
                result_type == Some(shape.ret.public_type_spec())
            })
        } else {
            res matches CSharpCallbackProxyPlan::Sync(p) && {
                &&& public_like(p.public_params)
                &&& p.return_type == shape.ret.public_type_spec()
                &&& bridges_like(p.bridge_params@, shape.bridge_params@)
                &&& p.has_cleanup == any_wire_encoded(shape.bridge_params@)
                &&& self.proxy_call_spec(shape.bridge_params@, shape.ret, p.call)
            }
        }
    }

    fn lower_callback_proxy(&self, shape: &CallbackMethodShape) -> (res: CSharpCallbackProxyPlan)
        requires
            !shape.is_async ==> (shape.ret matches CallbackReturn::Encoded { decode_ops, is_result, .. } ==> (is_result ==> decode_ops is Some)),
        ensures
            self.proxy_spec(*shape, res),
    {
        let public_params = shape.public_param_list();
        if shape.is_async {
            let result_type = if matches!(shape.ret, CallbackReturn::Void) {
                None
            } else {
                Some(shape.public_return_type())
            };
            return CSharpCallbackProxyPlan::AsyncUnsupported { public_params, result_type };
        }
        let has_cleanup = any_needs_wire(&shape.bridge_params);
        let call = self.proxy_call(&shape.bridge_params, &shape.ret);
        CSharpCallbackProxyPlan::Sync(Box::new(CSharpSyncCallbackProxyPlan {
            public_params,
            return_type: shape.ret.public_type(),
            bridge_params: clone_bridge_params(&shape.bridge_params),
            has_cleanup,
            call,
        }))
    }

    /// The delegate signatures of a method: the entry's, the completion's
    /// for an asynchronous method, and the proxy's for a synchronous one.
    pub open spec fn delegates_spec(&self, shape: CallbackMethodShape, res: CSharpCallbackDelegatePlan) -> bool {
        if shape.is_async {
            &&& async_native_params_spec(shape.name@, shape.bridge_params@, res.entry_params.params@)
            &&& res.completion_params matches Some(c) && completion_params_spec(shape.ret, c.params@)
            &&& res.proxy_params is None
        } else {
            &&& sync_native_params_spec(shape.bridge_params@, shape.ret, res.entry_params.params@)
            &&& res.completion_params is None
            &&& res.proxy_params matches Some(p) && sync_native_params_spec(shape.bridge_params@, shape.ret, p.params@)
        }
    }

    fn lower_callback_delegates(&self, shape: &CallbackMethodShape) -> (res: CSharpCallbackDelegatePlan)
        ensures
            self.delegates_spec(*shape, res),
    {
        if shape.is_async {
            CSharpCallbackDelegatePlan {
                entry_params: self.async_callback_native_params(&shape.name, &shape.bridge_params),
                completion_params: Some(self.async_completion_params(&shape.ret)),
                proxy_params: None,
            }
        } else {
            CSharpCallbackDelegatePlan {
                entry_params: self.sync_callback_native_params(&shape.bridge_params, &shape.ret),
                completion_params: None,
                proxy_params: Some(self.sync_callback_native_params(&shape.bridge_params, &shape.ret)),
            }
        }
    }

    /// The plan of one method of a callback trait, assembled from its shape.
    pub open spec fn method_plan_spec(&self, shape: CallbackMethodShape, res: CSharpCallbackMethodPlan) -> bool {
        &&& res.name == shape.name
        &&& res.vtable_field == shape.vtable_field
        &&& res.return_type == shape.ret.public_type_spec()
        &&& res.is_async == shape.is_async
        &&& res.public_params@.len() == shape.bridge_params@.len()
        &&& forall|i: int| 0 <= i < res.public_params@.len() ==> {
            &&& (#[trigger] res.public_params@[i]).csharp_type == shape.bridge_params@[i].public_param_spec().csharp_type
            &&& res.public_params@[i].name == shape.bridge_params@[i].public_param_spec().name
        }
        &&& self.entry_spec(shape, res.entry)
        &&& self.proxy_spec(shape, res.proxy)
        &&& self.delegates_spec(shape, res.delegates)
    }

    fn callback_method_plan_from_shape(&self, shape: &CallbackMethodShape) -> (res: CSharpCallbackMethodPlan)
        requires
            return_wf(shape.ret),
            !shape.is_async ==> (shape.ret matches CallbackReturn::Encoded { decode_ops, is_result, .. } ==> (is_result ==> decode_ops is Some)),
        ensures
            self.method_plan_spec(*shape, res),
    {
        CSharpCallbackMethodPlan {
            name: shape.name.clone(),
            vtable_field: shape.vtable_field.clone(),
            return_type: shape.public_return_type(),
            is_async: shape.is_async,
            public_params: shape.public_param_plans(),
            entry: self.lower_callback_entry(shape),
            proxy: self.lower_callback_proxy(shape),
            delegates: self.lower_callback_delegates(shape),
        }
    }

    /// The plan of the one method of a closure: its public signature, its
    /// native signature (the context pointer, then the native parameters),
    /// and how the bridge invokes the delegate.
    pub open spec fn closure_method_plan_spec(&self, shape: CallbackMethodShape, res: CSharpClosureMethodPlan) -> bool {
        let n: int = flat_native_params(shape.bridge_params@).len() as int;
        &&& res.return_type == shape.ret.public_type_spec()
        &&& res.public_params@.len() == shape.bridge_params@.len()
        &&& forall|i: int| 0 <= i < res.public_params@.len() ==> {
            &&& (#[trigger] res.public_params@[i]).csharp_type == shape.bridge_params@[i].public_param_spec().csharp_type
            &&& res.public_params@[i].name == shape.bridge_params@[i].public_param_spec().name
        }
        &&& match shape.ret {
            CallbackReturn::Void => res.native_return_type is Void,
            CallbackReturn::Direct { native_type, .. } => res.native_return_type == native_type,
            CallbackReturn::Encoded { .. } => res.native_return_type.is_named_spec("FfiBuf"@),
        }
        &&& res.native_params.params@.len() == 1 + n
        &&& bare_param(res.native_params.params@[0], CSharpType::IntPtr, "context"@)
        &&& forall|i: int| 0 <= i < n ==> param_like(#[trigger] res.native_params.params@[1 + i], flat_native_params(shape.bridge_params@)[i])
        &&& bridges_like(res.bridge_params@, shape.bridge_params@)
        &&& self.invoke_spec(shape.bridge_params@, shape.ret, res.invoke)
    }

    fn closure_method_plan_from_shape(&self, shape: &CallbackMethodShape) -> (res: CSharpClosureMethodPlan)
        requires
            return_wf(shape.ret),
        ensures
            self.closure_method_plan_spec(*shape, res),
    {
        let native_return_type = self.inline_callback_native_return_type(&shape.ret);
        let mut native_params = CSharpParameterList::empty();
        native_params.push(CSharpParameter::bare(CSharpType::IntPtr, CSharpParamName::new("context")));
        let ghost first = native_params.params@;
        extend_native_params(&mut native_params, &shape.bridge_params);
        proof {
            assert(native_params.params@[0] == first.take(1)[0]);
        }
        CSharpClosureMethodPlan {
            return_type: shape.public_return_type(),
            public_params: shape.public_param_plans(),
            native_return_type,
            native_params,
            bridge_params: clone_bridge_params(&shape.bridge_params),
            invoke: self.closure_invoke(&shape.ret, &shape.bridge_params),
        }
    }

    /// Lowers one method of a callback trait.
    pub fn lower_callback_method(&self, method: &CallbackMethodDef, abi_method: &AbiCallbackMethod) -> (res: CSharpCallbackMethodPlan)
        requires
            method_ready(self.ffi.catalog, *method, *abi_method, CallbackReturnMode::CallbackVtable),
        ensures
            exists|shape: CallbackMethodShape| #![auto]
                self.shape_spec(*method, *abi_method, CallbackReturnMode::CallbackVtable, shape) && self.method_plan_spec(shape, res),
    {
        let shape = self.lower_callback_method_shape(method, abi_method, CallbackReturnMode::CallbackVtable);
        let res = self.callback_method_plan_from_shape(&shape);
        assert(self.shape_spec(*method, *abi_method, CallbackReturnMode::CallbackVtable, shape) && self.method_plan_spec(shape, res));
        res
    }

    /// Lowers the method of a closure.
    pub fn lower_closure_method(&self, method: &CallbackMethodDef, abi_method: &AbiCallbackMethod) -> (res: CSharpClosureMethodPlan)
        requires
            method_ready(self.ffi.catalog, *method, *abi_method, CallbackReturnMode::InlineClosure),
        ensures
            exists|shape: CallbackMethodShape| #![auto]
                self.shape_spec(*method, *abi_method, CallbackReturnMode::InlineClosure, shape) && self.closure_method_plan_spec(shape, res),
    {
        let shape = self.lower_callback_method_shape(method, abi_method, CallbackReturnMode::InlineClosure);
        let res = self.closure_method_plan_from_shape(&shape);
        assert(self.shape_spec(*method, *abi_method, CallbackReturnMode::InlineClosure, shape) && self.closure_method_plan_spec(shape, res));
        res
    }

    /// Whether a method reads a wire buffer: a span parameter, or an
    /// encoded return that is decoded.
    pub open spec fn method_reads_wire(&self, method: CallbackMethodDef, inv: AbiCallbackInvocation, mode: CallbackReturnMode) -> bool {
        let k = abi_method_index(inv.methods@, method.id@);
        k >= 0 && (any_span_pair(bridged_pairs(method.params@, inv.methods@[k].params@)) || (return_encoded(
            method.returns,
            inv.methods@[k].returns,
            mode,
        ) && inv.methods@[k].returns.decode_ops is Some))
    }

    /// Whether a method writes a wire buffer: a span parameter, or an
    /// encoded return.
    pub open spec fn method_writes_wire(&self, method: CallbackMethodDef, inv: AbiCallbackInvocation, mode: CallbackReturnMode) -> bool {
        let k = abi_method_index(inv.methods@, method.id@);
        k >= 0 && (any_span_pair(bridged_pairs(method.params@, inv.methods@[k].params@)) || return_encoded(
            method.returns,
            inv.methods@[k].returns,
            mode,
        ))
    }

    /// Whether a method returns an `FfiBuf`: an encoded return.
    pub open spec fn method_returns_buffer(&self, method: CallbackMethodDef, inv: AbiCallbackInvocation, mode: CallbackReturnMode) -> bool {
        let k = abi_method_index(inv.methods@, method.id@);
        k >= 0 && return_encoded(method.returns, inv.methods@[k].returns, mode)
    }

    /// Every method of the callback has a vtable method in `inv` and can be
    /// lowered.
    #[verifier::opaque]
    pub open spec fn methods_ready(&self, methods: Seq<CallbackMethodDef>, inv: AbiCallbackInvocation, mode: CallbackReturnMode) -> bool {
        forall|i: int| 0 <= i < methods.len() ==> {
            let k = #[trigger] abi_method_index(inv.methods@, methods[i].id@);
            k >= 0 && method_ready(self.ffi.catalog, methods[i], inv.methods@[k], mode)
        }
    }

    fn callback_method_needs_wire_reader(&self, method: &CallbackMethodDef, abi_callback: &AbiCallbackInvocation, mode: CallbackReturnMode) -> (res: bool)
        requires
            ({
                let k = abi_method_index(abi_callback.methods@, method.id@);
                k >= 0 ==> method_ready(self.ffi.catalog, *method, abi_callback.methods@[k], mode)
            }),
        ensures
            res == self.method_reads_wire(*method, *abi_callback, mode),
    {
        let abi_method = match self.abi_method_for(abi_callback, method) {
            Some(m) => m,
            None => {
                return false;
            },
        };
        let shape = self.lower_callback_method_shape(method, abi_method, mode);
        let params_need = any_needs_wire(&shape.bridge_params);
        params_need || shape.ret.needs_wire_reader()
    }

    fn callback_method_needs_wire_writer(&self, method: &CallbackMethodDef, abi_callback: &AbiCallbackInvocation, mode: CallbackReturnMode) -> (res: bool)
        requires
            ({
                let k = abi_method_index(abi_callback.methods@, method.id@);
                k >= 0 ==> method_ready(self.ffi.catalog, *method, abi_callback.methods@[k], mode)
            }),
        ensures
            res == self.method_writes_wire(*method, *abi_callback, mode),
    {
        let abi_method = match self.abi_method_for(abi_callback, method) {
            Some(m) => m,
            None => {
                return false;
            },
        };
        let shape = self.lower_callback_method_shape(method, abi_method, mode);
        let params_need = any_needs_wire(&shape.bridge_params);
        params_need || shape.ret.needs_wire_writer()
    }

    fn callback_method_needs_ffi_buf(&self, method: &CallbackMethodDef, abi_callback: &AbiCallbackInvocation, mode: CallbackReturnMode) -> (res: bool)
        requires
            ({
                let k = abi_method_index(abi_callback.methods@, method.id@);
                k >= 0 ==> method_ready(self.ffi.catalog, *method, abi_callback.methods@[k], mode)
            }),
        ensures
            res == self.method_returns_buffer(*method, *abi_callback, mode),
    {
        let abi_method = match self.abi_method_for(abi_callback, method) {
            Some(m) => m,
            None => {
                return false;
            },
        };
        let ret = self.callback_return(&method.returns, &abi_method.returns, mode);
        matches!(ret, CallbackReturn::Encoded { .. })
    }
}

impl<'a> CSharpLowerer<'a> {
    /// `plan` is the plan of the callback method `m`, whose vtable method is
    /// the one of `inv` with its id.
    #[verifier::opaque]
    pub open spec fn method_planned(&self, m: CallbackMethodDef, inv: AbiCallbackInvocation, plan: CSharpCallbackMethodPlan) -> bool {
        exists|shape: CallbackMethodShape| #![auto]
            self.shape_spec(m, inv.methods@[abi_method_index(inv.methods@, m.id@)], CallbackReturnMode::CallbackVtable, shape)
                && self.method_plan_spec(shape, plan)
    }

    /// What lowering a callback trait needs: an ABI invocation for it, in
    /// which every method has a vtable method and can be lowered.
    pub open spec fn callback_ready(&self, callback: CallbackTraitDef, mode: CallbackReturnMode) -> bool {
        let c = abi_callback_index(self.abi.callbacks@, callback.id@);
        c >= 0 && self.methods_ready(callback.methods@, self.abi.callbacks@[c], mode)
    }

    /// One method of a callback trait: its plan, whether it is
    /// asynchronous, and whether it reads, writes or returns wire buffers.
    fn lower_vtable_method(&self, method: &CallbackMethodDef, abi_callback: &AbiCallbackInvocation) -> (res: (CSharpCallbackMethodPlan, bool, bool, bool, bool))
        requires
            ({
                let k = abi_method_index(abi_callback.methods@, method.id@);
                k >= 0 && method_ready(self.ffi.catalog, *method, abi_callback.methods@[k], CallbackReturnMode::CallbackVtable)
            }),
        ensures
            self.method_planned(*method, *abi_callback, res.0),
            res.1 == (method.execution_kind == crate::defs::ExecutionKind::Async),
            res.2 == self.method_reads_wire(*method, *abi_callback, CallbackReturnMode::CallbackVtable),
            res.3 == self.method_writes_wire(*method, *abi_callback, CallbackReturnMode::CallbackVtable),
            res.4 == self.method_returns_buffer(*method, *abi_callback, CallbackReturnMode::CallbackVtable),
    {
        let abi_method = self.abi_method_for(abi_callback, method).unwrap();
        let plan = self.lower_callback_method(method, abi_method);
        proof {
            reveal(CSharpLowerer::method_planned);
        }
        let is_async = method.is_async();
        let reads = self.callback_method_needs_wire_reader(method, abi_callback, CallbackReturnMode::CallbackVtable);
        let writes = self.callback_method_needs_wire_writer(method, abi_callback, CallbackReturnMode::CallbackVtable);
        let buffer = self.callback_method_needs_ffi_buf(method, abi_callback, CallbackReturnMode::CallbackVtable);
        (plan, is_async, reads, writes, buffer)
    }

    /// Lowers a callback trait: its class names, one plan per method, the
    /// registration functions of its ABI invocation, and which runtime
    /// helpers its methods need.
    #[verifier::rlimit(100)]
    #[verifier::spinoff_prover]
    pub fn lower_callback(&self, callback: &CallbackTraitDef) -> (res: CSharpCallbackPlan)
        requires
            self.callback_ready(*callback, CallbackReturnMode::CallbackVtable),
        ensures
            ({
                let inv = self.abi.callbacks@[abi_callback_index(self.abi.callbacks@, callback.id@)];
                let ms = callback.methods@;
                let mode = CallbackReturnMode::CallbackVtable;
                &&& res.public_name@ == self.public_class_name_spec(callback.id@)
                &&& res.proxy_name@ == self.public_class_name_spec(callback.id@) + "Proxy"@
                &&& res.bridge_name@ == self.bridge_class_name_spec(callback.id@)
                &&& res.register_fn@ == inv.register_fn@
                &&& res.create_fn@ == inv.create_fn@
                &&& res.methods@.len() == ms.len()
                &&& forall|i: int| 0 <= i < ms.len() ==> #[trigger] self.method_planned(ms[i], inv, res.methods@[i])
                &&& res.has_async_methods == exists|i: int| 0 <= i < ms.len() && (#[trigger] ms[i]).execution_kind == crate::defs::ExecutionKind::Async
                &&& res.needs_wire_reader == exists|i: int| 0 <= i < ms.len() && self.method_reads_wire(#[trigger] ms[i], inv, mode)
                &&& res.needs_wire_writer == exists|i: int| 0 <= i < ms.len() && self.method_writes_wire(#[trigger] ms[i], inv, mode)
                &&& res.needs_ffi_buf == exists|i: int| 0 <= i < ms.len() && self.method_returns_buffer(#[trigger] ms[i], inv, mode)
            }),
    {
        let abi_callback = self.abi_callback_for(&callback.id).unwrap();
        let ghost inv = *abi_callback;
        let ghost ms = callback.methods@;
        let ghost mode = CallbackReturnMode::CallbackVtable;
        let mut methods: Vec<CSharpCallbackMethodPlan> = Vec::new();
        let mut has_async_methods = false;
        let mut needs_wire_reader = false;
        let mut needs_wire_writer = false;
        let mut needs_ffi_buf = false;
        let mut i: usize = 0;
        while i < callback.methods.len()
            invariant
                inv == *abi_callback,
                ms == callback.methods@,
                mode == CallbackReturnMode::CallbackVtable,
                self.methods_ready(ms, inv, mode),
                i <= ms.len(),
                methods@.len() == i,
                forall|j: int| 0 <= j < i ==> #[trigger] self.method_planned(ms[j], inv, methods@[j]),
                has_async_methods == exists|j: int| 0 <= j < i && (#[trigger] ms[j]).execution_kind == crate::defs::ExecutionKind::Async,
                needs_wire_reader == exists|j: int| 0 <= j < i && self.method_reads_wire(#[trigger] ms[j], inv, mode),
                needs_wire_writer == exists|j: int| 0 <= j < i && self.method_writes_wire(#[trigger] ms[j], inv, mode),
                needs_ffi_buf == exists|j: int| 0 <= j < i && self.method_returns_buffer(#[trigger] ms[j], inv, mode),
            decreases callback.methods.len() - i,
        {
            let method = &callback.methods[i];
            assert({
                let k = abi_method_index(inv.methods@, ms[i as int].id@);
                k >= 0 && method_ready(self.ffi.catalog, ms[i as int], inv.methods@[k], mode)
            }) by {
                reveal(CSharpLowerer::methods_ready);
            }
            let (plan, is_async, reads, writes, buffer) = self.lower_vtable_method(method, abi_callback);
            methods.push(plan);
            has_async_methods = has_async_methods || is_async;
            needs_wire_reader = needs_wire_reader || reads;
            needs_wire_writer = needs_wire_writer || writes;
            needs_ffi_buf = needs_ffi_buf || buffer;
            proof {
                assert(methods@[i as int] == methods@.last());
            }
            i = i + 1;
        }
        CSharpCallbackPlan {
            public_name: self.callback_public_class_name(&callback.id),
            proxy_name: self.callback_proxy_class_name(&callback.id),
            bridge_name: self.callback_bridge_class_name(&callback.id),
            methods,
            register_fn: CFunctionName::new(abi_callback.register_fn.clone()),
            create_fn: CFunctionName::new(abi_callback.create_fn.clone()),
            has_async_methods,
            needs_wire_reader,
            needs_wire_writer,
            needs_ffi_buf,
        }
    }

    /// What lowering a closure needs: an ABI invocation with a vtable method
    /// for its first method, which can be lowered.
    pub open spec fn closure_ready(&self, callback: CallbackTraitDef) -> bool {
        let c = abi_callback_index(self.abi.callbacks@, callback.id@);
        &&& c >= 0
        &&& callback.methods@.len() > 0
        &&& self.methods_ready(seq![callback.methods@[0]], self.abi.callbacks@[c], CallbackReturnMode::InlineClosure)
    }

    /// Lowers a closure signature: its class names, the plan of its one
    /// method, and which runtime helpers it needs.
    pub fn lower_closure(&self, callback: &CallbackTraitDef) -> (res: CSharpClosurePlan)
        requires
            self.closure_ready(*callback),
        ensures
            ({
                let inv = self.abi.callbacks@[abi_callback_index(self.abi.callbacks@, callback.id@)];
                let m = callback.methods@[0];
                let mode = CallbackReturnMode::InlineClosure;
                &&& res.public_name@ == self.public_class_name_spec(callback.id@)
                &&& res.bridge_name@ == self.bridge_class_name_spec(callback.id@)
                &&& exists|shape: CallbackMethodShape| #![auto]
                    self.shape_spec(m, inv.methods@[abi_method_index(inv.methods@, m.id@)], mode, shape)
                        && self.closure_method_plan_spec(shape, res.method)
                &&& res.needs_wire_reader == self.method_reads_wire(m, inv, mode)
                &&& res.needs_wire_writer == self.method_writes_wire(m, inv, mode)
                &&& res.needs_ffi_buf == self.method_returns_buffer(m, inv, mode)
            }),
    {
        let abi_callback = self.abi_callback_for(&callback.id).unwrap();
        let method = &callback.methods[0];
        assert(seq![callback.methods@[0]][0] == *method);
        proof {
            reveal(CSharpLowerer::methods_ready);
        }
        let abi_method = self.abi_method_for(abi_callback, method).unwrap();
        CSharpClosurePlan {
            public_name: self.callback_public_class_name(&callback.id),
            bridge_name: self.callback_bridge_class_name(&callback.id),
            method: self.lower_closure_method(method, abi_method),
            needs_wire_reader: self.callback_method_needs_wire_reader(method, abi_callback, CallbackReturnMode::InlineClosure),
            needs_wire_writer: self.callback_method_needs_wire_writer(method, abi_callback, CallbackReturnMode::InlineClosure),
            needs_ffi_buf: self.callback_method_needs_ffi_buf(method, abi_callback, CallbackReturnMode::InlineClosure),
        }
    }
}

} // verus!
