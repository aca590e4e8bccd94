//! Render plans for C# callback traits and closures.
//!
//! A plan holds every name, signature and expression the C# templates need,
//! already decided, so rendering is a straight walk over the plan.

use vstd::prelude::*;
use vstd::string::*;

use crate::csharp_ast::{
    attributes_text, expr_like, expr_text, param_text, statement_text, type_text, CSharpArgumentList, CSharpExpression, CSharpIdentity, CSharpParameter,
    CSharpParameterList, CSharpStatement, CSharpType,
};
use crate::csharp_names::{CSharpClassName, CSharpLocalName, CSharpMethodName, CSharpParamName, CSharpPropertyName};
use crate::naming::pascal_case;

verus! {

/// The name of a function exported by the native library.
#[derive(Debug)]
pub struct CFunctionName(pub String);

impl View for CFunctionName {
    type V = Seq<char>;

    open spec fn view(&self) -> Seq<char> {
        self.0@
    }
}

impl CFunctionName {
    /// Keeps `name` as it is.
    pub fn new(name: String) -> (res: Self)
        ensures
            res@ == name@,
    {
        CFunctionName(name)
    }

    /// The spelling.
    pub fn as_str(&self) -> (res: &str)
        ensures
            res@ == self@,
    {
        self.0.as_str()
    }
}

/// How one value is written to a wire buffer: the writer and byte-array
/// locals, the parameter it encodes, the size expression the writer is
/// created with, and the encode statements.
pub struct CSharpWireWriterPlan {
    pub binding_name: CSharpLocalName,
    pub bytes_binding_name: CSharpLocalName,
    pub param_name: CSharpParamName,
    pub size_expr: CSharpExpression,
    pub encode_stmts: Vec<CSharpStatement>,
}

/// A callback trait implemented on the C# side.
pub struct CSharpCallbackPlan {
    pub public_name: CSharpClassName,
    pub proxy_name: CSharpClassName,
    pub bridge_name: CSharpClassName,
    pub methods: Vec<CSharpCallbackMethodPlan>,
    pub register_fn: CFunctionName,
    pub create_fn: CFunctionName,
    pub has_async_methods: bool,
    pub needs_wire_reader: bool,
    pub needs_wire_writer: bool,
    pub needs_ffi_buf: bool,
}

/// An inline closure signature implemented on the C# side.
pub struct CSharpClosurePlan {
    pub public_name: CSharpClassName,
    pub bridge_name: CSharpClassName,
    pub method: CSharpClosureMethodPlan,
    pub needs_wire_reader: bool,
    pub needs_wire_writer: bool,
    pub needs_ffi_buf: bool,
}

/// One method of a callback trait.
pub struct CSharpCallbackMethodPlan {
    pub name: CSharpMethodName,
    pub vtable_field: CSharpLocalName,
    pub return_type: CSharpType,
    pub is_async: bool,
    pub public_params: Vec<CSharpCallbackParamPlan>,
    pub entry: CSharpCallbackEntryPlan,
    pub proxy: CSharpCallbackProxyPlan,
    pub delegates: CSharpCallbackDelegatePlan,
}

/// The one method of a closure.
pub struct CSharpClosureMethodPlan {
    pub return_type: CSharpType,
    pub public_params: Vec<CSharpCallbackParamPlan>,
    pub native_return_type: CSharpType,
    pub native_params: CSharpParameterList,
    pub bridge_params: Vec<CSharpCallbackBridgeParamPlan>,
    pub invoke: CSharpClosureInvokePlan,
}

/// A parameter of the public C# interface method.
pub struct CSharpCallbackParamPlan {
    pub csharp_type: CSharpType,
    pub name: CSharpParamName,
}

/// How the closure bridge invokes the user's delegate.
pub enum CSharpClosureInvokePlan {
    Void { decoded_args: CSharpArgumentList },
    Direct { decoded_args: CSharpArgumentList, native_value_expr: CSharpExpression },
    Encoded {
        is_result: bool,
        decoded_args: CSharpArgumentList,
        result_assignment: Option<Box<CSharpCallbackResultAssignmentPlan>>,
        writer: Box<CSharpWireWriterPlan>,
    },
}

/// The native entry point of a callback method.
pub enum CSharpCallbackEntryPlan {
    Sync(Box<CSharpSyncCallbackEntryPlan>),
    Async(Box<CSharpAsyncCallbackEntryPlan>),
}

/// The native entry point of a synchronous callback method.
pub struct CSharpSyncCallbackEntryPlan {
    pub native_params: CSharpParameterList,
    pub out_initializer: CSharpSyncCallbackOutInitializerPlan,
    pub bridge_params: Vec<CSharpCallbackBridgeParamPlan>,
    pub success: CSharpSyncCallbackSuccessPlan,
}

/// What the `out` return slots are set to before the call.
pub enum CSharpSyncCallbackOutInitializerPlan {
    Void,
    Direct { default_value: CSharpExpression },
    Encoded,
}

/// What a synchronous entry does once the implementation returned.
pub enum CSharpSyncCallbackSuccessPlan {
    Void { decoded_args: CSharpArgumentList },
    Direct { decoded_args: CSharpArgumentList, native_value_expr: CSharpExpression },
    Encoded {
        is_result: bool,
        decoded_args: CSharpArgumentList,
        result_assignment: Option<Box<CSharpCallbackResultAssignmentPlan>>,
        writer: Box<CSharpWireWriterPlan>,
    },
}

/// The native entry point of an asynchronous callback method.
pub struct CSharpAsyncCallbackEntryPlan {
    pub native_params: CSharpParameterList,
    pub bridge_params: Vec<CSharpCallbackBridgeParamPlan>,
    pub decoded_args: CSharpArgumentList,
    pub invalid_handle_completion: CSharpAsyncCallbackFailurePlan,
    pub canceled_completion: CSharpAsyncCallbackFailurePlan,
    pub faulted_completion: CSharpAsyncCallbackFaultPlan,
    pub success_completion: CSharpAsyncCallbackSuccessPlan,
    pub catch_completion: CSharpAsyncCallbackFailurePlan,
}

/// How an asynchronous entry reports a failure to the completion.
pub enum CSharpAsyncCallbackFailurePlan {
    Void,
    Direct { default_value: CSharpExpression },
    Encoded,
}

/// How an asynchronous entry reports the task's result.
pub enum CSharpAsyncCallbackSuccessPlan {
    Void,
    Direct { native_value_expr: CSharpExpression },
    Encoded { is_result: bool, result_type: CSharpResultTypePlan, writer: Box<CSharpWireWriterPlan> },
}

/// How an asynchronous entry reports a faulted task.
pub enum CSharpAsyncCallbackFaultPlan {
    Failure(CSharpAsyncCallbackFailurePlan),
    EncodedResult {
        exception_type: Option<CSharpType>,
        error_value_expr: Box<CSharpExpression>,
        result_type: Box<CSharpResultTypePlan>,
        writer: Box<CSharpWireWriterPlan>,
        fallback: Option<CSharpAsyncCallbackFailurePlan>,
    },
}

/// The C# proxy that forwards a Rust-implemented callback.
pub enum CSharpCallbackProxyPlan {
    AsyncUnsupported { public_params: CSharpParameterList, result_type: Option<CSharpType> },
    Sync(Box<CSharpSyncCallbackProxyPlan>),
}

/// The proxy of a synchronous callback method.
pub struct CSharpSyncCallbackProxyPlan {
    pub public_params: CSharpParameterList,
    pub return_type: CSharpType,
    pub bridge_params: Vec<CSharpCallbackBridgeParamPlan>,
    pub has_cleanup: bool,
    pub call: CSharpCallbackProxyCallPlan,
}

/// The native call a proxy makes and how it reads the result back.
pub enum CSharpCallbackProxyCallPlan {
    Void { args: CSharpArgumentList },
    Direct { args: CSharpArgumentList, native_out_type: CSharpType, public_expr: CSharpExpression },
    Encoded {
        args: CSharpArgumentList,
        decode_expr: Option<CSharpExpression>,
        result_decode: Option<CSharpCallbackResultDecodePlan>,
    },
}

/// The delegate signatures a callback method needs.
pub struct CSharpCallbackDelegatePlan {
    pub entry_params: CSharpParameterList,
    pub completion_params: Option<CSharpParameterList>,
    pub proxy_params: Option<CSharpParameterList>,
}

/// The C# types of the two branches of a result.
pub struct CSharpResultTypePlan {
    pub ok_type: CSharpType,
    pub err_type: CSharpType,
}

/// How the result of a fallible callback method is computed.
pub struct CSharpCallbackResultAssignmentPlan {
    pub result_type: CSharpResultTypePlan,
    pub ok: CSharpCallbackResultOkPlan,
    pub catch: Option<CSharpCallbackResultCatchPlan>,
}

/// The call whose value becomes the `Ok` branch.
pub enum CSharpCallbackResultOkPlan {
    Void { receiver: CSharpExpression, method_name: CSharpMethodName, args: CSharpArgumentList },
    Value { receiver: CSharpExpression, method_name: CSharpMethodName, args: CSharpArgumentList },
}

/// Which exception becomes the `Err` branch.
pub enum CSharpCallbackResultCatchPlan {
    TypedException { exception_type: CSharpType },
    ExceptionMessage,
}

/// How a proxy decodes a result read back from the wire.
pub struct CSharpCallbackResultDecodePlan {
    pub err_expr: CSharpExpression,
    pub ok_expr: Option<CSharpExpression>,
}

/// One parameter as it crosses the callback bridge: passed directly, or
/// wire-encoded as a pointer and a length.
pub enum CSharpCallbackBridgeParamPlan {
    Direct {
        public_param: CSharpParameter,
        native_param: CSharpParameter,
        decoded_arg: CSharpExpression,
        proxy_arg: CSharpExpression,
    },
    WireEncoded {
        public_param: CSharpParameter,
        native_ptr_param: CSharpParameter,
        native_len_param: CSharpParameter,
        reader_local: CSharpLocalName,
        decoded_arg: CSharpExpression,
        writer: Box<CSharpWireWriterPlan>,
        pin_local: CSharpLocalName,
        ptr_local: CSharpLocalName,
    },
}

impl CSharpCallbackBridgeParamPlan {
    /// The parameter of the public interface method.
    pub open spec fn public_param_spec(self) -> CSharpParameter {
        match self {
            CSharpCallbackBridgeParamPlan::Direct { public_param, .. } => public_param,
            CSharpCallbackBridgeParamPlan::WireEncoded { public_param, .. } => public_param,
        }
    }

    /// The expression that hands the decoded argument to the implementation.
    pub open spec fn decoded_arg_spec(self) -> CSharpExpression {
        match self {
            CSharpCallbackBridgeParamPlan::Direct { decoded_arg, .. } => decoded_arg,
            CSharpCallbackBridgeParamPlan::WireEncoded { decoded_arg, .. } => decoded_arg,
        }
    }

    /// The native parameters, in order: the one parameter of a direct
    /// value, or the pointer and the length of an encoded one.
    pub open spec fn native_params_spec(self) -> Seq<CSharpParameter> {
        match self {
            CSharpCallbackBridgeParamPlan::Direct { native_param, .. } => seq![native_param],
            CSharpCallbackBridgeParamPlan::WireEncoded { native_ptr_param, native_len_param, .. } => seq![
                native_ptr_param,
                native_len_param,
            ],
        }
    }

    /// The texts of the arguments a proxy passes for this parameter: the
    /// value itself, or the pinned pointer and the encoded length.
    pub open spec fn proxy_arg_texts(self) -> Seq<Seq<char>> {
        match self {
            CSharpCallbackBridgeParamPlan::Direct { proxy_arg, .. } => seq![expr_text(proxy_arg)],
            CSharpCallbackBridgeParamPlan::WireEncoded { writer, ptr_local, .. } => seq![
                ptr_local@,
                "("@ + type_text(CSharpType::UIntPtr) + ")"@ + writer.bytes_binding_name@ + "."@ + pascal_case(
                    "length"@,
                ),
            ],
        }
    }

    /// The parameter of the public interface method.
    pub fn public_param(&self) -> (res: &CSharpParameter)
        ensures
            *res == self.public_param_spec(),
    {
        match self {
            CSharpCallbackBridgeParamPlan::Direct { public_param, .. } => public_param,
            CSharpCallbackBridgeParamPlan::WireEncoded { public_param, .. } => public_param,
        }
    }

    /// The parameters of the native entry point.
    pub fn native_params(&self) -> (res: Vec<CSharpParameter>)
        ensures
            res@.len() == self.native_params_spec().len(),
            forall|i: int| 0 <= i < res@.len() ==> {
                &&& param_text(#[trigger] res@[i]) == param_text(self.native_params_spec()[i])
                &&& res@[i].csharp_type == self.native_params_spec()[i].csharp_type
                &&& res@[i].name == self.native_params_spec()[i].name
                &&& res@[i].modifier == self.native_params_spec()[i].modifier
            },
    {
        let mut res: Vec<CSharpParameter> = Vec::new();
        match self {
            CSharpCallbackBridgeParamPlan::Direct { native_param, .. } => {
                res.push(native_param.clone());
            },
            CSharpCallbackBridgeParamPlan::WireEncoded { native_ptr_param, native_len_param, .. } => {
                res.push(native_ptr_param.clone());
                res.push(native_len_param.clone());
            },
        }
        res
    }

    /// The argument handed to the implementation.
    pub fn decoded_arg(&self) -> (res: &CSharpExpression)
        ensures
            *res == self.decoded_arg_spec(),
    {
        match self {
            CSharpCallbackBridgeParamPlan::Direct { decoded_arg, .. } => decoded_arg,
            CSharpCallbackBridgeParamPlan::WireEncoded { decoded_arg, .. } => decoded_arg,
        }
    }

    /// How the arguments a proxy passes for this parameter are built: a
    /// copy of the direct argument, or the pinned pointer local and the
    /// byte length of the written buffer cast to `UIntPtr`.
    pub open spec fn proxy_args_shape(self, args: Seq<CSharpExpression>) -> bool {
        match self {
            CSharpCallbackBridgeParamPlan::Direct { proxy_arg, .. } => args.len() == 1 && expr_like(proxy_arg, args[0]),
            CSharpCallbackBridgeParamPlan::WireEncoded { writer, ptr_local, .. } => {
                &&& args.len() == 2
                &&& args[0] == CSharpExpression::Identity(CSharpIdentity::Local(ptr_local))
                &&& args[1] matches CSharpExpression::Cast { target, inner } && target == CSharpType::UIntPtr && (*inner matches CSharpExpression::MemberAccess {
                    receiver,
                    name,
                } && *receiver == CSharpExpression::Identity(CSharpIdentity::Local(writer.bytes_binding_name)) && name@ == pascal_case(
                    "length"@,
                ))
            },
        }
    }

    /// The arguments a proxy passes to the native function.
    pub fn proxy_args(&self) -> (res: CSharpArgumentList)
        ensures
            self.proxy_args_shape(res.args@),
            res.args@.len() == self.proxy_arg_texts().len(),
            forall|i: int| 0 <= i < res.args@.len() ==> expr_text(#[trigger] res.args@[i]) == self.proxy_arg_texts()[i],
    {
        let mut args = CSharpArgumentList::empty();
        match self {
            CSharpCallbackBridgeParamPlan::Direct { proxy_arg, .. } => {
                args.push(proxy_arg.clone());
            },
            CSharpCallbackBridgeParamPlan::WireEncoded { writer, ptr_local, .. } => {
                let ptr = local_expr(ptr_local);
                assert(expr_text(ptr) == ptr_local@);
                args.push(ptr);
                let len = bytes_length_expr(&writer.bytes_binding_name);
                let cast = CSharpExpression::Cast { target: CSharpType::UIntPtr, inner: Box::new(len) };
                assert(expr_text(cast) == "("@ + type_text(CSharpType::UIntPtr) + ")"@ + expr_text(len));
                args.push(cast);
            },
        }
        args
    }

    /// Whether the entry point decodes this parameter with a wire reader.
    pub fn needs_wire_reader(&self) -> (res: bool)
        ensures
            res == (*self is WireEncoded),
    {
        matches!(self, CSharpCallbackBridgeParamPlan::WireEncoded { .. })
    }

    /// Whether the proxy encodes this parameter with a wire writer.
    pub fn needs_wire_writer(&self) -> (res: bool)
        ensures
            res == (*self is WireEncoded),
    {
        matches!(self, CSharpCallbackBridgeParamPlan::WireEncoded { .. })
    }
}

fn local_expr(name: &CSharpLocalName) -> (res: CSharpExpression)
    ensures
        res == CSharpExpression::Identity(CSharpIdentity::Local(*name)),
{
    CSharpExpression::Identity(CSharpIdentity::Local(name.clone()))
}

fn bytes_length_expr(bytes_local: &CSharpLocalName) -> (res: CSharpExpression)
    ensures
        res matches CSharpExpression::MemberAccess { receiver, name } && *receiver == CSharpExpression::Identity(
            CSharpIdentity::Local(*bytes_local),
        ) && name@ == pascal_case("length"@),
        expr_text(res) == bytes_local@ + "."@ + pascal_case("length"@),
{
    let receiver = local_expr(bytes_local);
    assert(expr_text(receiver) == bytes_local@);
    let res = CSharpExpression::MemberAccess {
        receiver: Box::new(receiver),
        name: CSharpPropertyName::from_source("length"),
    };
    res
}

/// Two writer plans with the same locals, parameter, size text and
/// statement texts.
pub open spec fn writer_like(a: CSharpWireWriterPlan, b: CSharpWireWriterPlan) -> bool {
    &&& a.binding_name == b.binding_name
    &&& a.bytes_binding_name == b.bytes_binding_name
    &&& a.param_name == b.param_name
    &&& expr_text(a.size_expr) == expr_text(b.size_expr)
    &&& a.encode_stmts@.len() == b.encode_stmts@.len()
    &&& forall|i: int| 0 <= i < a.encode_stmts@.len() ==> statement_text(#[trigger] a.encode_stmts@[i]) == statement_text(b.encode_stmts@[i])
}

impl CSharpWireWriterPlan {
    /// A copy spelled like the value it copies.
    pub fn clone_plan(&self) -> (res: Self)
        ensures
            writer_like(res, *self),
    {
        let mut stmts: Vec<CSharpStatement> = Vec::new();
        let mut i: usize = 0;
        while i < self.encode_stmts.len()
            invariant
                i <= self.encode_stmts@.len(),
                stmts@.len() == i,
                forall|j: int| 0 <= j < i ==> statement_text(#[trigger] stmts@[j]) == statement_text(self.encode_stmts@[j]),
            decreases self.encode_stmts.len() - i,
        {
            stmts.push(self.encode_stmts[i].clone());
            i = i + 1;
        }
        CSharpWireWriterPlan {
            binding_name: self.binding_name.clone(),
            bytes_binding_name: self.bytes_binding_name.clone(),
            param_name: self.param_name.clone(),
            size_expr: self.size_expr.clone(),
            encode_stmts: stmts,
        }
    }
}

/// Two parameters spelled alike, with the same type, name, modifier and
/// attributes.
pub open spec fn same_param(a: CSharpParameter, b: CSharpParameter) -> bool {
    &&& param_text(a) == param_text(b)
    &&& a.csharp_type == b.csharp_type
    &&& a.name == b.name
    &&& a.modifier == b.modifier
    &&& a.attributes@.len() == b.attributes@.len()
    &&& attributes_text(a.attributes@) == attributes_text(b.attributes@)
}

/// Two bridge parameters of the same kind whose parts are spelled alike.
pub open spec fn bridge_like(a: CSharpCallbackBridgeParamPlan, b: CSharpCallbackBridgeParamPlan) -> bool {
    match (a, b) {
        (
            CSharpCallbackBridgeParamPlan::Direct { public_param: p1, native_param: n1, decoded_arg: d1, proxy_arg: x1 },
            CSharpCallbackBridgeParamPlan::Direct { public_param: p2, native_param: n2, decoded_arg: d2, proxy_arg: x2 },
        ) => same_param(p1, p2) && same_param(n1, n2) && expr_text(d1) == expr_text(d2) && expr_text(x1) == expr_text(x2),
        (
            CSharpCallbackBridgeParamPlan::WireEncoded {
                public_param: p1,
                native_ptr_param: q1,
                native_len_param: l1,
                reader_local: r1,
                decoded_arg: d1,
                writer: w1,
                pin_local: i1,
                ptr_local: t1,
            },
            CSharpCallbackBridgeParamPlan::WireEncoded {
                public_param: p2,
                native_ptr_param: q2,
                native_len_param: l2,
                reader_local: r2,
                decoded_arg: d2,
                writer: w2,
                pin_local: i2,
                ptr_local: t2,
            },
        ) => {
            &&& same_param(p1, p2)
            &&& same_param(q1, q2)
            &&& same_param(l1, l2)
            &&& r1 == r2
            &&& expr_text(d1) == expr_text(d2)
            &&& writer_like(*w1, *w2)
            &&& i1 == i2
            &&& t1 == t2
        },
        _ => false,
    }
}

impl CSharpCallbackBridgeParamPlan {
    /// A copy whose parts are spelled like those of the value it copies.
    pub fn clone_plan(&self) -> (res: Self)
        ensures
            bridge_like(res, *self),
    {
        match self {
            CSharpCallbackBridgeParamPlan::Direct { public_param, native_param, decoded_arg, proxy_arg } => {
                CSharpCallbackBridgeParamPlan::Direct {
                    public_param: public_param.clone(),
                    native_param: native_param.clone(),
                    decoded_arg: decoded_arg.clone(),
                    proxy_arg: proxy_arg.clone(),
                }
            },
            CSharpCallbackBridgeParamPlan::WireEncoded {
                public_param,
                native_ptr_param,
                native_len_param,
                reader_local,
                decoded_arg,
                writer,
                pin_local,
                ptr_local,
            } => CSharpCallbackBridgeParamPlan::WireEncoded {
                public_param: public_param.clone(),
                native_ptr_param: native_ptr_param.clone(),
                native_len_param: native_len_param.clone(),
                reader_local: reader_local.clone(),
                decoded_arg: decoded_arg.clone(),
                writer: Box::new(writer.clone_plan()),
                pin_local: pin_local.clone(),
                ptr_local: ptr_local.clone(),
            },
        }
    }
}

/// Two lists of bridge parameters alike element by element.
pub open spec fn bridges_like(a: Seq<CSharpCallbackBridgeParamPlan>, b: Seq<CSharpCallbackBridgeParamPlan>) -> bool {
    a.len() == b.len() && forall|i: int| 0 <= i < a.len() ==> bridge_like(#[trigger] a[i], b[i])
}

/// A copy of every bridge parameter, in order.
pub fn clone_bridge_params(params: &Vec<CSharpCallbackBridgeParamPlan>) -> (res: Vec<CSharpCallbackBridgeParamPlan>)
    ensures
        bridges_like(res@, params@),
{
    let mut res: Vec<CSharpCallbackBridgeParamPlan> = Vec::new();
    let mut i: usize = 0;
    while i < params.len()
        invariant
            i <= params@.len(),
            res@.len() == i,
            forall|j: int| 0 <= j < i ==> bridge_like(#[trigger] res@[j], params@[j]),
        decreases params.len() - i,
    {
        res.push(params[i].clone_plan());
        i = i + 1;
    }
    res
}

} // verus!
