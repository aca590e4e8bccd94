//! The ABI side of a contract: how each callback method's parameters and
//! return value cross the C boundary.

use vstd::prelude::*;

use crate::ids::{CallbackId, ClassId, MethodId, ParamName, RecordId};
use crate::types::PrimitiveType;
use crate::wire::{ReadSeq, WriteSeq};

verus! {

/// A C-level type of a parameter or return slot.
pub enum AbiType {
    Void,
    Bool,
    I8,
    U8,
    I16,
    U16,
    I32,
    U32,
    I64,
    U64,
    ISize,
    USize,
    F32,
    F64,
    Pointer(PrimitiveType),
    OwnedBuffer,
    Handle(ClassId),
    CallbackHandle,
    Struct(RecordId),
    InlineCallbackFn { callback_id: CallbackId },
}

/// Where a scalar came from: a primitive, or the tag of a C-style enum.
pub enum ScalarOrigin {
    Primitive(PrimitiveType),
    CStyleEnum { tag_type: PrimitiveType },
}

impl ScalarOrigin {
    /// The primitive the scalar travels as.
    pub open spec fn primitive_spec(self) -> PrimitiveType {
        match self {
            ScalarOrigin::Primitive(p) => p,
            ScalarOrigin::CStyleEnum { tag_type } => tag_type,
        }
    }

    /// The primitive the scalar travels as.
    pub fn primitive(&self) -> (res: PrimitiveType)
        ensures
            res == self.primitive_spec(),
    {
        match self {
            ScalarOrigin::Primitive(p) => *p,
            ScalarOrigin::CStyleEnum { tag_type } => *tag_type,
        }
    }
}

/// The layout of a record passed by value.
pub struct CompositeLayout {
    pub record_id: RecordId,
}

/// What a span carries.
#[derive(Clone, Copy, Debug, PartialEq, Eq, Structural)]
pub enum SpanContent {
    Utf8,
    Bytes,
    Encoded,
}

/// How a value crosses the boundary.
pub enum Transport {
    Scalar(ScalarOrigin),
    Composite(CompositeLayout),
    Span(SpanContent),
    Callback { callback_id: CallbackId, nullable: bool },
    Handle { class_id: ClassId, nullable: bool },
}

/// The role of one C-level parameter.
pub enum ParamRole {
    /// A value the caller hands in, with the length parameter that goes with
    /// a span and the reads and writes of an encoded value.
    Input {
        transport: Transport,
        len_param: Option<ParamName>,
        decode_ops: Option<ReadSeq>,
        encode_ops: Option<WriteSeq>,
    },
    /// The length that goes with a span parameter.
    SpanLength { for_param: ParamName },
    /// The context pointer of an inline closure.
    Context,
}

/// One C-level parameter.
pub struct AbiParam {
    pub name: ParamName,
    pub abi_type: AbiType,
    pub role: ParamRole,
}

/// How a return value crosses the boundary; no transport means nothing is
/// returned.
pub struct ReturnShape {
    pub transport: Option<Transport>,
    pub decode_ops: Option<ReadSeq>,
    pub encode_ops: Option<WriteSeq>,
}

/// One method of a callback's vtable.
pub struct AbiCallbackMethod {
    pub id: MethodId,
    pub vtable_field: String,
    pub params: Vec<AbiParam>,
    pub returns: ReturnShape,
}

/// How a callback trait is registered and created across the boundary.
pub struct AbiCallbackInvocation {
    pub callback_id: CallbackId,
    pub register_fn: String,
    pub create_fn: String,
    pub methods: Vec<AbiCallbackMethod>,
}

/// The ABI of a contract.
pub struct AbiContract {
    pub callbacks: Vec<AbiCallbackInvocation>,
}

impl AbiContract {
    /// An ABI with no callbacks.
    pub fn new() -> (res: Self)
        ensures
            res.callbacks@.len() == 0,
    {
        AbiContract { callbacks: Vec::new() }
    }
}

} // verus!
