//! Type expressions of the FFI contract.

use vstd::prelude::*;

use crate::ids::{BuiltinId, CallbackId, ClassId, CustomTypeId, EnumId, RecordId};

verus! {

/// A scalar the boundary carries by value.
#[derive(Clone, Copy, Debug, PartialEq, Eq, Structural)]
pub enum PrimitiveType {
    Bool,
    I8,
    U8,
    I16,
    U16,
    I32,
    U32,
    I64,
    U64,
    ISize,
    USize,
    F32,
    F64,
}

/// Whether a primitive is an integer of a fixed width from 8 to 64 bits,
/// signed or not.
pub open spec fn fixed_width_integer(p: PrimitiveType) -> bool {
    ||| p == PrimitiveType::I8
    ||| p == PrimitiveType::U8
    ||| p == PrimitiveType::I16
    ||| p == PrimitiveType::U16
    ||| p == PrimitiveType::I32
    ||| p == PrimitiveType::U32
    ||| p == PrimitiveType::I64
    ||| p == PrimitiveType::U64
}

/// The shape of a value at the boundary, before any backend has chosen how
/// to spell it.
#[derive(Debug)]
pub enum TypeExpr {
    Void,
    Primitive(PrimitiveType),
    String,
    Bytes,
    Builtin(BuiltinId),
    Record(RecordId),
    Enum(EnumId),
    Custom(CustomTypeId),
    Vec(Box<TypeExpr>),
    Option(Box<TypeExpr>),
    Result { ok: Box<TypeExpr>, err: Box<TypeExpr> },
    Callback(CallbackId),
    Handle(ClassId),
}

impl Clone for TypeExpr {
    fn clone(&self) -> (res: Self)
        ensures
            res == *self,
        decreases self,
    {
        match self {
            TypeExpr::Void => TypeExpr::Void,
            TypeExpr::Primitive(p) => TypeExpr::Primitive(*p),
            TypeExpr::String => TypeExpr::String,
            TypeExpr::Bytes => TypeExpr::Bytes,
            TypeExpr::Builtin(id) => TypeExpr::Builtin(id.clone()),
            TypeExpr::Record(id) => TypeExpr::Record(id.clone()),
            TypeExpr::Enum(id) => TypeExpr::Enum(id.clone()),
            TypeExpr::Custom(id) => TypeExpr::Custom(id.clone()),
            TypeExpr::Vec(inner) => TypeExpr::Vec(Box::new((**inner).clone())),
            TypeExpr::Option(inner) => TypeExpr::Option(Box::new((**inner).clone())),
            TypeExpr::Result { ok, err } => TypeExpr::Result {
                ok: Box::new((**ok).clone()),
                err: Box::new((**err).clone()),
            },
            TypeExpr::Callback(id) => TypeExpr::Callback(id.clone()),
            TypeExpr::Handle(id) => TypeExpr::Handle(id.clone()),
        }
    }
}

} // verus!
