//! Codec trees of the binding contract: how one encoded value is read
//! from, and written to, its boundary bytes.

use vstd::prelude::*;

use crate::ids::{CallbackId, ClassId, CustomTypeId, EnumId, RecordId};
use crate::types::PrimitiveType;
use crate::wire::ValueExpr;

verus! {

/// One node of a codec tree. A node that references a record knows
/// whether the record crosses by direct memory or by encoded fields, so a
/// renderer that walks the tree cannot pick another strategy for a nested
/// value.
pub enum CodecNode {
    /// A primitive scalar.
    Primitive(PrimitiveType),
    /// A UTF-8 string.
    String,
    /// A byte buffer.
    Bytes,
    /// A record carried by its direct memory layout.
    DirectRecord(RecordId),
    /// A record carried by its encoded fields.
    EncodedRecord(RecordId),
    /// A fieldless enum carried by its discriminant.
    CStyleEnum(EnumId),
    /// A payload-carrying enum carried by a tag and payload.
    DataEnum(EnumId),
    /// A class instance carried by a handle.
    ClassHandle(ClassId),
    /// A callback object carried by a handle.
    CallbackHandle(CallbackId),
    /// An inline closure carried by a handle.
    ClosureHandle(CallbackId),
    /// A custom type carried through its representation.
    Custom(CustomTypeId),
    /// A presence marker followed by the inner value.
    Optional(Box<CodecNode>),
    /// Repeated values prefixed by their count.
    Sequence { len: ValueExpr, element: Box<CodecNode> },
    /// A fixed-size ordered group of values.
    Tuple(Vec<CodecNode>),
    /// A key-value collection.
    Mapping { key: Box<CodecNode>, value: Box<CodecNode> },
}

/// How to reconstruct one value from its boundary bytes.
pub struct ReadPlan {
    root: CodecNode,
}

impl ReadPlan {
    /// The root of the tree.
    pub closed spec fn root_node(&self) -> CodecNode {
        self.root
    }

    /// The plan that reads `root`.
    pub fn new(root: CodecNode) -> (res: Self)
        ensures
            res.root_node() == root,
    {
        ReadPlan { root }
    }

    /// The root codec node.
    pub fn root(&self) -> (res: &CodecNode)
        ensures
            *res == self.root_node(),
    {
        &self.root
    }
}

/// How to emit one already-bound value as boundary bytes.
pub struct WritePlan {
    value: ValueExpr,
    root: CodecNode,
}

impl WritePlan {
    /// The value the plan consumes.
    pub closed spec fn value_ref(&self) -> ValueExpr {
        self.value
    }

    /// The root of the tree.
    pub closed spec fn root_node(&self) -> CodecNode {
        self.root
    }

    /// The plan that writes `value` by `root`.
    pub fn new(value: ValueExpr, root: CodecNode) -> (res: Self)
        ensures
            res.value_ref() == value,
            res.root_node() == root,
    {
        WritePlan { value, root }
    }

    /// The value the plan consumes.
    pub fn value(&self) -> (res: &ValueExpr)
        ensures
            *res == self.value_ref(),
    {
        &self.value
    }

    /// The root codec node.
    pub fn root(&self) -> (res: &CodecNode)
        ensures
            *res == self.root_node(),
    {
        &self.root
    }
}

/// Both directions of the codec of one encoded value, kept together so
/// that a declaration cannot be given unrelated read and write plans.
pub struct CodecPlan {
    read: ReadPlan,
    write: WritePlan,
}

impl CodecPlan {
    /// The read direction.
    pub closed spec fn read_plan(&self) -> ReadPlan {
        self.read
    }

    /// The write direction.
    pub closed spec fn write_plan(&self) -> WritePlan {
        self.write
    }

    /// The pair of `read` and `write`.
    pub fn new(read: ReadPlan, write: WritePlan) -> (res: Self)
        ensures
            res.read_plan() == read,
            res.write_plan() == write,
    {
        CodecPlan { read, write }
    }

    /// The plan used to read the value.
    pub fn read(&self) -> (res: &ReadPlan)
        ensures
            *res == self.read_plan(),
    {
        &self.read
    }

    /// The plan used to write the value.
    pub fn write(&self) -> (res: &WritePlan)
        ensures
            *res == self.write_plan(),
    {
        &self.write
    }
}

} // verus!
