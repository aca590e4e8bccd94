//! Wire operations: how a value is sized, read from and written to the
//! boundary buffer.
//!
//! The executable trees hold vectors; each has a view into a mathematical
//! tree of the same shape with sequences in their place, so that contracts
//! can speak of whole trees.

use vstd::prelude::*;

use crate::ids::{CustomTypeId, EnumId, FieldName, RecordId};
use crate::types::{PrimitiveType, TypeExpr};

verus! {

/// A value the generated code already has in hand: a named root, or a field
/// of another value.
pub enum ValueExpr {
    Var(String),
    Field(Box<ValueExpr>, FieldName),
}

impl Clone for ValueExpr {
    fn clone(&self) -> (res: Self)
        ensures
            res == *self,
        decreases self,
    {
        match self {
            ValueExpr::Var(name) => ValueExpr::Var(name.clone()),
            ValueExpr::Field(base, field) => ValueExpr::Field(Box::new((**base).clone()), field.clone()),
        }
    }
}

/// Where a read starts: a fixed byte offset, or wherever the reader's
/// cursor stands.
#[derive(Clone, Copy, Debug, PartialEq, Eq, Structural)]
pub enum OffsetExpr {
    Fixed(u64),
    Cursor,
}

/// How the elements of a sequence are laid out.
#[derive(Clone, Copy, Debug, PartialEq, Eq, Structural)]
pub enum VecLayout {
    Blittable { element_size: u64 },
    Encoded,
}

/// Whether an encoded value has a size known ahead of time.
#[derive(Clone, Copy, Debug, PartialEq, Eq, Structural)]
pub enum WireShape {
    Fixed,
    Variable,
}

/// The number of bytes a value takes on the wire.
pub enum SizeExpr {
    Fixed(u64),
    StringLen { value: ValueExpr },
    BytesLen { value: ValueExpr },
    OptionSize { value: ValueExpr, inner: Box<SizeExpr> },
    VecSize { value: ValueExpr, inner: Box<SizeExpr>, layout: VecLayout },
    ResultSize { value: ValueExpr, ok: Box<SizeExpr>, err: Box<SizeExpr> },
    Sum(Vec<SizeExpr>),
}

/// The mathematical form of a [`SizeExpr`].
pub enum SizeModel {
    Fixed(u64),
    StringLen { value: ValueExpr },
    BytesLen { value: ValueExpr },
    OptionSize { value: ValueExpr, inner: Box<SizeModel> },
    VecSize { value: ValueExpr, inner: Box<SizeModel>, layout: VecLayout },
    ResultSize { value: ValueExpr, ok: Box<SizeModel>, err: Box<SizeModel> },
    Sum(Seq<SizeModel>),
}

/// The model of a size expression.
pub open spec fn size_model(s: SizeExpr) -> SizeModel
    decreases s,
{
    match s {
        SizeExpr::Fixed(n) => SizeModel::Fixed(n),
        SizeExpr::StringLen { value } => SizeModel::StringLen { value },
        SizeExpr::BytesLen { value } => SizeModel::BytesLen { value },
        SizeExpr::OptionSize { value, inner } => SizeModel::OptionSize { value, inner: Box::new(size_model(*inner)) },
        SizeExpr::VecSize { value, inner, layout } => SizeModel::VecSize {
            value,
            inner: Box::new(size_model(*inner)),
            layout,
        },
        SizeExpr::ResultSize { value, ok, err } => SizeModel::ResultSize {
            value,
            ok: Box::new(size_model(*ok)),
            err: Box::new(size_model(*err)),
        },
        SizeExpr::Sum(parts) => SizeModel::Sum(sizes_model(parts@)),
    }
}

/// The models of a list of size expressions.
pub open spec fn sizes_model(s: Seq<SizeExpr>) -> Seq<SizeModel>
    decreases s,
{
    if s.len() == 0 {
        Seq::empty()
    } else {
        sizes_model(s.drop_last()).push(size_model(s.last()))
    }
}

impl View for SizeExpr {
    type V = SizeModel;

    open spec fn view(&self) -> SizeModel {
        size_model(*self)
    }
}

/// One field read of a record.
pub struct FieldReadOp {
    pub name: FieldName,
    pub seq: ReadSeq,
}

/// One step of reading a value.
#[allow(inconsistent_fields)]
pub enum ReadOp {
    Primitive { primitive: PrimitiveType, offset: OffsetExpr },
    String { offset: OffsetExpr },
    Bytes { offset: OffsetExpr },
    Option { tag_offset: OffsetExpr, some: Box<ReadSeq> },
    Vec { len_offset: OffsetExpr, element_type: TypeExpr, element: Box<ReadSeq>, layout: VecLayout },
    Record { id: RecordId, offset: OffsetExpr, fields: Vec<FieldReadOp> },
    Enum { id: EnumId, offset: OffsetExpr },
    Result { tag_offset: OffsetExpr, ok: Box<ReadSeq>, err: Box<ReadSeq> },
    Custom { id: CustomTypeId, underlying: Box<ReadSeq> },
}

/// The reads that rebuild one value.
pub struct ReadSeq {
    pub size: SizeExpr,
    pub ops: Vec<ReadOp>,
    pub shape: WireShape,
}

/// The mathematical form of a [`FieldReadOp`].
pub struct FieldReadModel {
    pub name: FieldName,
    pub seq: ReadSeqModel,
}

/// The mathematical form of a [`ReadOp`].
#[allow(inconsistent_fields)]
pub enum ReadOpModel {
    Primitive { primitive: PrimitiveType, offset: OffsetExpr },
    String { offset: OffsetExpr },
    Bytes { offset: OffsetExpr },
    Option { tag_offset: OffsetExpr, some: Box<ReadSeqModel> },
    Vec { len_offset: OffsetExpr, element_type: TypeExpr, element: Box<ReadSeqModel>, layout: VecLayout },
    Record { id: RecordId, offset: OffsetExpr, fields: Seq<FieldReadModel> },
    Enum { id: EnumId, offset: OffsetExpr },
    Result { tag_offset: OffsetExpr, ok: Box<ReadSeqModel>, err: Box<ReadSeqModel> },
    Custom { id: CustomTypeId, underlying: Box<ReadSeqModel> },
}

/// The mathematical form of a [`ReadSeq`].
pub struct ReadSeqModel {
    pub size: SizeModel,
    pub ops: Seq<ReadOpModel>,
    pub shape: WireShape,
}

/// The model of a read sequence.
pub open spec fn read_seq_model(s: ReadSeq) -> ReadSeqModel
    decreases s,
{
    ReadSeqModel { size: size_model(s.size), ops: read_ops_model(s.ops@), shape: s.shape }
}

/// The models of a list of reads.
pub open spec fn read_ops_model(ops: Seq<ReadOp>) -> Seq<ReadOpModel>
    decreases ops,
{
    if ops.len() == 0 {
        Seq::empty()
    } else {
        read_ops_model(ops.drop_last()).push(read_op_model(ops.last()))
    }
}

/// The models of a list of field reads.
pub open spec fn field_reads_model(fields: Seq<FieldReadOp>) -> Seq<FieldReadModel>
    decreases fields,
{
    if fields.len() == 0 {
        Seq::empty()
    } else {
        field_reads_model(fields.drop_last()).push(
            FieldReadModel { name: fields.last().name, seq: read_seq_model(fields.last().seq) },
        )
    }
}

/// The model of one read.
pub open spec fn read_op_model(op: ReadOp) -> ReadOpModel
    decreases op,
{
    match op {
        ReadOp::Primitive { primitive, offset } => ReadOpModel::Primitive { primitive, offset },
        ReadOp::String { offset } => ReadOpModel::String { offset },
        ReadOp::Bytes { offset } => ReadOpModel::Bytes { offset },
        ReadOp::Option { tag_offset, some } => ReadOpModel::Option { tag_offset, some: Box::new(read_seq_model(*some)) },
        ReadOp::Vec { len_offset, element_type, element, layout } => ReadOpModel::Vec {
            len_offset,
            element_type,
            element: Box::new(read_seq_model(*element)),
            layout,
        },
        ReadOp::Record { id, offset, fields } => ReadOpModel::Record { id, offset, fields: field_reads_model(fields@) },
        ReadOp::Enum { id, offset } => ReadOpModel::Enum { id, offset },
        ReadOp::Result { tag_offset, ok, err } => ReadOpModel::Result {
            tag_offset,
            ok: Box::new(read_seq_model(*ok)),
            err: Box::new(read_seq_model(*err)),
        },
        ReadOp::Custom { id, underlying } => ReadOpModel::Custom { id, underlying: Box::new(read_seq_model(*underlying)) },
    }
}

impl View for ReadSeq {
    type V = ReadSeqModel;

    open spec fn view(&self) -> ReadSeqModel {
        read_seq_model(*self)
    }
}

impl View for ReadOp {
    type V = ReadOpModel;

    open spec fn view(&self) -> ReadOpModel {
        read_op_model(*self)
    }
}

/// One field write of a record: the field, how it is reached from the
/// record value, and how it is written.
pub struct FieldWriteOp {
    pub name: FieldName,
    pub accessor: ValueExpr,
    pub seq: WriteSeq,
}

/// One step of writing a value.
#[allow(inconsistent_fields)]
pub enum WriteOp {
    Primitive { primitive: PrimitiveType, value: ValueExpr },
    String { value: ValueExpr },
    Bytes { value: ValueExpr },
    Option { value: ValueExpr, some: Box<WriteSeq> },
    Vec { value: ValueExpr, element_type: TypeExpr, element: Box<WriteSeq>, layout: VecLayout },
    Record { id: RecordId, value: ValueExpr, fields: Vec<FieldWriteOp> },
    Enum { id: EnumId, value: ValueExpr },
    Result { value: ValueExpr, ok: Box<WriteSeq>, err: Box<WriteSeq> },
    Custom { id: CustomTypeId, value: ValueExpr, underlying: Box<WriteSeq> },
}

/// The writes that encode one value.
pub struct WriteSeq {
    pub size: SizeExpr,
    pub ops: Vec<WriteOp>,
    pub shape: WireShape,
}

/// The mathematical form of a [`FieldWriteOp`].
pub struct FieldWriteModel {
    pub name: FieldName,
    pub accessor: ValueExpr,
    pub seq: WriteSeqModel,
}

/// The mathematical form of a [`WriteOp`].
#[allow(inconsistent_fields)]
pub enum WriteOpModel {
    Primitive { primitive: PrimitiveType, value: ValueExpr },
    String { value: ValueExpr },
    Bytes { value: ValueExpr },
    Option { value: ValueExpr, some: Box<WriteSeqModel> },
    Vec { value: ValueExpr, element_type: TypeExpr, element: Box<WriteSeqModel>, layout: VecLayout },
    Record { id: RecordId, value: ValueExpr, fields: Seq<FieldWriteModel> },
    Enum { id: EnumId, value: ValueExpr },
    Result { value: ValueExpr, ok: Box<WriteSeqModel>, err: Box<WriteSeqModel> },
    Custom { id: CustomTypeId, value: ValueExpr, underlying: Box<WriteSeqModel> },
}

/// The mathematical form of a [`WriteSeq`].
pub struct WriteSeqModel {
    pub size: SizeModel,
    pub ops: Seq<WriteOpModel>,
    pub shape: WireShape,
}

/// The model of a write sequence.
pub open spec fn write_seq_model(s: WriteSeq) -> WriteSeqModel
    decreases s,
{
    WriteSeqModel { size: size_model(s.size), ops: write_ops_model(s.ops@), shape: s.shape }
}

/// The models of a list of writes.
pub open spec fn write_ops_model(ops: Seq<WriteOp>) -> Seq<WriteOpModel>
    decreases ops,
{
    if ops.len() == 0 {
        Seq::empty()
    } else {
        write_ops_model(ops.drop_last()).push(write_op_model(ops.last()))
    }
}

/// The models of a list of field writes.
pub open spec fn field_writes_model(fields: Seq<FieldWriteOp>) -> Seq<FieldWriteModel>
    decreases fields,
{
    if fields.len() == 0 {
        Seq::empty()
    } else {
        field_writes_model(fields.drop_last()).push(
            FieldWriteModel {
                name: fields.last().name,
                accessor: fields.last().accessor,
                seq: write_seq_model(fields.last().seq),
            },
        )
    }
}

/// The model of one write.
pub open spec fn write_op_model(op: WriteOp) -> WriteOpModel
    decreases op,
{
    match op {
        WriteOp::Primitive { primitive, value } => WriteOpModel::Primitive { primitive, value },
        WriteOp::String { value } => WriteOpModel::String { value },
        WriteOp::Bytes { value } => WriteOpModel::Bytes { value },
        WriteOp::Option { value, some } => WriteOpModel::Option { value, some: Box::new(write_seq_model(*some)) },
        WriteOp::Vec { value, element_type, element, layout } => WriteOpModel::Vec {
            value,
            element_type,
            element: Box::new(write_seq_model(*element)),
            layout,
        },
        WriteOp::Record { id, value, fields } => WriteOpModel::Record { id, value, fields: field_writes_model(fields@) },
        WriteOp::Enum { id, value } => WriteOpModel::Enum { id, value },
        WriteOp::Result { value, ok, err } => WriteOpModel::Result {
            value,
            ok: Box::new(write_seq_model(*ok)),
            err: Box::new(write_seq_model(*err)),
        },
        WriteOp::Custom { id, value, underlying } => WriteOpModel::Custom {
            id,
            value,
            underlying: Box::new(write_seq_model(*underlying)),
        },
    }
}

impl View for WriteSeq {
    type V = WriteSeqModel;

    open spec fn view(&self) -> WriteSeqModel {
        write_seq_model(*self)
    }
}

impl View for WriteOp {
    type V = WriteOpModel;

    open spec fn view(&self) -> WriteOpModel {
        write_op_model(*self)
    }
}

} // verus!
