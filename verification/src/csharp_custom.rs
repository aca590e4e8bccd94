//! Custom-type erasure for the C# backend.
//!
//! A custom type is a Rust-side wrapper (`Email`, `UtcDateTime`) whose wire
//! form is another type (`String`, `i64`). The C# backend sees through it:
//! every type, read, write and size is first normalized so that each
//! custom type is replaced by what it wraps, and lowering downstream never
//! meets one.

use vstd::prelude::*;

use crate::custom_chains::{customs_resolve, mentions_custom};
use crate::csharp_lowerer::CSharpLowerer;
use crate::defs::TypeCatalog;
use crate::ids::CustomTypeId;
use crate::types::TypeExpr;
use crate::wire::{field_reads_model, field_writes_model, read_op_model, read_ops_model, read_seq_model, sizes_model, size_model, write_op_model, write_ops_model, write_seq_model, FieldReadModel, FieldReadOp, FieldWriteModel, FieldWriteOp, ReadOp, ReadOpModel, ReadSeq, ReadSeqModel, SizeExpr, WriteOp, WriteOpModel, WriteSeq, WriteSeqModel};

verus! {

/// `ty` with every custom type replaced by its representation, through
/// options, vectors and results.
pub open spec fn norm_type(cat: TypeCatalog, ty: TypeExpr, fuel: nat) -> TypeExpr
    decreases fuel, ty,
{
    match ty {
        TypeExpr::Custom(id) => {
            let k = cat.custom_index(id@);
            if fuel > 0 && 0 <= k < cat.customs@.len() {
                norm_type(cat, cat.customs@[k].repr, (fuel - 1) as nat)
            } else {
                ty
            }
        },
        TypeExpr::Option(inner) => TypeExpr::Option(Box::new(norm_type(cat, *inner, fuel))),
        TypeExpr::Vec(inner) => TypeExpr::Vec(Box::new(norm_type(cat, *inner, fuel))),
        TypeExpr::Result { ok, err } => TypeExpr::Result {
            ok: Box::new(norm_type(cat, *ok, fuel)),
            err: Box::new(norm_type(cat, *err, fuel)),
        },
        _ => ty,
    }
}

/// Normalizing a type whose custom types all resolve leaves no custom type.
pub proof fn lemma_norm_type_custom_free(cat: TypeCatalog, ty: TypeExpr, fuel: nat)
    requires
        customs_resolve(cat, ty, fuel),
    ensures
        !mentions_custom(norm_type(cat, ty, fuel)),
    decreases fuel, ty,
{
    match ty {
        TypeExpr::Custom(id) => {
            let k = cat.custom_index(id@);
            lemma_norm_type_custom_free(cat, cat.customs@[k].repr, (fuel - 1) as nat);
        },
        TypeExpr::Option(inner) => lemma_norm_type_custom_free(cat, *inner, fuel),
        TypeExpr::Vec(inner) => lemma_norm_type_custom_free(cat, *inner, fuel),
        TypeExpr::Result { ok, err } => {
            lemma_norm_type_custom_free(cat, *ok, fuel);
            lemma_norm_type_custom_free(cat, *err, fuel);
        },
        _ => {},
    }
}

/// Normalizing a type that mentions no custom type leaves it as it is.
pub proof fn lemma_norm_type_identity(cat: TypeCatalog, ty: TypeExpr, fuel: nat)
    requires
        !mentions_custom(ty),
    ensures
        norm_type(cat, ty, fuel) == ty,
    decreases ty,
{
    match ty {
        TypeExpr::Option(inner) => lemma_norm_type_identity(cat, *inner, fuel),
        TypeExpr::Vec(inner) => lemma_norm_type_identity(cat, *inner, fuel),
        TypeExpr::Result { ok, err } => {
            lemma_norm_type_identity(cat, *ok, fuel);
            lemma_norm_type_identity(cat, *err, fuel);
        },
        _ => {},
    }
}

/// Normalizing twice is normalizing once.
pub proof fn lemma_norm_type_idempotent(cat: TypeCatalog, ty: TypeExpr, fuel: nat, fuel2: nat)
    requires
        customs_resolve(cat, ty, fuel),
    ensures
        norm_type(cat, norm_type(cat, ty, fuel), fuel2) == norm_type(cat, ty, fuel),
{
    lemma_norm_type_custom_free(cat, ty, fuel);
    lemma_norm_type_identity(cat, norm_type(cat, ty, fuel), fuel2);
}

/// A read sequence with every custom read replaced by the reads of what it
/// wraps. A sequence that starts with a custom read becomes the normalized
/// reads of the wrapped value; a custom read elsewhere becomes the first
/// normalized read of the wrapped value.
pub open spec fn norm_read_seq(cat: TypeCatalog, s: ReadSeqModel, fuel: nat) -> ReadSeqModel
    decreases s,
{
    if s.ops.len() > 0 && s.ops[0] is Custom {
        match s.ops[0] {
            ReadOpModel::Custom { underlying, .. } => norm_read_seq(cat, *underlying, fuel),
            _ => s,
        }
    } else {
        ReadSeqModel { size: s.size, ops: norm_read_ops(cat, s.ops, fuel), shape: s.shape }
    }
}

/// Each read normalized, in order.
pub open spec fn norm_read_ops(cat: TypeCatalog, ops: Seq<ReadOpModel>, fuel: nat) -> Seq<ReadOpModel>
    decreases ops,
{
    if ops.len() == 0 {
        Seq::empty()
    } else {
        norm_read_ops(cat, ops.drop_last(), fuel).push(norm_read_op(cat, ops.last(), fuel))
    }
}

/// Each field read normalized, in order.
pub open spec fn norm_field_reads(cat: TypeCatalog, fields: Seq<FieldReadModel>, fuel: nat) -> Seq<FieldReadModel>
    decreases fields,
{
    if fields.len() == 0 {
        Seq::empty()
    } else {
        norm_field_reads(cat, fields.drop_last(), fuel).push(
            FieldReadModel { name: fields.last().name, seq: norm_read_seq(cat, fields.last().seq, fuel) },
        )
    }
}

/// One read normalized.
pub open spec fn norm_read_op(cat: TypeCatalog, op: ReadOpModel, fuel: nat) -> ReadOpModel
    decreases op,
{
    match op {
        ReadOpModel::Option { tag_offset, some } => ReadOpModel::Option {
            tag_offset,
            some: Box::new(norm_read_seq(cat, *some, fuel)),
        },
        ReadOpModel::Vec { len_offset, element_type, element, layout } => ReadOpModel::Vec {
            len_offset,
            element_type: norm_type(cat, element_type, fuel),
            element: Box::new(norm_read_seq(cat, *element, fuel)),
            layout,
        },
        ReadOpModel::Record { id, offset, fields } => ReadOpModel::Record {
            id,
            offset,
            fields: norm_field_reads(cat, fields, fuel),
        },
        ReadOpModel::Result { tag_offset, ok, err } => ReadOpModel::Result {
            tag_offset,
            ok: Box::new(norm_read_seq(cat, *ok, fuel)),
            err: Box::new(norm_read_seq(cat, *err, fuel)),
        },
        ReadOpModel::Custom { underlying, .. } => norm_read_seq(cat, *underlying, fuel).ops[0],
        _ => op,
    }
}

/// A read sequence holds no custom read and no custom element type.
pub open spec fn read_seq_custom_free(s: ReadSeqModel) -> bool
    decreases s,
{
    read_ops_custom_free(s.ops)
}

/// Every read is free of custom types.
pub open spec fn read_ops_custom_free(ops: Seq<ReadOpModel>) -> bool
    decreases ops,
{
    ops.len() == 0 || (read_ops_custom_free(ops.drop_last()) && read_op_custom_free(ops.last()))
}

/// Every field read is free of custom types.
pub open spec fn field_reads_custom_free(fields: Seq<FieldReadModel>) -> bool
    decreases fields,
{
    fields.len() == 0 || (field_reads_custom_free(fields.drop_last()) && read_seq_custom_free(fields.last().seq))
}

/// A read is free of custom types.
pub open spec fn read_op_custom_free(op: ReadOpModel) -> bool
    decreases op,
{
    match op {
        ReadOpModel::Option { some, .. } => read_seq_custom_free(*some),
        ReadOpModel::Vec { element_type, element, .. } => !mentions_custom(element_type) && read_seq_custom_free(*element),
        ReadOpModel::Record { fields, .. } => field_reads_custom_free(fields),
        ReadOpModel::Result { ok, err, .. } => read_seq_custom_free(*ok) && read_seq_custom_free(*err),
        ReadOpModel::Custom { .. } => false,
        _ => true,
    }
}

/// A read sequence can be normalized: every custom read wraps a non-empty
/// sequence and every element type's custom types resolve within `fuel`.
pub open spec fn read_seq_wf(cat: TypeCatalog, s: ReadSeqModel, fuel: nat) -> bool
    decreases s,
{
    read_ops_wf(cat, s.ops, fuel)
}

/// Every read can be normalized.
pub open spec fn read_ops_wf(cat: TypeCatalog, ops: Seq<ReadOpModel>, fuel: nat) -> bool
    decreases ops,
{
    ops.len() == 0 || (read_ops_wf(cat, ops.drop_last(), fuel) && read_op_wf(cat, ops.last(), fuel))
}

/// Every field read can be normalized.
pub open spec fn field_reads_wf(cat: TypeCatalog, fields: Seq<FieldReadModel>, fuel: nat) -> bool
    decreases fields,
{
    fields.len() == 0 || (field_reads_wf(cat, fields.drop_last(), fuel) && read_seq_wf(cat, fields.last().seq, fuel))
}

/// A read can be normalized.
pub open spec fn read_op_wf(cat: TypeCatalog, op: ReadOpModel, fuel: nat) -> bool
    decreases op,
{
    match op {
        ReadOpModel::Option { some, .. } => read_seq_wf(cat, *some, fuel),
        ReadOpModel::Vec { element_type, element, .. } => customs_resolve(cat, element_type, fuel) && read_seq_wf(cat, *element, fuel),
        ReadOpModel::Record { fields, .. } => field_reads_wf(cat, fields, fuel),
        ReadOpModel::Result { ok, err, .. } => read_seq_wf(cat, *ok, fuel) && read_seq_wf(cat, *err, fuel),
        ReadOpModel::Custom { underlying, .. } => underlying.ops.len() > 0 && read_seq_wf(cat, *underlying, fuel),
        _ => true,
    }
}

proof fn lemma_read_ops_wf_at(cat: TypeCatalog, ops: Seq<ReadOpModel>, fuel: nat, i: int)
    requires
        read_ops_wf(cat, ops, fuel),
        0 <= i < ops.len(),
    ensures
        read_op_wf(cat, ops[i], fuel),
    decreases ops.len(),
{
    if i < ops.len() - 1 {
        lemma_read_ops_wf_at(cat, ops.drop_last(), fuel, i);
    }
}

pub proof fn lemma_read_ops_free_at(ops: Seq<ReadOpModel>, i: int)
    requires
        read_ops_custom_free(ops),
        0 <= i < ops.len(),
    ensures
        read_op_custom_free(ops[i]),
    decreases ops.len(),
{
    if i < ops.len() - 1 {
        lemma_read_ops_free_at(ops.drop_last(), i);
    }
}

proof fn lemma_norm_read_ops_len(cat: TypeCatalog, ops: Seq<ReadOpModel>, fuel: nat)
    ensures
        norm_read_ops(cat, ops, fuel).len() == ops.len(),
    decreases ops.len(),
{
    if ops.len() > 0 {
        lemma_norm_read_ops_len(cat, ops.drop_last(), fuel);
    }
}

/// Normalizing a non-empty sequence that can be normalized gives a
/// non-empty sequence.
proof fn lemma_norm_read_seq_nonempty(cat: TypeCatalog, s: ReadSeqModel, fuel: nat)
    requires
        read_seq_wf(cat, s, fuel),
        s.ops.len() > 0,
    ensures
        norm_read_seq(cat, s, fuel).ops.len() > 0,
    decreases s,
{
    lemma_read_ops_wf_at(cat, s.ops, fuel, 0);
    if s.ops[0] is Custom {
        match s.ops[0] {
            ReadOpModel::Custom { underlying, .. } => {
                assert(decreases_to!(s => s.ops));
                assert(decreases_to!(s.ops => s.ops[0]));
                lemma_norm_read_seq_nonempty(cat, *underlying, fuel);
            },
            _ => {},
        }
    } else {
        lemma_norm_read_ops_len(cat, s.ops, fuel);
    }
}

/// Normalizing a read sequence that can be normalized leaves no custom type
/// in it.
pub proof fn lemma_norm_read_seq_custom_free(cat: TypeCatalog, s: ReadSeqModel, fuel: nat)
    requires
        read_seq_wf(cat, s, fuel),
    ensures
        read_seq_custom_free(norm_read_seq(cat, s, fuel)),
    decreases s, 2nat,
{
    if s.ops.len() > 0 && s.ops[0] is Custom {
        lemma_read_ops_wf_at(cat, s.ops, fuel, 0);
        match s.ops[0] {
            ReadOpModel::Custom { underlying, .. } => {
                assert(decreases_to!(s => s.ops));
                assert(decreases_to!(s.ops => s.ops[0]));
                lemma_norm_read_seq_custom_free(cat, *underlying, fuel);
            },
            _ => {},
        }
    } else {
        lemma_norm_read_ops_custom_free(cat, s.ops, fuel);
    }
}

proof fn lemma_norm_read_ops_custom_free(cat: TypeCatalog, ops: Seq<ReadOpModel>, fuel: nat)
    requires
        read_ops_wf(cat, ops, fuel),
    ensures
        read_ops_custom_free(norm_read_ops(cat, ops, fuel)),
    decreases ops, 1nat,
{
    if ops.len() > 0 {
        lemma_norm_read_ops_custom_free(cat, ops.drop_last(), fuel);
        lemma_norm_read_op_custom_free(cat, ops.last(), fuel);
        assert(norm_read_ops(cat, ops, fuel).drop_last() =~= norm_read_ops(cat, ops.drop_last(), fuel));
    }
}

proof fn lemma_norm_field_reads_custom_free(cat: TypeCatalog, fields: Seq<FieldReadModel>, fuel: nat)
    requires
        field_reads_wf(cat, fields, fuel),
    ensures
        field_reads_custom_free(norm_field_reads(cat, fields, fuel)),
    decreases fields, 1nat,
{
    if fields.len() > 0 {
        lemma_norm_field_reads_custom_free(cat, fields.drop_last(), fuel);
        lemma_norm_read_seq_custom_free(cat, fields.last().seq, fuel);
        assert(norm_field_reads(cat, fields, fuel).drop_last() =~= norm_field_reads(cat, fields.drop_last(), fuel));
    }
}

proof fn lemma_norm_read_op_custom_free(cat: TypeCatalog, op: ReadOpModel, fuel: nat)
    requires
        read_op_wf(cat, op, fuel),
    ensures
        read_op_custom_free(norm_read_op(cat, op, fuel)),
    decreases op, 0nat,
{
    match op {
        ReadOpModel::Option { some, .. } => lemma_norm_read_seq_custom_free(cat, *some, fuel),
        ReadOpModel::Vec { element_type, element, .. } => {
            lemma_norm_type_custom_free(cat, element_type, fuel);
            lemma_norm_read_seq_custom_free(cat, *element, fuel);
        },
        ReadOpModel::Record { fields, .. } => lemma_norm_field_reads_custom_free(cat, fields, fuel),
        ReadOpModel::Result { ok, err, .. } => {
            lemma_norm_read_seq_custom_free(cat, *ok, fuel);
            lemma_norm_read_seq_custom_free(cat, *err, fuel);
        },
        ReadOpModel::Custom { underlying, .. } => {
            lemma_norm_read_seq_custom_free(cat, *underlying, fuel);
            lemma_norm_read_seq_nonempty(cat, *underlying, fuel);
            lemma_read_ops_free_at(norm_read_seq(cat, *underlying, fuel).ops, 0);
        },
        _ => {},
    }
}

/// Normalizing a read sequence free of custom types leaves it as it is.
pub proof fn lemma_norm_read_seq_identity(cat: TypeCatalog, s: ReadSeqModel, fuel: nat)
    requires
        read_seq_custom_free(s),
    ensures
        norm_read_seq(cat, s, fuel) == s,
    decreases s, 2nat,
{
    if s.ops.len() > 0 {
        lemma_read_ops_free_at(s.ops, 0);
    }
    lemma_norm_read_ops_identity(cat, s.ops, fuel);
}

proof fn lemma_norm_read_ops_identity(cat: TypeCatalog, ops: Seq<ReadOpModel>, fuel: nat)
    requires
        read_ops_custom_free(ops),
    ensures
        norm_read_ops(cat, ops, fuel) == ops,
    decreases ops, 1nat,
{
    if ops.len() > 0 {
        lemma_norm_read_ops_identity(cat, ops.drop_last(), fuel);
        lemma_norm_read_op_identity(cat, ops.last(), fuel);
        assert(norm_read_ops(cat, ops, fuel) =~= ops);
    }
}

proof fn lemma_norm_field_reads_identity(cat: TypeCatalog, fields: Seq<FieldReadModel>, fuel: nat)
    requires
        field_reads_custom_free(fields),
    ensures
        norm_field_reads(cat, fields, fuel) == fields,
    decreases fields, 1nat,
{
    if fields.len() > 0 {
        lemma_norm_field_reads_identity(cat, fields.drop_last(), fuel);
        lemma_norm_read_seq_identity(cat, fields.last().seq, fuel);
        assert(norm_field_reads(cat, fields, fuel) =~= fields);
    }
}

proof fn lemma_norm_read_op_identity(cat: TypeCatalog, op: ReadOpModel, fuel: nat)
    requires
        read_op_custom_free(op),
    ensures
        norm_read_op(cat, op, fuel) == op,
    decreases op, 0nat,
{
    match op {
        ReadOpModel::Option { some, .. } => lemma_norm_read_seq_identity(cat, *some, fuel),
        ReadOpModel::Vec { element_type, element, .. } => {
            lemma_norm_type_identity(cat, element_type, fuel);
            lemma_norm_read_seq_identity(cat, *element, fuel);
        },
        ReadOpModel::Record { fields, .. } => lemma_norm_field_reads_identity(cat, fields, fuel),
        ReadOpModel::Result { ok, err, .. } => {
            lemma_norm_read_seq_identity(cat, *ok, fuel);
            lemma_norm_read_seq_identity(cat, *err, fuel);
        },
        _ => {},
    }
}

/// Normalizing a read sequence twice is normalizing it once.
pub proof fn lemma_norm_read_seq_idempotent(cat: TypeCatalog, s: ReadSeqModel, fuel: nat, fuel2: nat)
    requires
        read_seq_wf(cat, s, fuel),
    ensures
        norm_read_seq(cat, norm_read_seq(cat, s, fuel), fuel2) == norm_read_seq(cat, s, fuel),
{
    lemma_norm_read_seq_custom_free(cat, s, fuel);
    lemma_norm_read_seq_identity(cat, norm_read_seq(cat, s, fuel), fuel2);
}

/// The model of a list of reads has one model per read.
pub proof fn lemma_read_ops_model_index(v: Seq<ReadOp>, i: int)
    ensures
        read_ops_model(v).len() == v.len(),
        0 <= i < v.len() ==> read_ops_model(v)[i] == read_op_model(v[i]),
    decreases v.len(),
{
    if v.len() > 0 {
        lemma_read_ops_model_index(v.drop_last(), i);
    }
}

/// The model of a list of field reads has one model per field read.
pub proof fn lemma_field_reads_model_index(v: Seq<FieldReadOp>, i: int)
    ensures
        field_reads_model(v).len() == v.len(),
        0 <= i < v.len() ==> field_reads_model(v)[i] == (FieldReadModel { name: v[i].name, seq: read_seq_model(v[i].seq) }),
    decreases v.len(),
{
    if v.len() > 0 {
        lemma_field_reads_model_index(v.drop_last(), i);
    }
}

/// The model of a list of sizes has one model per size.
pub proof fn lemma_sizes_model_index(v: Seq<SizeExpr>, i: int)
    ensures
        sizes_model(v).len() == v.len(),
        0 <= i < v.len() ==> sizes_model(v)[i] == size_model(v[i]),
    decreases v.len(),
{
    if v.len() > 0 {
        lemma_sizes_model_index(v.drop_last(), i);
    }
}

proof fn lemma_field_reads_wf_at(cat: TypeCatalog, fields: Seq<FieldReadModel>, fuel: nat, i: int)
    requires
        field_reads_wf(cat, fields, fuel),
        0 <= i < fields.len(),
    ensures
        read_seq_wf(cat, fields[i].seq, fuel),
    decreases fields.len(),
{
    if i < fields.len() - 1 {
        lemma_field_reads_wf_at(cat, fields.drop_last(), fuel, i);
    }
}

impl<'a> CSharpLowerer<'a> {
    /// The declaration of a custom type.
    pub fn resolve_custom_type(&self, id: &CustomTypeId) -> (res: &crate::defs::CustomTypeDef)
        requires
            self.ffi.catalog.custom_index(id@) >= 0,
        ensures
            *res == self.ffi.catalog.customs@[self.ffi.catalog.custom_index(id@)],
    {
        match self.ffi.catalog.resolve_custom(id) {
            Some(c) => c,
            None => {
                proof {
                    assert(false);
                }
                &self.ffi.catalog.customs[0]
            },
        }
    }

    /// The representation a custom type wraps.
    pub fn custom_repr_type(&self, id: &CustomTypeId) -> (res: &TypeExpr)
        requires
            self.ffi.catalog.custom_index(id@) >= 0,
        ensures
            *res == self.ffi.catalog.customs@[self.ffi.catalog.custom_index(id@)].repr,
    {
        &self.resolve_custom_type(id).repr
    }

    fn norm_type_with_fuel(&self, ty: &TypeExpr, Ghost(fuel): Ghost<nat>) -> (res: TypeExpr)
        requires
            customs_resolve(self.ffi.catalog, *ty, fuel),
        ensures
            res == norm_type(self.ffi.catalog, *ty, fuel),
        decreases fuel, ty,
    {
        match ty {
            TypeExpr::Custom(id) => {
                let repr = self.custom_repr_type(id);
                self.norm_type_with_fuel(repr, Ghost((fuel - 1) as nat))
            },
            TypeExpr::Option(inner) => TypeExpr::Option(Box::new(self.norm_type_with_fuel(inner, Ghost(fuel)))),
            TypeExpr::Vec(inner) => TypeExpr::Vec(Box::new(self.norm_type_with_fuel(inner, Ghost(fuel)))),
            TypeExpr::Result { ok, err } => TypeExpr::Result {
                ok: Box::new(self.norm_type_with_fuel(ok, Ghost(fuel))),
                err: Box::new(self.norm_type_with_fuel(err, Ghost(fuel))),
            },
            _ => ty.clone(),
        }
    }

    /// `ty` with every custom type replaced by what it wraps, recursively
    /// and through options, vectors and results: `Vec<UtcDateTime>` becomes
    /// `Vec<i64>`, and a custom type wrapping another custom type lands on
    /// the innermost representation.
    pub fn normalize_custom_type_expr(&self, ty: &TypeExpr) -> (res: TypeExpr)
        requires
            customs_resolve(self.ffi.catalog, *ty, crate::custom_chains::custom_depth(self.ffi.catalog)),
        ensures
            res == norm_type(self.ffi.catalog, *ty, crate::custom_chains::custom_depth(self.ffi.catalog)),
            !mentions_custom(res),
    {
        proof {
            lemma_norm_type_custom_free(self.ffi.catalog, *ty, crate::custom_chains::custom_depth(self.ffi.catalog));
        }
        self.norm_type_with_fuel(ty, Ghost(crate::custom_chains::custom_depth(self.ffi.catalog)))
    }

    /// A size expression normalized: a size holds no custom type of its
    /// own, so this is a copy of the same tree.
    pub fn normalize_custom_size_expr(size: &SizeExpr) -> (res: SizeExpr)
        ensures
            res@ == size@,
        decreases size,
    {
        match size {
            SizeExpr::Fixed(n) => SizeExpr::Fixed(*n),
            SizeExpr::StringLen { value } => SizeExpr::StringLen { value: value.clone() },
            SizeExpr::BytesLen { value } => SizeExpr::BytesLen { value: value.clone() },
            SizeExpr::OptionSize { value, inner } => SizeExpr::OptionSize {
                value: value.clone(),
                inner: Box::new(Self::normalize_custom_size_expr(inner)),
            },
            SizeExpr::VecSize { value, inner, layout } => SizeExpr::VecSize {
                value: value.clone(),
                inner: Box::new(Self::normalize_custom_size_expr(inner)),
                layout: *layout,
            },
            SizeExpr::ResultSize { value, ok, err } => SizeExpr::ResultSize {
                value: value.clone(),
                ok: Box::new(Self::normalize_custom_size_expr(ok)),
                err: Box::new(Self::normalize_custom_size_expr(err)),
            },
            SizeExpr::Sum(parts) => {
                let mut out: Vec<SizeExpr> = Vec::new();
                let mut i: usize = 0;
                while i < parts.len()
                    invariant
                        *size matches SizeExpr::Sum(p) && p == *parts,
                        i <= parts@.len(),
                        sizes_model(out@) == sizes_model(parts@).take(i as int),
                    decreases parts.len() - i,
                {
                    proof {
                        lemma_sizes_model_index(parts@, i as int);
                        assert(decreases_to!(parts@ => parts@[i as int]));
                    }
                    let part = Self::normalize_custom_size_expr(&parts[i]);
                    let ghost before = out@;
                    out.push(part);
                    proof {
                        assert(out@.drop_last() =~= before);
                        assert(sizes_model(parts@).take(i + 1) =~= sizes_model(parts@).take(i as int).push(size_model(parts@[i as int])));
                    }
                    i = i + 1;
                }
                proof {
                    lemma_sizes_model_index(parts@, 0);
                    assert(sizes_model(parts@).take(parts@.len() as int) =~= sizes_model(parts@));
                }
                SizeExpr::Sum(out)
            },
        }
    }

    fn norm_read_seq_with_fuel(&self, seq: &ReadSeq, Ghost(fuel): Ghost<nat>) -> (res: ReadSeq)
        requires
            read_seq_wf(self.ffi.catalog, seq@, fuel),
        ensures
            res@ == norm_read_seq(self.ffi.catalog, seq@, fuel),
        decreases seq, 1nat,
    {
        let ghost cat = self.ffi.catalog;
        proof {
            lemma_read_ops_model_index(seq.ops@, 0);
        }
        if seq.ops.len() > 0 {
            if let ReadOp::Custom { underlying, .. } = &seq.ops[0] {
                proof {
                    lemma_read_ops_wf_at(cat, seq@.ops, fuel, 0);
                    assert(decreases_to!(seq.ops@ => seq.ops@[0]));
                }
                return self.norm_read_seq_with_fuel(underlying, Ghost(fuel));
            }
        }
        let size = Self::normalize_custom_size_expr(&seq.size);
        let mut ops: Vec<ReadOp> = Vec::new();
        let mut i: usize = 0;
        while i < seq.ops.len()
            invariant
                cat == self.ffi.catalog,
                read_seq_wf(cat, seq@, fuel),
                i <= seq.ops@.len(),
                read_ops_model(ops@) == norm_read_ops(cat, read_ops_model(seq.ops@).take(i as int), fuel),
            decreases seq.ops.len() - i,
        {
            proof {
                lemma_read_ops_model_index(seq.ops@, i as int);
                lemma_read_ops_wf_at(cat, read_ops_model(seq.ops@), fuel, i as int);
                assert(decreases_to!(seq.ops@ => seq.ops@[i as int]));
            }
            let op = self.norm_read_op_with_fuel(&seq.ops[i], Ghost(fuel));
            let ghost before = ops@;
            ops.push(op);
            proof {
                assert(ops@.drop_last() =~= before);
                let m = read_ops_model(seq.ops@);
                assert(m.take(i + 1).drop_last() =~= m.take(i as int));
            }
            i = i + 1;
        }
        proof {
            lemma_read_ops_model_index(seq.ops@, 0);
            assert(read_ops_model(seq.ops@).take(seq.ops@.len() as int) =~= read_ops_model(seq.ops@));
        }
        ReadSeq { size, ops, shape: seq.shape }
    }

    fn norm_read_op_with_fuel(&self, op: &ReadOp, Ghost(fuel): Ghost<nat>) -> (res: ReadOp)
        requires
            read_op_wf(self.ffi.catalog, op@, fuel),
        ensures
            res@ == norm_read_op(self.ffi.catalog, op@, fuel),
        decreases op, 0nat,
    {
        let ghost cat = self.ffi.catalog;
        match op {
            ReadOp::Primitive { primitive, offset } => ReadOp::Primitive { primitive: *primitive, offset: *offset },
            ReadOp::String { offset } => ReadOp::String { offset: *offset },
            ReadOp::Bytes { offset } => ReadOp::Bytes { offset: *offset },
            ReadOp::Enum { id, offset } => ReadOp::Enum { id: id.clone(), offset: *offset },
            ReadOp::Option { tag_offset, some } => ReadOp::Option {
                tag_offset: *tag_offset,
                some: Box::new(self.norm_read_seq_with_fuel(some, Ghost(fuel))),
            },
            ReadOp::Vec { len_offset, element_type, element, layout } => ReadOp::Vec {
                len_offset: *len_offset,
                element_type: self.norm_type_with_fuel(element_type, Ghost(fuel)),
                element: Box::new(self.norm_read_seq_with_fuel(element, Ghost(fuel))),
                layout: *layout,
            },
            ReadOp::Record { id, offset, fields } => {
                let mut out: Vec<FieldReadOp> = Vec::new();
                let mut i: usize = 0;
                while i < fields.len()
                    invariant
                        cat == self.ffi.catalog,
                        read_op_wf(cat, op@, fuel),
                        op@ == read_op_model(*op),
                        *op matches ReadOp::Record { fields: f, .. } && f == *fields,
                        i <= fields@.len(),
                        field_reads_model(out@) == norm_field_reads(cat, field_reads_model(fields@).take(i as int), fuel),
                    decreases fields.len() - i,
                {
                    proof {
                        lemma_field_reads_model_index(fields@, i as int);
                        lemma_field_reads_wf_at(cat, field_reads_model(fields@), fuel, i as int);
                        assert(decreases_to!(fields@ => fields@[i as int]));
                    }
                    let field = &fields[i];
                    let seq = self.norm_read_seq_with_fuel(&field.seq, Ghost(fuel));
                    let ghost before = out@;
                    out.push(FieldReadOp { name: field.name.clone(), seq });
                    proof {
                        assert(out@.drop_last() =~= before);
                        let m = field_reads_model(fields@);
                        assert(m.take(i + 1).drop_last() =~= m.take(i as int));
                    }
                    i = i + 1;
                }
                proof {
                    lemma_field_reads_model_index(fields@, 0);
                    assert(field_reads_model(fields@).take(fields@.len() as int) =~= field_reads_model(fields@));
                }
                ReadOp::Record { id: id.clone(), offset: *offset, fields: out }
            },
            ReadOp::Result { tag_offset, ok, err } => ReadOp::Result {
                tag_offset: *tag_offset,
                ok: Box::new(self.norm_read_seq_with_fuel(ok, Ghost(fuel))),
                err: Box::new(self.norm_read_seq_with_fuel(err, Ghost(fuel))),
            },
            ReadOp::Custom { underlying, .. } => {
                let normalized = self.norm_read_seq_with_fuel(underlying, Ghost(fuel));
                proof {
                    lemma_norm_read_seq_nonempty(cat, underlying@, fuel);
                    lemma_read_ops_model_index(normalized.ops@, 0);
                }
                let mut ops = normalized.ops;
                ops.remove(0)
            },
        }
    }

    /// A read sequence with every custom read replaced by the reads of the
    /// value it wraps, and every element type normalized.
    pub fn normalize_custom_read_seq(&self, seq: &ReadSeq) -> (res: ReadSeq)
        requires
            read_seq_wf(self.ffi.catalog, seq@, crate::custom_chains::custom_depth(self.ffi.catalog)),
        ensures
            res@ == norm_read_seq(self.ffi.catalog, seq@, crate::custom_chains::custom_depth(self.ffi.catalog)),
            read_seq_custom_free(res@),
            seq@.ops.len() > 0 && seq@.ops[0] is Custom ==> res@ == norm_read_seq(
                self.ffi.catalog,
                *seq@.ops[0]->Custom_underlying,
                crate::custom_chains::custom_depth(self.ffi.catalog),
            ),
            !(seq@.ops.len() > 0 && seq@.ops[0] is Custom) ==> res@.ops.len() == seq@.ops.len() && res@.shape == seq@.shape,
            norm_read_seq(self.ffi.catalog, res@, crate::custom_chains::custom_depth(self.ffi.catalog)) == res@,
    {
        proof {
            let cat = self.ffi.catalog;
            let d = crate::custom_chains::custom_depth(cat);
            lemma_norm_read_seq_custom_free(cat, seq@, d);
            lemma_norm_read_seq_idempotent(cat, seq@, d, d);
            lemma_norm_read_ops_len(cat, seq@.ops, d);
        }
        self.norm_read_seq_with_fuel(seq, Ghost(crate::custom_chains::custom_depth(self.ffi.catalog)))
    }

    /// One read normalized.
    pub fn normalize_custom_read_op(&self, op: &ReadOp) -> (res: ReadOp)
        requires
            read_op_wf(self.ffi.catalog, op@, crate::custom_chains::custom_depth(self.ffi.catalog)),
        ensures
            res@ == norm_read_op(self.ffi.catalog, op@, crate::custom_chains::custom_depth(self.ffi.catalog)),
            read_op_custom_free(res@),
    {
        proof {
            lemma_norm_read_op_custom_free(self.ffi.catalog, op@, crate::custom_chains::custom_depth(self.ffi.catalog));
        }
        self.norm_read_op_with_fuel(op, Ghost(crate::custom_chains::custom_depth(self.ffi.catalog)))
    }
}

/// A write sequence with every custom write replaced by the writes of what it
/// wraps. A sequence that starts with a custom write becomes the normalized
/// writes of the wrapped value; a custom write elsewhere becomes the first
/// normalized write of the wrapped value.
pub open spec fn norm_write_seq(cat: TypeCatalog, s: WriteSeqModel, fuel: nat) -> WriteSeqModel
    decreases s,
{
    if s.ops.len() > 0 && s.ops[0] is Custom {
        match s.ops[0] {
            WriteOpModel::Custom { underlying, .. } => norm_write_seq(cat, *underlying, fuel),
            _ => s,
        }
    } else {
        WriteSeqModel { size: s.size, ops: norm_write_ops(cat, s.ops, fuel), shape: s.shape }
    }
}

/// Each write normalized, in order.
pub open spec fn norm_write_ops(cat: TypeCatalog, ops: Seq<WriteOpModel>, fuel: nat) -> Seq<WriteOpModel>
    decreases ops,
{
    if ops.len() == 0 {
        Seq::empty()
    } else {
        norm_write_ops(cat, ops.drop_last(), fuel).push(norm_write_op(cat, ops.last(), fuel))
    }
}

/// Each field write normalized, in order.
pub open spec fn norm_field_writes(cat: TypeCatalog, fields: Seq<FieldWriteModel>, fuel: nat) -> Seq<FieldWriteModel>
    decreases fields,
{
    if fields.len() == 0 {
        Seq::empty()
    } else {
        norm_field_writes(cat, fields.drop_last(), fuel).push(
            FieldWriteModel {
                name: fields.last().name,
                accessor: fields.last().accessor,
                seq: norm_write_seq(cat, fields.last().seq, fuel),
            },
        )
    }
}

/// One write normalized.
pub open spec fn norm_write_op(cat: TypeCatalog, op: WriteOpModel, fuel: nat) -> WriteOpModel
    decreases op,
{
    match op {
        WriteOpModel::Option { value, some } => WriteOpModel::Option {
            value,
            some: Box::new(norm_write_seq(cat, *some, fuel)),
        },
        WriteOpModel::Vec { value, element_type, element, layout } => WriteOpModel::Vec {
            value,
            element_type: norm_type(cat, element_type, fuel),
            element: Box::new(norm_write_seq(cat, *element, fuel)),
            layout,
        },
        WriteOpModel::Record { id, value, fields } => WriteOpModel::Record {
            id,
            value,
            fields: norm_field_writes(cat, fields, fuel),
        },
        WriteOpModel::Result { value, ok, err } => WriteOpModel::Result {
            value,
            ok: Box::new(norm_write_seq(cat, *ok, fuel)),
            err: Box::new(norm_write_seq(cat, *err, fuel)),
        },
        WriteOpModel::Custom { underlying, .. } => norm_write_seq(cat, *underlying, fuel).ops[0],
        _ => op,
    }
}

/// A write sequence holds no custom write and no custom element type.
pub open spec fn write_seq_custom_free(s: WriteSeqModel) -> bool
    decreases s,
{
    write_ops_custom_free(s.ops)
}

/// Every write is free of custom types.
pub open spec fn write_ops_custom_free(ops: Seq<WriteOpModel>) -> bool
    decreases ops,
{
    ops.len() == 0 || (write_ops_custom_free(ops.drop_last()) && write_op_custom_free(ops.last()))
}

/// Every field write is free of custom types.
pub open spec fn field_writes_custom_free(fields: Seq<FieldWriteModel>) -> bool
    decreases fields,
{
    fields.len() == 0 || (field_writes_custom_free(fields.drop_last()) && write_seq_custom_free(fields.last().seq))
}

/// A write is free of custom types.
pub open spec fn write_op_custom_free(op: WriteOpModel) -> bool
    decreases op,
{
    match op {
        WriteOpModel::Option { some, .. } => write_seq_custom_free(*some),
        WriteOpModel::Vec { element_type, element, .. } => !mentions_custom(element_type) && write_seq_custom_free(*element),
        WriteOpModel::Record { fields, .. } => field_writes_custom_free(fields),
        WriteOpModel::Result { ok, err, .. } => write_seq_custom_free(*ok) && write_seq_custom_free(*err),
        WriteOpModel::Custom { .. } => false,
        _ => true,
    }
}

/// A write sequence can be normalized: every custom write wraps a non-empty
/// sequence and every element type's custom types resolve within `fuel`.
pub open spec fn write_seq_wf(cat: TypeCatalog, s: WriteSeqModel, fuel: nat) -> bool
    decreases s,
{
    write_ops_wf(cat, s.ops, fuel)
}

/// Every write can be normalized.
pub open spec fn write_ops_wf(cat: TypeCatalog, ops: Seq<WriteOpModel>, fuel: nat) -> bool
    decreases ops,
{
    ops.len() == 0 || (write_ops_wf(cat, ops.drop_last(), fuel) && write_op_wf(cat, ops.last(), fuel))
}

/// Every field write can be normalized.
pub open spec fn field_writes_wf(cat: TypeCatalog, fields: Seq<FieldWriteModel>, fuel: nat) -> bool
    decreases fields,
{
    fields.len() == 0 || (field_writes_wf(cat, fields.drop_last(), fuel) && write_seq_wf(cat, fields.last().seq, fuel))
}

/// A write can be normalized.
pub open spec fn write_op_wf(cat: TypeCatalog, op: WriteOpModel, fuel: nat) -> bool
    decreases op,
{
    match op {
        WriteOpModel::Option { some, .. } => write_seq_wf(cat, *some, fuel),
        WriteOpModel::Vec { element_type, element, .. } => customs_resolve(cat, element_type, fuel) && write_seq_wf(cat, *element, fuel),
        WriteOpModel::Record { fields, .. } => field_writes_wf(cat, fields, fuel),
        WriteOpModel::Result { ok, err, .. } => write_seq_wf(cat, *ok, fuel) && write_seq_wf(cat, *err, fuel),
        WriteOpModel::Custom { underlying, .. } => underlying.ops.len() > 0 && write_seq_wf(cat, *underlying, fuel),
        _ => true,
    }
}

proof fn lemma_write_ops_wf_at(cat: TypeCatalog, ops: Seq<WriteOpModel>, fuel: nat, i: int)
    requires
        write_ops_wf(cat, ops, fuel),
        0 <= i < ops.len(),
    ensures
        write_op_wf(cat, ops[i], fuel),
    decreases ops.len(),
{
    if i < ops.len() - 1 {
        lemma_write_ops_wf_at(cat, ops.drop_last(), fuel, i);
    }
}

pub proof fn lemma_write_ops_free_at(ops: Seq<WriteOpModel>, i: int)
    requires
        write_ops_custom_free(ops),
        0 <= i < ops.len(),
    ensures
        write_op_custom_free(ops[i]),
    decreases ops.len(),
{
    if i < ops.len() - 1 {
        lemma_write_ops_free_at(ops.drop_last(), i);
    }
}

proof fn lemma_norm_write_ops_len(cat: TypeCatalog, ops: Seq<WriteOpModel>, fuel: nat)
    ensures
        norm_write_ops(cat, ops, fuel).len() == ops.len(),
    decreases ops.len(),
{
    if ops.len() > 0 {
        lemma_norm_write_ops_len(cat, ops.drop_last(), fuel);
    }
}

/// Normalizing a non-empty sequence that can be normalized gives a
/// non-empty sequence.
proof fn lemma_norm_write_seq_nonempty(cat: TypeCatalog, s: WriteSeqModel, fuel: nat)
    requires
        write_seq_wf(cat, s, fuel),
        s.ops.len() > 0,
    ensures
        norm_write_seq(cat, s, fuel).ops.len() > 0,
    decreases s,
{
    lemma_write_ops_wf_at(cat, s.ops, fuel, 0);
    if s.ops[0] is Custom {
        match s.ops[0] {
            WriteOpModel::Custom { underlying, .. } => {
                assert(decreases_to!(s => s.ops));
                assert(decreases_to!(s.ops => s.ops[0]));
                lemma_norm_write_seq_nonempty(cat, *underlying, fuel);
            },
            _ => {},
        }
    } else {
        lemma_norm_write_ops_len(cat, s.ops, fuel);
    }
}

/// Normalizing a write sequence that can be normalized leaves no custom type
/// in it.
pub proof fn lemma_norm_write_seq_custom_free(cat: TypeCatalog, s: WriteSeqModel, fuel: nat)
    requires
        write_seq_wf(cat, s, fuel),
    ensures
        write_seq_custom_free(norm_write_seq(cat, s, fuel)),
    decreases s, 2nat,
{
    if s.ops.len() > 0 && s.ops[0] is Custom {
        lemma_write_ops_wf_at(cat, s.ops, fuel, 0);
        match s.ops[0] {
            WriteOpModel::Custom { underlying, .. } => {
                assert(decreases_to!(s => s.ops));
                assert(decreases_to!(s.ops => s.ops[0]));
                lemma_norm_write_seq_custom_free(cat, *underlying, fuel);
            },
            _ => {},
        }
    } else {
        lemma_norm_write_ops_custom_free(cat, s.ops, fuel);
    }
}

proof fn lemma_norm_write_ops_custom_free(cat: TypeCatalog, ops: Seq<WriteOpModel>, fuel: nat)
    requires
        write_ops_wf(cat, ops, fuel),
    ensures
        write_ops_custom_free(norm_write_ops(cat, ops, fuel)),
    decreases ops, 1nat,
{
    if ops.len() > 0 {
        lemma_norm_write_ops_custom_free(cat, ops.drop_last(), fuel);
        lemma_norm_write_op_custom_free(cat, ops.last(), fuel);
        assert(norm_write_ops(cat, ops, fuel).drop_last() =~= norm_write_ops(cat, ops.drop_last(), fuel));
    }
}

proof fn lemma_norm_field_writes_custom_free(cat: TypeCatalog, fields: Seq<FieldWriteModel>, fuel: nat)
    requires
        field_writes_wf(cat, fields, fuel),
    ensures
        field_writes_custom_free(norm_field_writes(cat, fields, fuel)),
    decreases fields, 1nat,
{
    if fields.len() > 0 {
        lemma_norm_field_writes_custom_free(cat, fields.drop_last(), fuel);
        lemma_norm_write_seq_custom_free(cat, fields.last().seq, fuel);
        assert(norm_field_writes(cat, fields, fuel).drop_last() =~= norm_field_writes(cat, fields.drop_last(), fuel));
    }
}

proof fn lemma_norm_write_op_custom_free(cat: TypeCatalog, op: WriteOpModel, fuel: nat)
    requires
        write_op_wf(cat, op, fuel),
    ensures
        write_op_custom_free(norm_write_op(cat, op, fuel)),
    decreases op, 0nat,
{
    match op {
        WriteOpModel::Option { some, .. } => lemma_norm_write_seq_custom_free(cat, *some, fuel),
        WriteOpModel::Vec { element_type, element, .. } => {
            lemma_norm_type_custom_free(cat, element_type, fuel);
            lemma_norm_write_seq_custom_free(cat, *element, fuel);
        },
        WriteOpModel::Record { fields, .. } => lemma_norm_field_writes_custom_free(cat, fields, fuel),
        WriteOpModel::Result { ok, err, .. } => {
            lemma_norm_write_seq_custom_free(cat, *ok, fuel);
            lemma_norm_write_seq_custom_free(cat, *err, fuel);
        },
        WriteOpModel::Custom { underlying, .. } => {
            lemma_norm_write_seq_custom_free(cat, *underlying, fuel);
            lemma_norm_write_seq_nonempty(cat, *underlying, fuel);
            lemma_write_ops_free_at(norm_write_seq(cat, *underlying, fuel).ops, 0);
        },
        _ => {},
    }
}

/// Normalizing a write sequence free of custom types leaves it as it is.
pub proof fn lemma_norm_write_seq_identity(cat: TypeCatalog, s: WriteSeqModel, fuel: nat)
    requires
        write_seq_custom_free(s),
    ensures
        norm_write_seq(cat, s, fuel) == s,
    decreases s, 2nat,
{
    if s.ops.len() > 0 {
        lemma_write_ops_free_at(s.ops, 0);
    }
    lemma_norm_write_ops_identity(cat, s.ops, fuel);
}

proof fn lemma_norm_write_ops_identity(cat: TypeCatalog, ops: Seq<WriteOpModel>, fuel: nat)
    requires
        write_ops_custom_free(ops),
    ensures
        norm_write_ops(cat, ops, fuel) == ops,
    decreases ops, 1nat,
{
    if ops.len() > 0 {
        lemma_norm_write_ops_identity(cat, ops.drop_last(), fuel);
        lemma_norm_write_op_identity(cat, ops.last(), fuel);
        assert(norm_write_ops(cat, ops, fuel) =~= ops);
    }
}

proof fn lemma_norm_field_writes_identity(cat: TypeCatalog, fields: Seq<FieldWriteModel>, fuel: nat)
    requires
        field_writes_custom_free(fields),
    ensures
        norm_field_writes(cat, fields, fuel) == fields,
    decreases fields, 1nat,
{
    if fields.len() > 0 {
        lemma_norm_field_writes_identity(cat, fields.drop_last(), fuel);
        lemma_norm_write_seq_identity(cat, fields.last().seq, fuel);
        assert(norm_field_writes(cat, fields, fuel) =~= fields);
    }
}

proof fn lemma_norm_write_op_identity(cat: TypeCatalog, op: WriteOpModel, fuel: nat)
    requires
        write_op_custom_free(op),
    ensures
        norm_write_op(cat, op, fuel) == op,
    decreases op, 0nat,
{
    match op {
        WriteOpModel::Option { some, .. } => lemma_norm_write_seq_identity(cat, *some, fuel),
        WriteOpModel::Vec { element_type, element, .. } => {
            lemma_norm_type_identity(cat, element_type, fuel);
            lemma_norm_write_seq_identity(cat, *element, fuel);
        },
        WriteOpModel::Record { fields, .. } => lemma_norm_field_writes_identity(cat, fields, fuel),
        WriteOpModel::Result { ok, err, .. } => {
            lemma_norm_write_seq_identity(cat, *ok, fuel);
            lemma_norm_write_seq_identity(cat, *err, fuel);
        },
        _ => {},
    }
}

/// Normalizing a write sequence twice is normalizing it once.
pub proof fn lemma_norm_write_seq_idempotent(cat: TypeCatalog, s: WriteSeqModel, fuel: nat, fuel2: nat)
    requires
        write_seq_wf(cat, s, fuel),
    ensures
        norm_write_seq(cat, norm_write_seq(cat, s, fuel), fuel2) == norm_write_seq(cat, s, fuel),
{
    lemma_norm_write_seq_custom_free(cat, s, fuel);
    lemma_norm_write_seq_identity(cat, norm_write_seq(cat, s, fuel), fuel2);
}

/// The model of a list of writes has one model per write.
pub proof fn lemma_write_ops_model_index(v: Seq<WriteOp>, i: int)
    ensures
        write_ops_model(v).len() == v.len(),
        0 <= i < v.len() ==> write_ops_model(v)[i] == write_op_model(v[i]),
    decreases v.len(),
{
    if v.len() > 0 {
        lemma_write_ops_model_index(v.drop_last(), i);
    }
}

/// The model of a list of field writes has one model per field write.
pub proof fn lemma_field_writes_model_index(v: Seq<FieldWriteOp>, i: int)
    ensures
        field_writes_model(v).len() == v.len(),
        0 <= i < v.len() ==> field_writes_model(v)[i] == (FieldWriteModel {
            name: v[i].name,
            accessor: v[i].accessor,
            seq: write_seq_model(v[i].seq),
        }),
    decreases v.len(),
{
    if v.len() > 0 {
        lemma_field_writes_model_index(v.drop_last(), i);
    }
}

proof fn lemma_field_writes_wf_at(cat: TypeCatalog, fields: Seq<FieldWriteModel>, fuel: nat, i: int)
    requires
        field_writes_wf(cat, fields, fuel),
        0 <= i < fields.len(),
    ensures
        write_seq_wf(cat, fields[i].seq, fuel),
    decreases fields.len(),
{
    if i < fields.len() - 1 {
        lemma_field_writes_wf_at(cat, fields.drop_last(), fuel, i);
    }
}

impl<'a> CSharpLowerer<'a> {
    fn norm_write_seq_with_fuel(&self, seq: &WriteSeq, Ghost(fuel): Ghost<nat>) -> (res: WriteSeq)
        requires
            write_seq_wf(self.ffi.catalog, seq@, fuel),
        ensures
            res@ == norm_write_seq(self.ffi.catalog, seq@, fuel),
        decreases seq, 1nat,
    {
        let ghost cat = self.ffi.catalog;
        proof {
            lemma_write_ops_model_index(seq.ops@, 0);
        }
        if seq.ops.len() > 0 {
            if let WriteOp::Custom { underlying, .. } = &seq.ops[0] {
                proof {
                    lemma_write_ops_wf_at(cat, seq@.ops, fuel, 0);
                    assert(decreases_to!(seq.ops@ => seq.ops@[0]));
                }
                return self.norm_write_seq_with_fuel(underlying, Ghost(fuel));
            }
        }
        let size = Self::normalize_custom_size_expr(&seq.size);
        let mut ops: Vec<WriteOp> = Vec::new();
        let mut i: usize = 0;
        while i < seq.ops.len()
            invariant
                cat == self.ffi.catalog,
                write_seq_wf(cat, seq@, fuel),
                i <= seq.ops@.len(),
                write_ops_model(ops@) == norm_write_ops(cat, write_ops_model(seq.ops@).take(i as int), fuel),
            decreases seq.ops.len() - i,
        {
            proof {
                lemma_write_ops_model_index(seq.ops@, i as int);
                lemma_write_ops_wf_at(cat, write_ops_model(seq.ops@), fuel, i as int);
                assert(decreases_to!(seq.ops@ => seq.ops@[i as int]));
            }
            let op = self.norm_write_op_with_fuel(&seq.ops[i], Ghost(fuel));
            let ghost before = ops@;
            ops.push(op);
            proof {
                assert(ops@.drop_last() =~= before);
                let m = write_ops_model(seq.ops@);
                assert(m.take(i + 1).drop_last() =~= m.take(i as int));
            }
            i = i + 1;
        }
        proof {
            lemma_write_ops_model_index(seq.ops@, 0);
            assert(write_ops_model(seq.ops@).take(seq.ops@.len() as int) =~= write_ops_model(seq.ops@));
        }
        WriteSeq { size, ops, shape: seq.shape }
    }

    fn norm_write_op_with_fuel(&self, op: &WriteOp, Ghost(fuel): Ghost<nat>) -> (res: WriteOp)
        requires
            write_op_wf(self.ffi.catalog, op@, fuel),
        ensures
            res@ == norm_write_op(self.ffi.catalog, op@, fuel),
        decreases op, 0nat,
    {
        let ghost cat = self.ffi.catalog;
        match op {
            WriteOp::Primitive { primitive, value } => WriteOp::Primitive { primitive: *primitive, value: value.clone() },
            WriteOp::String { value } => WriteOp::String { value: value.clone() },
            WriteOp::Bytes { value } => WriteOp::Bytes { value: value.clone() },
            WriteOp::Enum { id, value } => WriteOp::Enum { id: id.clone(), value: value.clone() },
            WriteOp::Option { value, some } => WriteOp::Option {
                value: value.clone(),
                some: Box::new(self.norm_write_seq_with_fuel(some, Ghost(fuel))),
            },
            WriteOp::Vec { value, element_type, element, layout } => WriteOp::Vec {
                value: value.clone(),
                element_type: self.norm_type_with_fuel(element_type, Ghost(fuel)),
                element: Box::new(self.norm_write_seq_with_fuel(element, Ghost(fuel))),
                layout: *layout,
            },
            WriteOp::Record { id, value, fields } => {
                let mut out: Vec<FieldWriteOp> = Vec::new();
                let mut i: usize = 0;
                while i < fields.len()
                    invariant
                        cat == self.ffi.catalog,
                        write_op_wf(cat, op@, fuel),
                        op@ == write_op_model(*op),
                        *op matches WriteOp::Record { fields: f, .. } && f == *fields,
                        i <= fields@.len(),
                        field_writes_model(out@) == norm_field_writes(cat, field_writes_model(fields@).take(i as int), fuel),
                    decreases fields.len() - i,
                {
                    proof {
                        lemma_field_writes_model_index(fields@, i as int);
                        lemma_field_writes_wf_at(cat, field_writes_model(fields@), fuel, i as int);
                        assert(decreases_to!(fields@ => fields@[i as int]));
                    }
                    let field = &fields[i];
                    let seq = self.norm_write_seq_with_fuel(&field.seq, Ghost(fuel));
                    let ghost before = out@;
                    out.push(FieldWriteOp { name: field.name.clone(), accessor: field.accessor.clone(), seq });
                    proof {
                        assert(out@.drop_last() =~= before);
                        let m = field_writes_model(fields@);
                        assert(m.take(i + 1).drop_last() =~= m.take(i as int));
                    }
                    i = i + 1;
                }
                proof {
                    lemma_field_writes_model_index(fields@, 0);
                    assert(field_writes_model(fields@).take(fields@.len() as int) =~= field_writes_model(fields@));
                }
                WriteOp::Record { id: id.clone(), value: value.clone(), fields: out }
            },
            WriteOp::Result { value, ok, err } => WriteOp::Result {
                value: value.clone(),
                ok: Box::new(self.norm_write_seq_with_fuel(ok, Ghost(fuel))),
                err: Box::new(self.norm_write_seq_with_fuel(err, Ghost(fuel))),
            },
            WriteOp::Custom { underlying, .. } => {
                let normalized = self.norm_write_seq_with_fuel(underlying, Ghost(fuel));
                proof {
                    lemma_norm_write_seq_nonempty(cat, underlying@, fuel);
                    lemma_write_ops_model_index(normalized.ops@, 0);
                }
                let mut ops = normalized.ops;
                ops.remove(0)
            },
        }
    }

    /// A write sequence with every custom write replaced by the writes of the
    /// value it wraps, and every element type normalized.
    pub fn normalize_custom_write_seq(&self, seq: &WriteSeq) -> (res: WriteSeq)
        requires
            write_seq_wf(self.ffi.catalog, seq@, crate::custom_chains::custom_depth(self.ffi.catalog)),
        ensures
            res@ == norm_write_seq(self.ffi.catalog, seq@, crate::custom_chains::custom_depth(self.ffi.catalog)),
            write_seq_custom_free(res@),
    {
        proof {
            lemma_norm_write_seq_custom_free(self.ffi.catalog, seq@, crate::custom_chains::custom_depth(self.ffi.catalog));
        }
        self.norm_write_seq_with_fuel(seq, Ghost(crate::custom_chains::custom_depth(self.ffi.catalog)))
    }

    /// One write normalized.
    pub fn normalize_custom_write_op(&self, op: &WriteOp) -> (res: WriteOp)
        requires
            write_op_wf(self.ffi.catalog, op@, crate::custom_chains::custom_depth(self.ffi.catalog)),
        ensures
            res@ == norm_write_op(self.ffi.catalog, op@, crate::custom_chains::custom_depth(self.ffi.catalog)),
            write_op_custom_free(res@),
    {
        proof {
            lemma_norm_write_op_custom_free(self.ffi.catalog, op@, crate::custom_chains::custom_depth(self.ffi.catalog));
        }
        self.norm_write_op_with_fuel(op, Ghost(crate::custom_chains::custom_depth(self.ffi.catalog)))
    }
}

} // verus!
