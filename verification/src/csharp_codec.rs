//! How the C# backend spells wire reads, writes and sizes.
//!
//! A read becomes a call on the reader (`reader.ReadI32()`), a record or
//! enum is decoded by its generated type (`Point.Decode(reader)`), and an
//! option, array or result passes a lambda for its inner value. Writes and
//! sizes mirror this on the writer and on `WireWriter`.

use vstd::prelude::*;
use vstd::string::*;

use crate::csharp_ast::{expr_text, exprs_text, lambda, lemma_exprs_text_two, method_call, method_call1, method_call2, statement_text, type_named, CSharpBinaryOp, CSharpExpression, CSharpIdentity, CSharpLiteral, CSharpStatement, CSharpTypeReference, binary_op_text};
use crate::csharp_names::{CSharpClassName, CSharpLocalName, CSharpPropertyName};
use crate::naming::{pascal_case, str_eq};
use crate::text::decimal_int;
use crate::types::PrimitiveType;
use crate::wire::{size_model, sizes_model, write_ops_model, ReadOp, ReadOpModel, ReadSeq, ReadSeqModel, SizeExpr, SizeModel, ValueExpr, VecLayout, WriteOp, WriteOpModel, WriteSeq, WriteSeqModel};
use crate::csharp_custom::{lemma_read_ops_model_index, lemma_sizes_model_index, lemma_write_ops_model_index};

verus! {

/// How the roots of the value expressions are spelled: each entry maps a
/// root name to a C# expression; an earlier entry shadows a later one.
pub struct Renames {
    pub entries: Vec<(String, CSharpExpression)>,
}

/// The root names and expression texts of the entries, in order.
pub open spec fn renames_view(entries: Seq<(String, CSharpExpression)>) -> Seq<(Seq<char>, Seq<char>)> {
    entries.map_values(|e: (String, CSharpExpression)| (e.0@, expr_text(e.1)))
}

/// The text `name` is renamed to, if any entry renames it.
pub open spec fn rename_of(entries: Seq<(Seq<char>, Seq<char>)>, name: Seq<char>) -> Option<Seq<char>>
    decreases entries.len(),
{
    if entries.len() == 0 {
        None
    } else if entries[0].0 == name {
        Some(entries[0].1)
    } else {
        rename_of(entries.drop_first(), name)
    }
}

impl View for Renames {
    type V = Seq<(Seq<char>, Seq<char>)>;

    open spec fn view(&self) -> Seq<(Seq<char>, Seq<char>)> {
        renames_view(self.entries@)
    }
}

impl Renames {
    /// No renaming.
    pub fn new() -> (res: Self)
        ensures
            res@ == Seq::<(Seq<char>, Seq<char>)>::empty(),
    {
        let res = Renames { entries: Vec::new() };
        assert(res@ =~= Seq::<(Seq<char>, Seq<char>)>::empty());
        res
    }

    /// Spells the root `name` as `expr` from now on.
    pub fn insert(&mut self, name: String, expr: CSharpExpression)
        ensures
            final(self)@ == seq![(name@, expr_text(expr))] + old(self)@,
    {
        let ghost n = name@;
        let ghost t = expr_text(expr);
        self.entries.insert(0, (name, expr));
        assert(self@ =~= seq![(n, t)] + old(self)@);
    }

    /// The expression the root `name` is spelled as, if it is renamed.
    pub fn get(&self, name: &str) -> (res: Option<CSharpExpression>)
        ensures
            res is Some <==> rename_of(self@, name@) is Some,
            res matches Some(e) ==> rename_of(self@, name@) == Some(expr_text(e)),
    {
        let mut i: usize = 0;
        assert(self@.skip(0) =~= self@);
        while i < self.entries.len()
            invariant
                i <= self.entries@.len(),
                rename_of(self@, name@) == rename_of(self@.skip(i as int), name@),
            decreases self.entries.len() - i,
        {
            let entry = &self.entries[i];
            assert(self@.skip(i as int)[0] == (entry.0@, expr_text(entry.1)));
            if str_eq(entry.0.as_str(), name) {
                return Some(entry.1.clone());
            }
            assert(self@.skip(i as int).drop_first() =~= self@.skip(i + 1));
            i = i + 1;
        }
        None
    }
}

/// The text of a value expression: a root as renamed (or as named), and a
/// field as a `PascalCase` member of its base.
pub open spec fn value_text(r: Seq<(Seq<char>, Seq<char>)>, v: ValueExpr) -> Seq<char>
    decreases v,
{
    match v {
        ValueExpr::Var(n) => match rename_of(r, n@) {
            Some(t) => t,
            None => n@,
        },
        ValueExpr::Field(base, f) => value_text(r, *base) + "."@ + pascal_case(f@),
    }
}

/// Spells a value expression.
pub fn lower_value(v: &ValueExpr, renames: &Renames) -> (res: CSharpExpression)
    ensures
        expr_text(res) == value_text(renames@, *v),
    decreases v,
{
    match v {
        ValueExpr::Var(n) => match renames.get(n.as_str()) {
            Some(e) => e,
            None => CSharpExpression::Identity(CSharpIdentity::Local(CSharpLocalName::new(n.as_str()))),
        },
        ValueExpr::Field(base, f) => {
            let b = lower_value(base, renames);
            let res = CSharpExpression::MemberAccess { receiver: Box::new(b), name: CSharpPropertyName::from_source(f.as_str()) };
            res
        },
    }
}

/// `receiver.method(args)` as text.
pub open spec fn call_text(receiver: Seq<char>, method: Seq<char>, args: Seq<char>) -> Seq<char> {
    receiver + "."@ + method + "("@ + args + ")"@
}

/// The suffix of the reader and writer methods for a primitive.
pub open spec fn wire_suffix(p: PrimitiveType) -> Seq<char> {
    match p {
        PrimitiveType::Bool => "Bool"@,
        PrimitiveType::I8 => "I8"@,
        PrimitiveType::U8 => "U8"@,
        PrimitiveType::I16 => "I16"@,
        PrimitiveType::U16 => "U16"@,
        PrimitiveType::I32 => "I32"@,
        PrimitiveType::U32 => "U32"@,
        PrimitiveType::I64 => "I64"@,
        PrimitiveType::U64 => "U64"@,
        PrimitiveType::ISize => "NInt"@,
        PrimitiveType::USize => "NUInt"@,
        PrimitiveType::F32 => "F32"@,
        PrimitiveType::F64 => "F64"@,
    }
}

fn wire_method(prefix: &str, p: PrimitiveType) -> (res: String)
    ensures
        res@ == prefix@ + wire_suffix(p),
{
    let mut res = String::from_str(prefix);
    match p {
        PrimitiveType::Bool => res.append("Bool"),
        PrimitiveType::I8 => res.append("I8"),
        PrimitiveType::U8 => res.append("U8"),
        PrimitiveType::I16 => res.append("I16"),
        PrimitiveType::U16 => res.append("U16"),
        PrimitiveType::I32 => res.append("I32"),
        PrimitiveType::U32 => res.append("U32"),
        PrimitiveType::I64 => res.append("I64"),
        PrimitiveType::U64 => res.append("U64"),
        PrimitiveType::ISize => res.append("NInt"),
        PrimitiveType::USize => res.append("NUInt"),
        PrimitiveType::F32 => res.append("F32"),
        PrimitiveType::F64 => res.append("F64"),
    }
    res
}

fn class_ref(id: &str) -> (res: CSharpExpression)
    ensures
        expr_text(res) == pascal_case(id@),
{
    CSharpExpression::TypeRef(CSharpTypeReference::Plain(CSharpClassName::from_source(id)))
}

/// The text of the expression that decodes one read from the reader `r`.
pub open spec fn decode_op_text(op: ReadOpModel, r: Seq<char>) -> Seq<char>
    decreases op,
{
    match op {
        ReadOpModel::Primitive { primitive, .. } => call_text(r, "Read"@ + wire_suffix(primitive), Seq::empty()),
        ReadOpModel::String { .. } => call_text(r, "ReadString"@, Seq::empty()),
        ReadOpModel::Bytes { .. } => call_text(r, "ReadBytes"@, Seq::empty()),
        ReadOpModel::Enum { id, .. } => call_text(pascal_case(id@), "Decode"@, r),
        ReadOpModel::Record { id, .. } => call_text(pascal_case(id@), "Decode"@, r),
        ReadOpModel::Option { some, .. } => call_text(r, "ReadOptional"@, "() => "@ + decode_seq_text(*some, r)),
        ReadOpModel::Vec { element, .. } => call_text(r, "ReadArray"@, "() => "@ + decode_seq_text(*element, r)),
        ReadOpModel::Result { ok, err, .. } => call_text(
            r,
            "ReadResult"@,
            "() => "@ + decode_seq_text(*ok, r) + ", "@ + "() => "@ + decode_seq_text(*err, r),
        ),
        ReadOpModel::Custom { underlying, .. } => decode_seq_text(*underlying, r),
    }
}

/// The text of the expression that decodes a value: its first read, or
/// `default` when there is none.
pub open spec fn decode_seq_text(s: ReadSeqModel, r: Seq<char>) -> Seq<char>
    decreases s,
{
    if s.ops.len() == 0 {
        "default"@
    } else {
        decode_op_text(s.ops[0], r)
    }
}

/// The expression that decodes one read from `reader`.
pub fn lower_decode_op(op: &ReadOp, reader: &CSharpExpression) -> (res: CSharpExpression)
    ensures
        expr_text(res) == decode_op_text(op@, expr_text(*reader)),
    decreases op, 0nat,
{
    match op {
        ReadOp::Primitive { primitive, .. } => {
            let m = wire_method("Read", *primitive);
            method_call(reader.clone(), m.as_str(), Vec::new())
        },
        ReadOp::String { .. } => method_call(reader.clone(), "ReadString", Vec::new()),
        ReadOp::Bytes { .. } => method_call(reader.clone(), "ReadBytes", Vec::new()),
        ReadOp::Enum { id, .. } => method_call1(class_ref(id.as_str()), "Decode", reader.clone()),
        ReadOp::Record { id, .. } => method_call1(class_ref(id.as_str()), "Decode", reader.clone()),
        ReadOp::Option { some, .. } => {
            let inner = lower_decode_expr(some, reader);
            method_call1(reader.clone(), "ReadOptional", lambda(inner))
        },
        ReadOp::Vec { element, .. } => {
            let inner = lower_decode_expr(element, reader);
            method_call1(reader.clone(), "ReadArray", lambda(inner))
        },
        ReadOp::Result { ok, err, .. } => {
            let o = lower_decode_expr(ok, reader);
            let e = lower_decode_expr(err, reader);
            let res = method_call2(reader.clone(), "ReadResult", lambda(o), lambda(e));
            assert(expr_text(res) =~= decode_op_text(op@, expr_text(*reader)));
            res
        },
        ReadOp::Custom { underlying, .. } => lower_decode_expr(underlying, reader),
    }
}

/// The expression that decodes a value from `reader`.
pub fn lower_decode_expr(seq: &ReadSeq, reader: &CSharpExpression) -> (res: CSharpExpression)
    ensures
        expr_text(res) == decode_seq_text(seq@, expr_text(*reader)),
    decreases seq, 1nat,
{
    proof {
        lemma_read_ops_model_index(seq.ops@, 0);
    }
    if seq.ops.len() == 0 {
        CSharpExpression::Literal(CSharpLiteral::Default)
    } else {
        proof {
            assert(decreases_to!(seq.ops@ => seq.ops@[0]));
        }
        lower_decode_op(&seq.ops[0], reader)
    }
}

/// The text of the expression that writes one value to the writer `w`.
pub open spec fn encode_op_text(op: WriteOpModel, w: Seq<char>, r: Seq<(Seq<char>, Seq<char>)>) -> Seq<char>
    decreases op,
{
    match op {
        WriteOpModel::Primitive { primitive, value } => call_text(w, "Write"@ + wire_suffix(primitive), value_text(r, value)),
        WriteOpModel::String { value } => call_text(w, "WriteString"@, value_text(r, value)),
        WriteOpModel::Bytes { value } => call_text(w, "WriteBytes"@, value_text(r, value)),
        WriteOpModel::Enum { value, .. } => call_text(value_text(r, value), "WireEncodeTo"@, w),
        WriteOpModel::Record { value, .. } => call_text(value_text(r, value), "WireEncodeTo"@, w),
        WriteOpModel::Option { value, some } => call_text(
            w,
            "WriteOptional"@,
            value_text(r, value) + ", "@ + "() => "@ + encode_seq_expr_text(*some, w, r),
        ),
        WriteOpModel::Vec { value, element, .. } => call_text(
            w,
            "WriteArray"@,
            value_text(r, value) + ", "@ + "() => "@ + encode_seq_expr_text(*element, w, r),
        ),
        WriteOpModel::Result { value, ok, err } => call_text(
            w,
            "WriteResult"@,
            value_text(r, value) + ", "@ + ("() => "@ + encode_seq_expr_text(*ok, w, r) + ", "@ + "() => "@
                + encode_seq_expr_text(*err, w, r)),
        ),
        WriteOpModel::Custom { underlying, .. } => encode_seq_expr_text(*underlying, w, r),
    }
}

/// The text of the expression that writes a value: its first write, or
/// `default` when there is none.
pub open spec fn encode_seq_expr_text(s: WriteSeqModel, w: Seq<char>, r: Seq<(Seq<char>, Seq<char>)>) -> Seq<char>
    decreases s,
{
    if s.ops.len() == 0 {
        "default"@
    } else {
        encode_op_text(s.ops[0], w, r)
    }
}

/// The expression that writes one value to `writer`.
pub fn lower_encode_op(op: &WriteOp, writer: &CSharpExpression, renames: &Renames) -> (res: CSharpExpression)
    ensures
        expr_text(res) == encode_op_text(op@, expr_text(*writer), renames@),
    decreases op, 0nat,
{
    match op {
        WriteOp::Primitive { primitive, value } => {
            let m = wire_method("Write", *primitive);
            method_call1(writer.clone(), m.as_str(), lower_value(value, renames))
        },
        WriteOp::String { value } => method_call1(writer.clone(), "WriteString", lower_value(value, renames)),
        WriteOp::Bytes { value } => method_call1(writer.clone(), "WriteBytes", lower_value(value, renames)),
        WriteOp::Enum { value, .. } => method_call1(lower_value(value, renames), "WireEncodeTo", writer.clone()),
        WriteOp::Record { value, .. } => method_call1(lower_value(value, renames), "WireEncodeTo", writer.clone()),
        WriteOp::Option { value, some } => {
            let inner = lower_encode_seq_expr(some, writer, renames);
            let res = method_call2(writer.clone(), "WriteOptional", lower_value(value, renames), lambda(inner));
            assert(expr_text(res) =~= encode_op_text(op@, expr_text(*writer), renames@));
            res
        },
        WriteOp::Vec { value, element, .. } => {
            let inner = lower_encode_seq_expr(element, writer, renames);
            let res = method_call2(writer.clone(), "WriteArray", lower_value(value, renames), lambda(inner));
            assert(expr_text(res) =~= encode_op_text(op@, expr_text(*writer), renames@));
            res
        },
        WriteOp::Result { value, ok, err } => {
            let o = lower_encode_seq_expr(ok, writer, renames);
            let e = lower_encode_seq_expr(err, writer, renames);
            let mut args: Vec<CSharpExpression> = Vec::new();
            let v = lower_value(value, renames);
            let lo = lambda(o);
            let le = lambda(e);
            args.push(v);
            args.push(lo);
            args.push(le);
            proof {
                lemma_exprs_text_two(lo, le);
                assert(args@.drop_last() =~= seq![v, lo]);
                lemma_exprs_text_two(v, lo);
                assert(exprs_text(args@) =~= expr_text(v) + ", "@ + (expr_text(lo) + ", "@ + expr_text(le)));
            }
            let res = method_call(writer.clone(), "WriteResult", args);
            assert(expr_text(res) =~= encode_op_text(op@, expr_text(*writer), renames@));
            res
        },
        WriteOp::Custom { underlying, .. } => lower_encode_seq_expr(underlying, writer, renames),
    }
}

/// The expression that writes a value to `writer`.
pub fn lower_encode_seq_expr(seq: &WriteSeq, writer: &CSharpExpression, renames: &Renames) -> (res: CSharpExpression)
    ensures
        expr_text(res) == encode_seq_expr_text(seq@, expr_text(*writer), renames@),
    decreases seq, 1nat,
{
    proof {
        lemma_write_ops_model_index(seq.ops@, 0);
    }
    if seq.ops.len() == 0 {
        CSharpExpression::Literal(CSharpLiteral::Default)
    } else {
        proof {
            assert(decreases_to!(seq.ops@ => seq.ops@[0]));
        }
        lower_encode_op(&seq.ops[0], writer, renames)
    }
}

/// The statements that write a value to `writer`: one per write, in order.
pub fn lower_encode_expr(seq: &WriteSeq, writer: &CSharpExpression, renames: &Renames) -> (res: Vec<CSharpStatement>)
    ensures
        res@.len() == seq.ops@.len(),
        forall|i: int| 0 <= i < res@.len() ==> statement_text(#[trigger] res@[i]) == encode_op_text(
            write_ops_model(seq.ops@)[i],
            expr_text(*writer),
            renames@,
        ) + ";"@,
{
    let mut res: Vec<CSharpStatement> = Vec::new();
    let mut i: usize = 0;
    while i < seq.ops.len()
        invariant
            i <= seq.ops@.len(),
            res@.len() == i,
            forall|j: int| 0 <= j < i ==> statement_text(#[trigger] res@[j]) == encode_op_text(
                write_ops_model(seq.ops@)[j],
                expr_text(*writer),
                renames@,
            ) + ";"@,
        decreases seq.ops.len() - i,
    {
        proof {
            lemma_write_ops_model_index(seq.ops@, i as int);
        }
        let e = lower_encode_op(&seq.ops[i], writer, renames);
        res.push(CSharpStatement::Expression(e));
        i = i + 1;
    }
    res
}

/// The text of a size expression.
pub open spec fn size_text(m: SizeModel, r: Seq<(Seq<char>, Seq<char>)>) -> Seq<char>
    decreases m,
{
    match m {
        SizeModel::Fixed(n) => decimal_int(n as int),
        SizeModel::StringLen { value } => call_text("WireWriter"@, "StringSize"@, value_text(r, value)),
        SizeModel::BytesLen { value } => call_text("WireWriter"@, "BytesSize"@, value_text(r, value)),
        SizeModel::OptionSize { value, inner } => call_text(
            "WireWriter"@,
            "OptionSize"@,
            value_text(r, value) + ", "@ + "() => "@ + size_text(*inner, r),
        ),
        SizeModel::VecSize { value, inner, layout } => match layout {
            VecLayout::Blittable { element_size } => call_text(
                "WireWriter"@,
                "BlittableArraySize"@,
                value_text(r, value) + ", "@ + decimal_int(element_size as int),
            ),
            VecLayout::Encoded => call_text(
                "WireWriter"@,
                "ArraySize"@,
                value_text(r, value) + ", "@ + "() => "@ + size_text(*inner, r),
            ),
        },
        SizeModel::ResultSize { value, ok, err } => call_text(
            "WireWriter"@,
            "ResultSize"@,
            value_text(r, value) + ", "@ + ("() => "@ + size_text(*ok, r) + ", "@ + "() => "@ + size_text(*err, r)),
        ),
        SizeModel::Sum(parts) => sum_text(parts, r),
    }
}

/// The texts of the parts joined by ` + `, or `0` when there is none.
pub open spec fn sum_text(parts: Seq<SizeModel>, r: Seq<(Seq<char>, Seq<char>)>) -> Seq<char>
    decreases parts,
{
    if parts.len() == 0 {
        decimal_int(0)
    } else if parts.len() == 1 {
        size_text(parts[0], r)
    } else {
        sum_text(parts.drop_last(), r) + " "@ + binary_op_text(CSharpBinaryOp::Add) + " "@ + size_text(parts.last(), r)
    }
}

/// The expression that computes a size.
pub fn lower_size_expr(size: &SizeExpr, renames: &Renames) -> (res: CSharpExpression)
    ensures
        expr_text(res) == size_text(size@, renames@),
    decreases size,
{
    match size {
        SizeExpr::Fixed(n) => CSharpExpression::Literal(CSharpLiteral::Int(*n as i128)),
        SizeExpr::StringLen { value } => method_call1(type_named("WireWriter"), "StringSize", lower_value(value, renames)),
        SizeExpr::BytesLen { value } => method_call1(type_named("WireWriter"), "BytesSize", lower_value(value, renames)),
        SizeExpr::OptionSize { value, inner } => {
            let i = lower_size_expr(inner, renames);
            let res = method_call2(type_named("WireWriter"), "OptionSize", lower_value(value, renames), lambda(i));
            assert(expr_text(res) =~= size_text(size@, renames@));
            res
        },
        SizeExpr::VecSize { value, inner, layout } => match layout {
            VecLayout::Blittable { element_size } => {
                let res = method_call2(
                    type_named("WireWriter"),
                    "BlittableArraySize",
                    lower_value(value, renames),
                    CSharpExpression::Literal(CSharpLiteral::Int(*element_size as i128)),
                );
                assert(expr_text(res) =~= size_text(size@, renames@));
                res
            },
            VecLayout::Encoded => {
                let i = lower_size_expr(inner, renames);
                let res = method_call2(type_named("WireWriter"), "ArraySize", lower_value(value, renames), lambda(i));
                assert(expr_text(res) =~= size_text(size@, renames@));
                res
            },
        },
        SizeExpr::ResultSize { value, ok, err } => {
            let o = lower_size_expr(ok, renames);
            let e = lower_size_expr(err, renames);
            let mut args: Vec<CSharpExpression> = Vec::new();
            let v = lower_value(value, renames);
            let lo = lambda(o);
            let le = lambda(e);
            args.push(v);
            args.push(lo);
            args.push(le);
            proof {
                lemma_exprs_text_two(lo, le);
                assert(args@.drop_last() =~= seq![v, lo]);
                lemma_exprs_text_two(v, lo);
                assert(exprs_text(args@) =~= expr_text(v) + ", "@ + (expr_text(lo) + ", "@ + expr_text(le)));
            }
            let res = method_call(type_named("WireWriter"), "ResultSize", args);
            assert(expr_text(res) =~= size_text(size@, renames@));
            res
        },
        SizeExpr::Sum(parts) => {
            if parts.len() == 0 {
                proof {
                    lemma_sizes_model_index(parts@, 0);
                    assert(sizes_model(parts@) =~= Seq::<SizeModel>::empty());
                    assert(size_text(size@, renames@) == sum_text(Seq::<SizeModel>::empty(), renames@));
                }
                let zero = CSharpExpression::Literal(CSharpLiteral::Int(0));
                assert(expr_text(zero) == decimal_int(0));
                return zero;
            }
            proof {
                lemma_sizes_model_index(parts@, 0);
                assert(decreases_to!(parts@ => parts@[0]));
            }
            let mut acc = lower_size_expr(&parts[0], renames);
            let mut i: usize = 1;
            proof {
                assert(sizes_model(parts@).take(1) =~= seq![size_model(parts@[0])]);
            }
            while i < parts.len()
                invariant
                    *size matches SizeExpr::Sum(p) && p == *parts,
                    1 <= i <= parts@.len(),
                    expr_text(acc) == sum_text(sizes_model(parts@).take(i as int), renames@),
                decreases parts.len() - i,
            {
                proof {
                    lemma_sizes_model_index(parts@, i as int);
                    assert(decreases_to!(parts@ => parts@[i as int]));
                }
                let next = lower_size_expr(&parts[i], renames);
                let ghost prev = acc;
                acc = CSharpExpression::Binary { op: CSharpBinaryOp::Add, left: Box::new(acc), right: Box::new(next) };
                proof {
                    let m = sizes_model(parts@);
                    assert(m.take(i + 1).drop_last() =~= m.take(i as int));
                    assert(m.take(i + 1).last() == m[i as int]);
                }
                i = i + 1;
            }
            proof {
                lemma_sizes_model_index(parts@, 0);
                assert(sizes_model(parts@).take(parts@.len() as int) =~= sizes_model(parts@));
            }
            acc
        },
    }
}

} // verus!
