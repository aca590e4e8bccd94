//! A small syntax tree for the C# the backend generates, with its spelling.
//!
//! Each node has a spec function giving its source text, and an executable
//! `to_string` proved to produce exactly that text.

use vstd::prelude::*;
use vstd::string::*;

use crate::csharp_names::{CSharpClassName, CSharpLocalName, CSharpMethodName, CSharpParamName, CSharpPropertyName};
use crate::text::{decimal_int, i128_to_decimal};

verus! {

/// A reference to a named C# type.
pub enum CSharpTypeReference {
    Plain(CSharpClassName),
}

impl CSharpTypeReference {
    /// The source text of the reference.
    pub open spec fn text(self) -> Seq<char> {
        match self {
            CSharpTypeReference::Plain(name) => name@,
        }
    }

    /// Spells the reference.
    pub fn to_string(&self) -> (res: String)
        ensures
            res@ == self.text(),
    {
        match self {
            CSharpTypeReference::Plain(name) => name.to_string(),
        }
    }
}

impl Clone for CSharpTypeReference {
    fn clone(&self) -> (res: Self)
        ensures
            res == *self,
    {
        match self {
            CSharpTypeReference::Plain(name) => CSharpTypeReference::Plain(name.clone()),
        }
    }
}

/// A C# type as it appears in a signature.
pub enum CSharpType {
    Void,
    Bool,
    SByte,
    Byte,
    Short,
    UShort,
    Int,
    UInt,
    Long,
    ULong,
    NInt,
    NUInt,
    Float,
    Double,
    String,
    IntPtr,
    UIntPtr,
    Array(Box<CSharpType>),
    Nullable(Box<CSharpType>),
    Record(CSharpTypeReference),
    CStyleEnum(CSharpTypeReference),
    DataEnum(CSharpTypeReference),
    Named(CSharpTypeReference),
}

/// The source text of a type.
pub open spec fn type_text(t: CSharpType) -> Seq<char>
    decreases t,
{
    match t {
        CSharpType::Void => "void"@,
        CSharpType::Bool => "bool"@,
        CSharpType::SByte => "sbyte"@,
        CSharpType::Byte => "byte"@,
        CSharpType::Short => "short"@,
        CSharpType::UShort => "ushort"@,
        CSharpType::Int => "int"@,
        CSharpType::UInt => "uint"@,
        CSharpType::Long => "long"@,
        CSharpType::ULong => "ulong"@,
        CSharpType::NInt => "nint"@,
        CSharpType::NUInt => "nuint"@,
        CSharpType::Float => "float"@,
        CSharpType::Double => "double"@,
        CSharpType::String => "string"@,
        CSharpType::IntPtr => "IntPtr"@,
        CSharpType::UIntPtr => "UIntPtr"@,
        CSharpType::Array(inner) => type_text(*inner) + "[]"@,
        CSharpType::Nullable(inner) => type_text(*inner) + "?"@,
        CSharpType::Record(r) => r.text(),
        CSharpType::CStyleEnum(r) => r.text(),
        CSharpType::DataEnum(r) => r.text(),
        CSharpType::Named(r) => r.text(),
    }
}

impl CSharpType {
    /// Spells the type.
    pub fn to_string(&self) -> (res: String)
        ensures
            res@ == type_text(*self),
        decreases self,
    {
        match self {
            CSharpType::Void => String::from_str("void"),
            CSharpType::Bool => String::from_str("bool"),
            CSharpType::SByte => String::from_str("sbyte"),
            CSharpType::Byte => String::from_str("byte"),
            CSharpType::Short => String::from_str("short"),
            CSharpType::UShort => String::from_str("ushort"),
            CSharpType::Int => String::from_str("int"),
            CSharpType::UInt => String::from_str("uint"),
            CSharpType::Long => String::from_str("long"),
            CSharpType::ULong => String::from_str("ulong"),
            CSharpType::NInt => String::from_str("nint"),
            CSharpType::NUInt => String::from_str("nuint"),
            CSharpType::Float => String::from_str("float"),
            CSharpType::Double => String::from_str("double"),
            CSharpType::String => String::from_str("string"),
            CSharpType::IntPtr => String::from_str("IntPtr"),
            CSharpType::UIntPtr => String::from_str("UIntPtr"),
            CSharpType::Array(inner) => {
                let mut res = inner.to_string();
                res.append("[]");
                res
            },
            CSharpType::Nullable(inner) => {
                let mut res = inner.to_string();
                res.append("?");
                res
            },
            CSharpType::Record(r) => r.to_string(),
            CSharpType::CStyleEnum(r) => r.to_string(),
            CSharpType::DataEnum(r) => r.to_string(),
            CSharpType::Named(r) => r.to_string(),
        }
    }

    /// Whether the type is `void`.
    pub fn is_void(&self) -> (res: bool)
        ensures
            res == (*self is Void),
    {
        matches!(self, CSharpType::Void)
    }

    /// Whether the type is `string`.
    pub fn is_string(&self) -> (res: bool)
        ensures
            res == (*self is String),
    {
        matches!(self, CSharpType::String)
    }

    /// Whether the type is the plain named type `name`.
    pub open spec fn is_named_spec(self, name: Seq<char>) -> bool {
        self matches CSharpType::Named(CSharpTypeReference::Plain(n)) && n@ == name
    }

    /// Whether the type is the plain named type `name`.
    pub fn is_named(&self, name: &str) -> (res: bool)
        ensures
            res == self.is_named_spec(name@),
    {
        match self {
            CSharpType::Named(CSharpTypeReference::Plain(n)) => crate::naming::str_eq(n.as_str(), name),
            _ => false,
        }
    }
}

impl Clone for CSharpType {
    fn clone(&self) -> (res: Self)
        ensures
            res == *self,
        decreases self,
    {
        match self {
            CSharpType::Void => CSharpType::Void,
            CSharpType::Bool => CSharpType::Bool,
            CSharpType::SByte => CSharpType::SByte,
            CSharpType::Byte => CSharpType::Byte,
            CSharpType::Short => CSharpType::Short,
            CSharpType::UShort => CSharpType::UShort,
            CSharpType::Int => CSharpType::Int,
            CSharpType::UInt => CSharpType::UInt,
            CSharpType::Long => CSharpType::Long,
            CSharpType::ULong => CSharpType::ULong,
            CSharpType::NInt => CSharpType::NInt,
            CSharpType::NUInt => CSharpType::NUInt,
            CSharpType::Float => CSharpType::Float,
            CSharpType::Double => CSharpType::Double,
            CSharpType::String => CSharpType::String,
            CSharpType::IntPtr => CSharpType::IntPtr,
            CSharpType::UIntPtr => CSharpType::UIntPtr,
            CSharpType::Array(inner) => CSharpType::Array(Box::new((**inner).clone())),
            CSharpType::Nullable(inner) => CSharpType::Nullable(Box::new((**inner).clone())),
            CSharpType::Record(r) => CSharpType::Record(r.clone()),
            CSharpType::CStyleEnum(r) => CSharpType::CStyleEnum(r.clone()),
            CSharpType::DataEnum(r) => CSharpType::DataEnum(r.clone()),
            CSharpType::Named(r) => CSharpType::Named(r.clone()),
        }
    }
}

/// A literal value.
pub enum CSharpLiteral {
    Int(i128),
    Bool(bool),
    Null,
    Default,
}

/// The source text of a literal.
pub open spec fn literal_text(l: CSharpLiteral) -> Seq<char> {
    match l {
        CSharpLiteral::Int(v) => decimal_int(v as int),
        CSharpLiteral::Bool(b) => if b { "true"@ } else { "false"@ },
        CSharpLiteral::Null => "null"@,
        CSharpLiteral::Default => "default"@,
    }
}

impl CSharpLiteral {
    /// Spells the literal.
    pub fn to_string(&self) -> (res: String)
        ensures
            res@ == literal_text(*self),
    {
        match self {
            CSharpLiteral::Int(v) => i128_to_decimal(*v),
            CSharpLiteral::Bool(b) => if *b { String::from_str("true") } else { String::from_str("false") },
            CSharpLiteral::Null => String::from_str("null"),
            CSharpLiteral::Default => String::from_str("default"),
        }
    }
}

impl Clone for CSharpLiteral {
    fn clone(&self) -> (res: Self)
        ensures
            res == *self,
    {
        match self {
            CSharpLiteral::Int(v) => CSharpLiteral::Int(*v),
            CSharpLiteral::Bool(b) => CSharpLiteral::Bool(*b),
            CSharpLiteral::Null => CSharpLiteral::Null,
            CSharpLiteral::Default => CSharpLiteral::Default,
        }
    }
}

/// A name that denotes a value: a local or a parameter.
pub enum CSharpIdentity {
    Local(CSharpLocalName),
    Param(CSharpParamName),
}

impl CSharpIdentity {
    /// The source text of the name.
    pub open spec fn text(self) -> Seq<char> {
        match self {
            CSharpIdentity::Local(n) => n@,
            CSharpIdentity::Param(n) => n@,
        }
    }
}

impl Clone for CSharpIdentity {
    fn clone(&self) -> (res: Self)
        ensures
            res == *self,
    {
        match self {
            CSharpIdentity::Local(n) => CSharpIdentity::Local(n.clone()),
            CSharpIdentity::Param(n) => CSharpIdentity::Param(n.clone()),
        }
    }
}

/// A binary operator.
#[derive(Clone, Copy, Debug, PartialEq, Eq, Structural)]
pub enum CSharpBinaryOp {
    Eq,
    Ne,
    Lt,
    Gt,
    Add,
    Sub,
    Mul,
}

/// The source text of an operator.
pub open spec fn binary_op_text(op: CSharpBinaryOp) -> Seq<char> {
    match op {
        CSharpBinaryOp::Eq => "=="@,
        CSharpBinaryOp::Ne => "!="@,
        CSharpBinaryOp::Lt => "<"@,
        CSharpBinaryOp::Gt => ">"@,
        CSharpBinaryOp::Add => "+"@,
        CSharpBinaryOp::Sub => "-"@,
        CSharpBinaryOp::Mul => "*"@,
    }
}

fn binary_op_string(op: CSharpBinaryOp) -> (res: String)
    ensures
        res@ == binary_op_text(op),
{
    match op {
        CSharpBinaryOp::Eq => String::from_str("=="),
        CSharpBinaryOp::Ne => String::from_str("!="),
        CSharpBinaryOp::Lt => String::from_str("<"),
        CSharpBinaryOp::Gt => String::from_str(">"),
        CSharpBinaryOp::Add => String::from_str("+"),
        CSharpBinaryOp::Sub => String::from_str("-"),
        CSharpBinaryOp::Mul => String::from_str("*"),
    }
}

/// An expression.
pub enum CSharpExpression {
    Literal(CSharpLiteral),
    Identity(CSharpIdentity),
    TypeRef(CSharpTypeReference),
    MemberAccess { receiver: Box<CSharpExpression>, name: CSharpPropertyName },
    Cast { target: CSharpType, inner: Box<CSharpExpression> },
    MethodCall {
        receiver: Box<CSharpExpression>,
        method: CSharpMethodName,
        type_args: Vec<CSharpType>,
        args: CSharpArgumentList,
    },
    Ternary { cond: Box<CSharpExpression>, then: Box<CSharpExpression>, otherwise: Box<CSharpExpression> },
    Binary { op: CSharpBinaryOp, left: Box<CSharpExpression>, right: Box<CSharpExpression> },
    Lambda { body: Box<CSharpExpression> },
}

/// The arguments of a call, in order.
pub struct CSharpArgumentList {
    pub args: Vec<CSharpExpression>,
}

/// The texts of `types`, joined by `, `.
pub open spec fn types_text(types: Seq<CSharpType>) -> Seq<char>
    decreases types.len(),
{
    if types.len() == 0 {
        Seq::empty()
    } else if types.len() == 1 {
        type_text(types[0])
    } else {
        types_text(types.drop_last()) + ", "@ + type_text(types.last())
    }
}

/// The source text of an expression.
pub open spec fn expr_text(e: CSharpExpression) -> Seq<char>
    decreases e,
{
    match e {
        CSharpExpression::Literal(l) => literal_text(l),
        CSharpExpression::Identity(i) => i.text(),
        CSharpExpression::TypeRef(r) => r.text(),
        CSharpExpression::MemberAccess { receiver, name } => expr_text(*receiver) + "."@ + name@,
        CSharpExpression::Cast { target, inner } => "("@ + type_text(target) + ")"@ + expr_text(*inner),
        CSharpExpression::MethodCall { receiver, method, type_args, args } => {
            expr_text(*receiver) + "."@ + method@ + (if type_args@.len() == 0 {
                Seq::empty()
            } else {
                "<"@ + types_text(type_args@) + ">"@
            }) + "("@ + exprs_text(args.args@) + ")"@
        },
        CSharpExpression::Ternary { cond, then, otherwise } => expr_text(*cond) + " ? "@ + expr_text(*then)
            + " : "@ + expr_text(*otherwise),
        CSharpExpression::Binary { op, left, right } => expr_text(*left) + " "@ + binary_op_text(op) + " "@
            + expr_text(*right),
        CSharpExpression::Lambda { body } => "() => "@ + expr_text(*body),
    }
}

/// The texts of `exprs`, joined by `, `.
pub open spec fn exprs_text(exprs: Seq<CSharpExpression>) -> Seq<char>
    decreases exprs,
{
    if exprs.len() == 0 {
        Seq::empty()
    } else if exprs.len() == 1 {
        expr_text(exprs[0])
    } else {
        exprs_text(exprs.drop_last()) + ", "@ + expr_text(exprs.last())
    }
}

fn types_to_string(types: &Vec<CSharpType>) -> (res: String)
    ensures
        res@ == types_text(types@),
{
    let mut res = String::new();
    let mut i: usize = 0;
    while i < types.len()
        invariant
            i <= types@.len(),
            res@ == types_text(types@.take(i as int)),
        decreases types.len() - i,
    {
        if i != 0 {
            res.append(", ");
        }
        let t = types[i].to_string();
        res.append(t.as_str());
        assert(types@.take(i + 1).drop_last() =~= types@.take(i as int));
        i = i + 1;
    }
    assert(types@.take(types@.len() as int) =~= types@);
    res
}

impl CSharpExpression {
    /// Spells the expression.
    pub fn to_string(&self) -> (res: String)
        ensures
            res@ == expr_text(*self),
        decreases self, 1nat,
    {
        match self {
            CSharpExpression::Literal(l) => l.to_string(),
            CSharpExpression::Identity(CSharpIdentity::Local(n)) => n.to_string(),
            CSharpExpression::Identity(CSharpIdentity::Param(n)) => n.to_string(),
            CSharpExpression::TypeRef(r) => r.to_string(),
            CSharpExpression::MemberAccess { receiver, name } => {
                let mut res = receiver.to_string();
                res.append(".");
                res.append(name.as_str());
                res
            },
            CSharpExpression::Cast { target, inner } => {
                let mut res = String::from_str("(");
                let t = target.to_string();
                res.append(t.as_str());
                res.append(")");
                let i = inner.to_string();
                res.append(i.as_str());
                res
            },
            CSharpExpression::MethodCall { receiver, method, type_args, args } => {
                let mut res = receiver.to_string();
                res.append(".");
                res.append(method.as_str());
                if type_args.len() != 0 {
                    res.append("<");
                    let t = types_to_string(type_args);
                    res.append(t.as_str());
                    res.append(">");
                }
                res.append("(");
                let a = exprs_to_string(&args.args);
                res.append(a.as_str());
                res.append(")");
                res
            },
            CSharpExpression::Ternary { cond, then, otherwise } => {
                let mut res = cond.to_string();
                res.append(" ? ");
                let t = then.to_string();
                res.append(t.as_str());
                res.append(" : ");
                let o = otherwise.to_string();
                res.append(o.as_str());
                res
            },
            CSharpExpression::Binary { op, left, right } => {
                let mut res = left.to_string();
                res.append(" ");
                let o = binary_op_string(*op);
                res.append(o.as_str());
                res.append(" ");
                let r = right.to_string();
                res.append(r.as_str());
                res
            },
            CSharpExpression::Lambda { body } => {
                let mut res = String::from_str("() => ");
                let b = body.to_string();
                res.append(b.as_str());
                res
            },
        }
    }
}

/// Spells `exprs` joined by `, `.
fn exprs_to_string(exprs: &Vec<CSharpExpression>) -> (res: String)
    ensures
        res@ == exprs_text(exprs@),
    decreases exprs@, 0nat,
{
    let mut res = String::new();
    let mut i: usize = 0;
    while i < exprs.len()
        invariant
            i <= exprs@.len(),
            res@ == exprs_text(exprs@.take(i as int)),
        decreases exprs.len() - i,
    {
        if i != 0 {
            res.append(", ");
        }
        proof {
            assert(decreases_to!(exprs@ => exprs@[i as int]));
        }
        let t = exprs[i].to_string();
        res.append(t.as_str());
        assert(exprs@.take(i + 1).drop_last() =~= exprs@.take(i as int));
        i = i + 1;
    }
    assert(exprs@.take(exprs@.len() as int) =~= exprs@);
    res
}

/// Two lists of expressions that agree element by element in their text.
pub open spec fn same_texts(a: Seq<CSharpExpression>, b: Seq<CSharpExpression>) -> bool {
    a.len() == b.len() && forall|i: int| 0 <= i < a.len() ==> expr_text(#[trigger] a[i]) == expr_text(b[i])
}

/// Lists whose elements have the same texts have the same joined text.
pub proof fn lemma_same_texts_joined(a: Seq<CSharpExpression>, b: Seq<CSharpExpression>)
    requires
        same_texts(a, b),
    ensures
        exprs_text(a) == exprs_text(b),
    decreases a.len(),
{
    if a.len() > 1 {
        lemma_same_texts_joined(a.drop_last(), b.drop_last());
        assert(expr_text(a[a.len() - 1]) == expr_text(b[b.len() - 1]));
    } else if a.len() == 1 {
        assert(expr_text(a[0]) == expr_text(b[0]));
    }
}

/// Whether `b` is built like `a`: the same node at every level, with the
/// same names, types and literals, and argument lists whose elements are
/// built alike.
pub open spec fn expr_like(a: CSharpExpression, b: CSharpExpression) -> bool
    decreases a,
{
    match a {
        CSharpExpression::Literal(l) => b == CSharpExpression::Literal(l),
        CSharpExpression::Identity(i) => b == CSharpExpression::Identity(i),
        CSharpExpression::TypeRef(r) => b == CSharpExpression::TypeRef(r),
        CSharpExpression::MemberAccess { receiver, name } => b matches CSharpExpression::MemberAccess { receiver: r2, name: n2 }
            && n2 == name && expr_like(*receiver, *r2),
        CSharpExpression::Cast { target, inner } => b matches CSharpExpression::Cast { target: t2, inner: i2 } && t2 == target
            && expr_like(*inner, *i2),
        CSharpExpression::MethodCall { receiver, method, type_args, args } => b matches CSharpExpression::MethodCall {
            receiver: r2,
            method: m2,
            type_args: ta2,
            args: a2,
        } && expr_like(*receiver, *r2) && m2 == method && ta2@ == type_args@ && exprs_like(args.args@, a2.args@),
        CSharpExpression::Ternary { cond, then, otherwise } => b matches CSharpExpression::Ternary { cond: c2, then: t2, otherwise: o2 }
            && expr_like(*cond, *c2) && expr_like(*then, *t2) && expr_like(*otherwise, *o2),
        CSharpExpression::Binary { op, left, right } => b matches CSharpExpression::Binary { op: o2, left: l2, right: r2 } && o2 == op
            && expr_like(*left, *l2) && expr_like(*right, *r2),
        CSharpExpression::Lambda { body } => b matches CSharpExpression::Lambda { body: b2 } && expr_like(*body, *b2),
    }
}

/// Whether two lists of expressions are built alike, element by element.
pub open spec fn exprs_like(a: Seq<CSharpExpression>, b: Seq<CSharpExpression>) -> bool
    decreases a,
{
    if a.len() == 0 {
        b.len() == 0
    } else {
        b.len() == a.len() && exprs_like(a.drop_last(), b.drop_last()) && expr_like(a.last(), b.last())
    }
}

/// Lists built alike have the same length and each element built alike.
pub proof fn lemma_exprs_like_elements(a: Seq<CSharpExpression>, b: Seq<CSharpExpression>)
    requires
        exprs_like(a, b),
    ensures
        a.len() == b.len(),
        forall|i: int| 0 <= i < a.len() ==> expr_like(#[trigger] a[i], b[i]),
    decreases a.len(),
{
    if a.len() > 0 {
        lemma_exprs_like_elements(a.drop_last(), b.drop_last());
        assert forall|i: int| 0 <= i < a.len() implies expr_like(#[trigger] a[i], b[i]) by {
            if i < a.len() - 1 {
                assert(a.drop_last()[i] == a[i]);
                assert(b.drop_last()[i] == b[i]);
            }
        }
    }
}

/// A copy is spelled like the value it copies.
impl Clone for CSharpExpression {
    fn clone(&self) -> (res: Self)
        ensures
            expr_text(res) == expr_text(*self),
            expr_like(*self, res),
        decreases self, 1nat,
    {
        match self {
            CSharpExpression::Literal(l) => CSharpExpression::Literal(l.clone()),
            CSharpExpression::Identity(i) => CSharpExpression::Identity(i.clone()),
            CSharpExpression::TypeRef(r) => CSharpExpression::TypeRef(r.clone()),
            CSharpExpression::MemberAccess { receiver, name } => CSharpExpression::MemberAccess {
                receiver: Box::new((**receiver).clone()),
                name: name.clone(),
            },
            CSharpExpression::Cast { target, inner } => CSharpExpression::Cast {
                target: target.clone(),
                inner: Box::new((**inner).clone()),
            },
            CSharpExpression::MethodCall { receiver, method, type_args, args } => {
                let r = (**receiver).clone();
                let m = method.clone();
                let t = clone_types(type_args);
                let a = clone_exprs(&args.args);
                proof {
                    lemma_same_texts_joined(a@, args.args@);
                }
                CSharpExpression::MethodCall { receiver: Box::new(r), method: m, type_args: t, args: CSharpArgumentList { args: a } }
            },
            CSharpExpression::Ternary { cond, then, otherwise } => CSharpExpression::Ternary {
                cond: Box::new((**cond).clone()),
                then: Box::new((**then).clone()),
                otherwise: Box::new((**otherwise).clone()),
            },
            CSharpExpression::Binary { op, left, right } => CSharpExpression::Binary {
                op: *op,
                left: Box::new((**left).clone()),
                right: Box::new((**right).clone()),
            },
            CSharpExpression::Lambda { body } => CSharpExpression::Lambda { body: Box::new((**body).clone()) },
        }
    }
}

/// A copy of every type, in order.
pub fn clone_types(types: &Vec<CSharpType>) -> (res: Vec<CSharpType>)
    ensures
        res@ == types@,
{
    let mut res: Vec<CSharpType> = Vec::new();
    let mut i: usize = 0;
    while i < types.len()
        invariant
            i <= types@.len(),
            res@ == types@.take(i as int),
        decreases types.len() - i,
    {
        res.push(types[i].clone());
        assert(res@ =~= types@.take(i + 1));
        i = i + 1;
    }
    assert(types@.take(types@.len() as int) =~= types@);
    res
}

/// A copy of every expression, in order.
pub fn clone_exprs(exprs: &Vec<CSharpExpression>) -> (res: Vec<CSharpExpression>)
    ensures
        same_texts(res@, exprs@),
        exprs_like(exprs@, res@),
    decreases exprs@, 0nat,
{
    let mut res: Vec<CSharpExpression> = Vec::new();
    let mut i: usize = 0;
    while i < exprs.len()
        invariant
            i <= exprs@.len(),
            same_texts(res@, exprs@.take(i as int)),
            exprs_like(exprs@.take(i as int), res@),
        decreases exprs.len() - i,
    {
        proof {
            assert(decreases_to!(exprs@ => exprs@[i as int]));
        }
        let c = exprs[i].clone();
        let ghost before = res@;
        res.push(c);
        assert(same_texts(res@, exprs@.take(i + 1)));
        assert(exprs@.take(i + 1).drop_last() =~= exprs@.take(i as int));
        assert(res@.drop_last() =~= before);
        i = i + 1;
    }
    assert(exprs@.take(exprs@.len() as int) =~= exprs@);
    res
}

impl CSharpArgumentList {
    /// No arguments.
    pub fn empty() -> (res: Self)
        ensures
            res.args@ == Seq::<CSharpExpression>::empty(),
    {
        CSharpArgumentList { args: Vec::new() }
    }

    /// The given arguments, in order.
    pub fn from_vec(args: Vec<CSharpExpression>) -> (res: Self)
        ensures
            res.args@ == args@,
    {
        CSharpArgumentList { args }
    }

    /// Appends one argument.
    pub fn push(&mut self, arg: CSharpExpression)
        ensures
            final(self).args@ == old(self).args@.push(arg),
    {
        self.args.push(arg);
    }

    /// The number of arguments.
    pub fn len(&self) -> (res: usize)
        ensures
            res == self.args@.len(),
    {
        self.args.len()
    }

    /// Spells the arguments, joined by `, `.
    pub fn to_string(&self) -> (res: String)
        ensures
            res@ == exprs_text(self.args@),
    {
        exprs_to_string(&self.args)
    }
}

impl Clone for CSharpArgumentList {
    fn clone(&self) -> (res: Self)
        ensures
            same_texts(res.args@, self.args@),
    {
        CSharpArgumentList { args: clone_exprs(&self.args) }
    }
}

/// One argument of an attribute.
pub enum CSharpAttributeArg {
    Positional(CSharpExpression),
}

/// An attribute such as `[MarshalAs(UnmanagedType.I1)]`.
pub struct CSharpAttribute {
    pub name: CSharpClassName,
    pub args: Vec<CSharpAttributeArg>,
}

/// The expressions of attribute arguments, in order.
pub open spec fn attribute_arg_exprs(args: Seq<CSharpAttributeArg>) -> Seq<CSharpExpression> {
    args.map_values(|a: CSharpAttributeArg| match a {
        CSharpAttributeArg::Positional(e) => e,
    })
}

/// The source text of an attribute.
pub open spec fn attribute_text(a: CSharpAttribute) -> Seq<char> {
    "["@ + a.name@ + (if a.args@.len() == 0 {
        Seq::empty()
    } else {
        "("@ + exprs_text(attribute_arg_exprs(a.args@)) + ")"@
    }) + "]"@
}

/// The texts of the attributes, each followed by a space.
pub open spec fn attributes_text(attrs: Seq<CSharpAttribute>) -> Seq<char>
    decreases attrs.len(),
{
    if attrs.len() == 0 {
        Seq::empty()
    } else {
        attributes_text(attrs.drop_last()) + attribute_text(attrs.last()) + " "@
    }
}

impl CSharpAttribute {
    /// Spells the attribute.
    pub fn to_string(&self) -> (res: String)
        ensures
            res@ == attribute_text(*self),
    {
        let mut res = String::from_str("[");
        res.append(self.name.as_str());
        if self.args.len() != 0 {
            res.append("(");
            let mut exprs: Vec<CSharpExpression> = Vec::new();
            let mut i: usize = 0;
            while i < self.args.len()
                invariant
                    i <= self.args@.len(),
                    same_texts(exprs@, attribute_arg_exprs(self.args@).take(i as int)),
                decreases self.args.len() - i,
            {
                match &self.args[i] {
                    CSharpAttributeArg::Positional(e) => {
                        exprs.push(e.clone());
                    },
                }
                assert(same_texts(exprs@, attribute_arg_exprs(self.args@).take(i + 1)));
                i = i + 1;
            }
            assert(attribute_arg_exprs(self.args@).take(self.args@.len() as int) =~= attribute_arg_exprs(self.args@));
            proof {
                lemma_same_texts_joined(exprs@, attribute_arg_exprs(self.args@));
            }
            let a = exprs_to_string(&exprs);
            res.append(a.as_str());
            res.append(")");
        }
        res.append("]");
        res
    }
}

impl Clone for CSharpAttribute {
    fn clone(&self) -> (res: Self)
        ensures
            attribute_text(res) == attribute_text(*self),
    {
        let mut args: Vec<CSharpAttributeArg> = Vec::new();
        let mut i: usize = 0;
        while i < self.args.len()
            invariant
                i <= self.args@.len(),
                args@.len() == i,
                forall|j: int| 0 <= j < i ==> expr_text(attribute_arg_exprs(args@)[j]) == expr_text(
                    #[trigger] attribute_arg_exprs(self.args@)[j],
                ),
            decreases self.args.len() - i,
        {
            let ghost before = args@;
            match &self.args[i] {
                CSharpAttributeArg::Positional(e) => {
                    let c = e.clone();
                    args.push(CSharpAttributeArg::Positional(c));
                },
            }
            assert forall|j: int| 0 <= j < i + 1 implies expr_text(attribute_arg_exprs(args@)[j]) == expr_text(
                #[trigger] attribute_arg_exprs(self.args@)[j],
            ) by {
                if j < i {
                    assert(args@[j] == before[j]);
                }
            }
            i = i + 1;
        }
        proof {
            lemma_same_texts_joined(attribute_arg_exprs(args@), attribute_arg_exprs(self.args@));
        }
        CSharpAttribute { name: self.name.clone(), args }
    }
}

/// How a parameter is passed.
#[derive(Clone, Copy, Debug, PartialEq, Eq, Structural)]
pub enum CSharpParamModifier {
    Out,
    Ref,
    In,
}

/// The source text of a modifier, with its trailing space.
pub open spec fn modifier_text(m: Option<CSharpParamModifier>) -> Seq<char> {
    match m {
        None => Seq::empty(),
        Some(CSharpParamModifier::Out) => "out "@,
        Some(CSharpParamModifier::Ref) => "ref "@,
        Some(CSharpParamModifier::In) => "in "@,
    }
}

/// One parameter of a method or delegate.
pub struct CSharpParameter {
    pub attributes: Vec<CSharpAttribute>,
    pub modifier: Option<CSharpParamModifier>,
    pub csharp_type: CSharpType,
    pub name: CSharpParamName,
}

/// The source text of a parameter: attributes, modifier, type and name.
pub open spec fn param_text(p: CSharpParameter) -> Seq<char> {
    attributes_text(p.attributes@) + modifier_text(p.modifier) + type_text(p.csharp_type) + " "@ + p.name@
}

impl CSharpParameter {
    /// A parameter with no attribute and no modifier.
    pub fn bare(csharp_type: CSharpType, name: CSharpParamName) -> (res: Self)
        ensures
            res.attributes@.len() == 0,
            res.modifier is None,
            res.csharp_type == csharp_type,
            res.name == name,
    {
        CSharpParameter { attributes: Vec::new(), modifier: None, csharp_type, name }
    }

    /// An `out` parameter with no attribute.
    pub fn out(csharp_type: CSharpType, name: CSharpParamName) -> (res: Self)
        ensures
            res.attributes@.len() == 0,
            res.modifier == Some(CSharpParamModifier::Out),
            res.csharp_type == csharp_type,
            res.name == name,
    {
        CSharpParameter { attributes: Vec::new(), modifier: Some(CSharpParamModifier::Out), csharp_type, name }
    }

    /// Spells the parameter.
    pub fn to_string(&self) -> (res: String)
        ensures
            res@ == param_text(*self),
    {
        let mut res = String::new();
        let mut i: usize = 0;
        while i < self.attributes.len()
            invariant
                i <= self.attributes@.len(),
                res@ == attributes_text(self.attributes@.take(i as int)),
            decreases self.attributes.len() - i,
        {
            let a = self.attributes[i].to_string();
            res.append(a.as_str());
            res.append(" ");
            assert(self.attributes@.take(i + 1).drop_last() =~= self.attributes@.take(i as int));
            i = i + 1;
        }
        assert(self.attributes@.take(self.attributes@.len() as int) =~= self.attributes@);
        match self.modifier {
            None => {},
            Some(CSharpParamModifier::Out) => res.append("out "),
            Some(CSharpParamModifier::Ref) => res.append("ref "),
            Some(CSharpParamModifier::In) => res.append("in "),
        }
        let t = self.csharp_type.to_string();
        res.append(t.as_str());
        res.append(" ");
        res.append(self.name.as_str());
        res
    }
}

/// Two attribute lists spelled alike.
pub proof fn lemma_same_attribute_texts(a: Seq<CSharpAttribute>, b: Seq<CSharpAttribute>)
    requires
        a.len() == b.len(),
        forall|i: int| 0 <= i < a.len() ==> attribute_text(#[trigger] a[i]) == attribute_text(b[i]),
    ensures
        attributes_text(a) == attributes_text(b),
    decreases a.len(),
{
    if a.len() > 0 {
        lemma_same_attribute_texts(a.drop_last(), b.drop_last());
        assert(attribute_text(a[a.len() - 1]) == attribute_text(b[b.len() - 1]));
    }
}

/// A copy is spelled like the value it copies.and has its type and name.
impl Clone for CSharpParameter {
    fn clone(&self) -> (res: Self)
        ensures
            param_text(res) == param_text(*self),
            res.csharp_type == self.csharp_type,
            res.name == self.name,
            res.modifier == self.modifier,
            res.attributes@.len() == self.attributes@.len(),
            attributes_text(res.attributes@) == attributes_text(self.attributes@),
    {
        let mut attributes: Vec<CSharpAttribute> = Vec::new();
        let mut i: usize = 0;
        while i < self.attributes.len()
            invariant
                i <= self.attributes@.len(),
                attributes@.len() == i,
                forall|j: int| 0 <= j < i ==> attribute_text(#[trigger] attributes@[j]) == attribute_text(self.attributes@[j]),
            decreases self.attributes.len() - i,
        {
            attributes.push(self.attributes[i].clone());
            i = i + 1;
        }
        proof {
            lemma_same_attribute_texts(attributes@, self.attributes@);
        }
        CSharpParameter {
            attributes,
            modifier: self.modifier,
            csharp_type: self.csharp_type.clone(),
            name: self.name.clone(),
        }
    }
}

/// The texts of the parameters, joined by `, `.
pub open spec fn params_text(params: Seq<CSharpParameter>) -> Seq<char>
    decreases params.len(),
{
    if params.len() == 0 {
        Seq::empty()
    } else if params.len() == 1 {
        param_text(params[0])
    } else {
        params_text(params.drop_last()) + ", "@ + param_text(params.last())
    }
}

/// The parameters of a method or delegate, in order.
pub struct CSharpParameterList {
    pub params: Vec<CSharpParameter>,
}

impl CSharpParameterList {
    /// No parameters.
    pub fn empty() -> (res: Self)
        ensures
            res.params@ == Seq::<CSharpParameter>::empty(),
    {
        CSharpParameterList { params: Vec::new() }
    }

    /// The given parameters, in order.
    pub fn from_vec(params: Vec<CSharpParameter>) -> (res: Self)
        ensures
            res.params@ == params@,
    {
        CSharpParameterList { params }
    }

    /// Appends one parameter.
    pub fn push(&mut self, param: CSharpParameter)
        ensures
            final(self).params@ == old(self).params@.push(param),
    {
        self.params.push(param);
    }

    /// Appends every parameter of `more`, in order.
    pub fn extend(&mut self, more: Vec<CSharpParameter>)
        ensures
            final(self).params@ == old(self).params@ + more@,
    {
        let mut more = more;
        self.params.append(&mut more);
    }

    /// The number of parameters.
    pub fn len(&self) -> (res: usize)
        ensures
            res == self.params@.len(),
    {
        self.params.len()
    }

    /// Spells the parameters, joined by `, `.
    pub fn to_string(&self) -> (res: String)
        ensures
            res@ == params_text(self.params@),
    {
        let mut res = String::new();
        let mut i: usize = 0;
        while i < self.params.len()
            invariant
                i <= self.params@.len(),
                res@ == params_text(self.params@.take(i as int)),
            decreases self.params.len() - i,
        {
            if i != 0 {
                res.append(", ");
            }
            let t = self.params[i].to_string();
            res.append(t.as_str());
            assert(self.params@.take(i + 1).drop_last() =~= self.params@.take(i as int));
            i = i + 1;
        }
        assert(self.params@.take(self.params@.len() as int) =~= self.params@);
        res
    }
}

/// Two parameter lists spelled alike.
pub proof fn lemma_same_param_texts(a: Seq<CSharpParameter>, b: Seq<CSharpParameter>)
    requires
        a.len() == b.len(),
        forall|i: int| 0 <= i < a.len() ==> param_text(#[trigger] a[i]) == param_text(b[i]),
    ensures
        params_text(a) == params_text(b),
    decreases a.len(),
{
    if a.len() > 1 {
        lemma_same_param_texts(a.drop_last(), b.drop_last());
        assert(param_text(a[a.len() - 1]) == param_text(b[b.len() - 1]));
    } else if a.len() == 1 {
        assert(param_text(a[0]) == param_text(b[0]));
    }
}

impl Clone for CSharpParameterList {
    fn clone(&self) -> (res: Self)
        ensures
            res.params@.len() == self.params@.len(),
            forall|i: int| 0 <= i < self.params@.len() ==> param_text(#[trigger] res.params@[i]) == param_text(self.params@[i]),
            params_text(res.params@) == params_text(self.params@),
    {
        let mut params: Vec<CSharpParameter> = Vec::new();
        let mut i: usize = 0;
        while i < self.params.len()
            invariant
                i <= self.params@.len(),
                params@.len() == i,
                forall|j: int| 0 <= j < i ==> param_text(#[trigger] params@[j]) == param_text(self.params@[j]),
            decreases self.params.len() - i,
        {
            params.push(self.params[i].clone());
            i = i + 1;
        }
        proof {
            lemma_same_param_texts(params@, self.params@);
        }
        CSharpParameterList { params }
    }
}

/// A statement of a generated method body.
pub enum CSharpStatement {
    Expression(CSharpExpression),
}

/// The source text of a statement.
pub open spec fn statement_text(s: CSharpStatement) -> Seq<char> {
    match s {
        CSharpStatement::Expression(e) => expr_text(e) + ";"@,
    }
}

impl CSharpStatement {
    /// Spells the statement.
    pub fn to_string(&self) -> (res: String)
        ensures
            res@ == statement_text(*self),
    {
        match self {
            CSharpStatement::Expression(e) => {
                let mut res = e.to_string();
                res.append(";");
                res
            },
        }
    }
}

impl Clone for CSharpStatement {
    fn clone(&self) -> (res: Self)
        ensures
            statement_text(res) == statement_text(*self),
    {
        match self {
            CSharpStatement::Expression(e) => CSharpStatement::Expression(e.clone()),
        }
    }
}

/// The joined text of one expression is its own text.
pub proof fn lemma_exprs_text_one(a: CSharpExpression)
    ensures
        exprs_text(seq![a]) == expr_text(a),
{
}

/// The joined text of two expressions puts `, ` between them.
pub proof fn lemma_exprs_text_two(a: CSharpExpression, b: CSharpExpression)
    ensures
        exprs_text(seq![a, b]) == expr_text(a) + ", "@ + expr_text(b),
{
    assert(seq![a, b].drop_last() =~= seq![a]);
    lemma_exprs_text_one(a);
    assert(seq![a, b].last() == b);
    assert(exprs_text(seq![a, b]) == exprs_text(seq![a, b].drop_last()) + ", "@ + expr_text(seq![a, b].last()));
}

/// A local variable used as an expression.
pub fn local_named(name: &str) -> (res: CSharpExpression)
    ensures
        expr_text(res) == name@,
{
    CSharpExpression::Identity(CSharpIdentity::Local(CSharpLocalName::new(name)))
}

/// A type name used as an expression, to reach its static members.
pub fn type_named(name: &str) -> (res: CSharpExpression)
    ensures
        expr_text(res) == name@,
{
    CSharpExpression::TypeRef(CSharpTypeReference::Plain(CSharpClassName::new(name)))
}

/// `receiver.method(args)` with no type arguments.
pub fn method_call(receiver: CSharpExpression, method: &str, args: Vec<CSharpExpression>) -> (res: CSharpExpression)
    ensures
        is_method_call(res, receiver, method@, args@),
        expr_text(res) == expr_text(receiver) + "."@ + method@ + "("@ + exprs_text(args@) + ")"@,
{
    let res = CSharpExpression::MethodCall {
        receiver: Box::new(receiver),
        method: CSharpMethodName::new(method),
        type_args: Vec::new(),
        args: CSharpArgumentList { args },
    };
    assert(expr_text(res) == expr_text(receiver) + "."@ + method@ + Seq::<char>::empty() + "("@ + exprs_text(args@) + ")"@);
    assert(expr_text(receiver) + "."@ + method@ + Seq::<char>::empty() =~= expr_text(receiver) + "."@ + method@);
    res
}

/// Whether `e` calls `method` on `receiver` with `args` and no type
/// arguments.
pub open spec fn is_method_call(e: CSharpExpression, receiver: CSharpExpression, method: Seq<char>, args: Seq<CSharpExpression>) -> bool {
    e matches CSharpExpression::MethodCall { receiver: r, method: m, type_args, args: a } && *r == receiver && m@ == method
        && type_args@.len() == 0 && a.args@ == args
}

/// `receiver.method(arg)`.
pub fn method_call1(receiver: CSharpExpression, method: &str, arg: CSharpExpression) -> (res: CSharpExpression)
    ensures
        is_method_call(res, receiver, method@, seq![arg]),
        expr_text(res) == expr_text(receiver) + "."@ + method@ + "("@ + expr_text(arg) + ")"@,
{
    let mut args: Vec<CSharpExpression> = Vec::new();
    args.push(arg);
    proof {
        lemma_exprs_text_one(arg);
        assert(args@ =~= seq![arg]);
    }
    method_call(receiver, method, args)
}

/// `receiver.method(a, b)`.
pub fn method_call2(receiver: CSharpExpression, method: &str, a: CSharpExpression, b: CSharpExpression) -> (res: CSharpExpression)
    ensures
        expr_text(res) == expr_text(receiver) + "."@ + method@ + "("@ + expr_text(a) + ", "@ + expr_text(b) + ")"@,
{
    let mut args: Vec<CSharpExpression> = Vec::new();
    args.push(a);
    args.push(b);
    proof {
        lemma_exprs_text_two(a, b);
        assert(args@ =~= seq![a, b]);
    }
    let res = method_call(receiver, method, args);
    assert(expr_text(res) =~= expr_text(receiver) + "."@ + method@ + "("@ + expr_text(a) + ", "@ + expr_text(b) + ")"@);
    res
}

/// `() => body`.
pub fn lambda(body: CSharpExpression) -> (res: CSharpExpression)
    ensures
        expr_text(res) == "() => "@ + expr_text(body),
{
    CSharpExpression::Lambda { body: Box::new(body) }
}

} // verus!
