//! Kotlin spellings of contract types, integer literals and doc comments.

use vstd::prelude::*;
use vstd::string::*;

use crate::defs::ReturnDef;
use crate::naming::{pascal_case, str_eq, to_pascal_case};
use crate::text::{decimal_int, i128_to_decimal, joined, push_char, text_lines, trimmed};
use crate::types::{PrimitiveType, TypeExpr};

verus! {

/// The Kotlin type of a primitive.
pub open spec fn kt_primitive(p: PrimitiveType) -> Seq<char> {
    match p {
        PrimitiveType::Bool => "Boolean"@,
        PrimitiveType::I8 => "Byte"@,
        PrimitiveType::U8 => "UByte"@,
        PrimitiveType::I16 => "Short"@,
        PrimitiveType::U16 => "UShort"@,
        PrimitiveType::I32 => "Int"@,
        PrimitiveType::U32 => "UInt"@,
        PrimitiveType::I64 | PrimitiveType::ISize => "Long"@,
        PrimitiveType::U64 | PrimitiveType::USize => "ULong"@,
        PrimitiveType::F32 => "Float"@,
        PrimitiveType::F64 => "Double"@,
    }
}

/// The Kotlin type of a primitive.
pub fn primitive_type_name(primitive: PrimitiveType) -> (res: String)
    ensures
        res@ == kt_primitive(primitive),
{
    match primitive {
        PrimitiveType::Bool => String::from_str("Boolean"),
        PrimitiveType::I8 => String::from_str("Byte"),
        PrimitiveType::U8 => String::from_str("UByte"),
        PrimitiveType::I16 => String::from_str("Short"),
        PrimitiveType::U16 => String::from_str("UShort"),
        PrimitiveType::I32 => String::from_str("Int"),
        PrimitiveType::U32 => String::from_str("UInt"),
        PrimitiveType::I64 | PrimitiveType::ISize => String::from_str("Long"),
        PrimitiveType::U64 | PrimitiveType::USize => String::from_str("ULong"),
        PrimitiveType::F32 => String::from_str("Float"),
        PrimitiveType::F64 => String::from_str("Double"),
    }
}

/// The signed Kotlin type that holds the values of an enum backed by a
/// primitive: an unsigned tag is held by the signed type of its width.
pub open spec fn kt_enum_value_type(p: PrimitiveType) -> Seq<char> {
    match p {
        PrimitiveType::I8 | PrimitiveType::U8 => "Byte"@,
        PrimitiveType::I16 | PrimitiveType::U16 => "Short"@,
        PrimitiveType::I32 | PrimitiveType::U32 => "Int"@,
        PrimitiveType::I64 | PrimitiveType::U64 | PrimitiveType::ISize | PrimitiveType::USize => "Long"@,
        _ => kt_primitive(p),
    }
}

/// The Kotlin type that holds the values of an enum backed by `primitive`.
pub fn enum_value_type(primitive: PrimitiveType) -> (res: String)
    ensures
        res@ == kt_enum_value_type(primitive),
{
    match primitive {
        PrimitiveType::I8 | PrimitiveType::U8 => String::from_str("Byte"),
        PrimitiveType::I16 | PrimitiveType::U16 => String::from_str("Short"),
        PrimitiveType::I32 | PrimitiveType::U32 => String::from_str("Int"),
        PrimitiveType::I64 | PrimitiveType::U64 | PrimitiveType::ISize | PrimitiveType::USize => String::from_str("Long"),
        _ => primitive_type_name(primitive),
    }
}

/// The Kotlin spelling of `value` as a `kotlin_type` literal. A value that
/// does not fit the signed type is written as a wider literal and
/// converted, so that an unsigned discriminant keeps its bits.
pub open spec fn kt_integer_literal(value: int, kotlin_type: Seq<char>) -> Seq<char> {
    if kotlin_type == "Byte"@ {
        "("@ + decimal_int(value) + "L).toByte()"@
    } else if kotlin_type == "Short"@ {
        "("@ + decimal_int(value) + "L).toShort()"@
    } else if kotlin_type == "Int"@ {
        if i32::MIN <= value && value <= i32::MAX {
            decimal_int(value)
        } else {
            "("@ + decimal_int(value) + "L).toInt()"@
        }
    } else if kotlin_type == "Long"@ {
        if i64::MIN <= value && value <= i64::MAX {
            decimal_int(value) + "L"@
        } else {
            "("@ + decimal_int(value) + "uL).toLong()"@
        }
    } else {
        decimal_int(value)
    }
}

/// Spells `value` as a literal of `kotlin_type`; see [`kt_integer_literal`].
pub fn kotlin_integer_literal(value: i128, kotlin_type: &str) -> (res: String)
    ensures
        res@ == kt_integer_literal(value as int, kotlin_type@),
{
    let digits = i128_to_decimal(value);
    if str_eq(kotlin_type, "Byte") {
        let mut res = String::from_str("(");
        res.append(digits.as_str());
        res.append("L).toByte()");
        res
    } else if str_eq(kotlin_type, "Short") {
        let mut res = String::from_str("(");
        res.append(digits.as_str());
        res.append("L).toShort()");
        res
    } else if str_eq(kotlin_type, "Int") {
        if i32::MIN as i128 <= value && value <= i32::MAX as i128 {
            digits
        } else {
            let mut res = String::from_str("(");
            res.append(digits.as_str());
            res.append("L).toInt()");
            res
        }
    } else if str_eq(kotlin_type, "Long") {
        if i64::MIN as i128 <= value && value <= i64::MAX as i128 {
            let mut res = digits;
            res.append("L");
            res
        } else {
            let mut res = String::from_str("(");
            res.append(digits.as_str());
            res.append("uL).toLong()");
            res
        }
    } else {
        digits
    }
}

/// The literal of an enum discriminant backed by `primitive`.
pub fn enum_literal(value: i128, primitive: PrimitiveType) -> (res: String)
    ensures
        res@ == kt_integer_literal(value as int, kt_enum_value_type(primitive)),
{
    let value_type = enum_value_type(primitive);
    kotlin_integer_literal(value, value_type.as_str())
}

/// The Kotlin type of a contract type in the common surface.
pub open spec fn kt_type(ty: TypeExpr) -> Seq<char>
    decreases ty, 0nat,
{
    match ty {
        TypeExpr::Void => "Unit"@,
        TypeExpr::Primitive(p) => kt_primitive(p),
        TypeExpr::String => "String"@,
        TypeExpr::Bytes => "ByteArray"@,
        TypeExpr::Vec(inner) => kt_vec_type(*inner),
        TypeExpr::Option(inner) => kt_type(*inner) + "?"@,
        TypeExpr::Record(id) => pascal_case(id@),
        TypeExpr::Enum(id) => pascal_case(id@),
        TypeExpr::Custom(id) => pascal_case(id@),
        TypeExpr::Builtin(id) => pascal_case(id@),
        TypeExpr::Handle(id) => pascal_case(id@),
        TypeExpr::Callback(id) => pascal_case(id@),
        TypeExpr::Result { ok, err } => "BoltFFIResult<"@ + kt_type(*ok) + ", "@ + kt_type(*err) + ">"@,
    }
}

/// The Kotlin type of a list of `inner`: a primitive array where Kotlin
/// has one, `List<T>` otherwise.
pub open spec fn kt_vec_type(inner: TypeExpr) -> Seq<char>
    decreases inner, 1nat,
{
    match inner {
        TypeExpr::Primitive(p) => match p {
            PrimitiveType::I32 | PrimitiveType::U32 => "IntArray"@,
            PrimitiveType::I16 | PrimitiveType::U16 => "ShortArray"@,
            PrimitiveType::I64 | PrimitiveType::U64 | PrimitiveType::ISize | PrimitiveType::USize => "LongArray"@,
            PrimitiveType::F32 => "FloatArray"@,
            PrimitiveType::F64 => "DoubleArray"@,
            PrimitiveType::U8 | PrimitiveType::I8 => "ByteArray"@,
            PrimitiveType::Bool => "BooleanArray"@,
        },
        _ => "List<"@ + kt_type(inner) + ">"@,
    }
}

/// The Kotlin type of a contract type; see [`kt_type`].
pub fn common_type_name(ty: &TypeExpr) -> (res: String)
    ensures
        res@ == kt_type(*ty),
    decreases ty, 0nat,
{
    match ty {
        TypeExpr::Void => String::from_str("Unit"),
        TypeExpr::Primitive(p) => primitive_type_name(*p),
        TypeExpr::String => String::from_str("String"),
        TypeExpr::Bytes => String::from_str("ByteArray"),
        TypeExpr::Vec(inner) => vec_type_name(inner),
        TypeExpr::Option(inner) => {
            let mut res = common_type_name(inner);
            res.append("?");
            res
        },
        TypeExpr::Record(id) => to_pascal_case(id.as_str()),
        TypeExpr::Enum(id) => to_pascal_case(id.as_str()),
        TypeExpr::Custom(id) => to_pascal_case(id.as_str()),
        TypeExpr::Builtin(id) => to_pascal_case(id.as_str()),
        TypeExpr::Handle(id) => to_pascal_case(id.as_str()),
        TypeExpr::Callback(id) => to_pascal_case(id.as_str()),
        TypeExpr::Result { ok, err } => {
            let mut res = String::from_str("BoltFFIResult<");
            let o = common_type_name(ok);
            res.append(o.as_str());
            res.append(", ");
            let e = common_type_name(err);
            res.append(e.as_str());
            res.append(">");
            res
        },
    }
}

/// The Kotlin type of a list; see [`kt_vec_type`].
pub fn vec_type_name(inner: &TypeExpr) -> (res: String)
    ensures
        res@ == kt_vec_type(*inner),
    decreases inner, 1nat,
{
    match inner {
        TypeExpr::Primitive(p) => match p {
            PrimitiveType::I32 | PrimitiveType::U32 => String::from_str("IntArray"),
            PrimitiveType::I16 | PrimitiveType::U16 => String::from_str("ShortArray"),
            PrimitiveType::I64 | PrimitiveType::U64 | PrimitiveType::ISize | PrimitiveType::USize => String::from_str("LongArray"),
            PrimitiveType::F32 => String::from_str("FloatArray"),
            PrimitiveType::F64 => String::from_str("DoubleArray"),
            PrimitiveType::U8 | PrimitiveType::I8 => String::from_str("ByteArray"),
            PrimitiveType::Bool => String::from_str("BooleanArray"),
        },
        _ => {
            let mut res = String::from_str("List<");
            let t = common_type_name(inner);
            res.append(t.as_str());
            res.append(">");
            res
        },
    }
}

/// The return type a function's signature declares, if any: the value, or
/// the `Ok` type of a result.
pub open spec fn kt_return_type(r: ReturnDef) -> Option<Seq<char>> {
    match r {
        ReturnDef::Void => None,
        ReturnDef::Value(ty) => Some(kt_type(ty)),
        ReturnDef::Result { ok, .. } => Some(kt_type(ok)),
    }
}

/// The return type a function's signature declares; see
/// [`kt_return_type`].
pub fn return_type_name(returns_def: &ReturnDef) -> (res: Option<String>)
    ensures
        res is Some <==> kt_return_type(*returns_def) is Some,
        res matches Some(s) ==> s@ == kt_return_type(*returns_def)->0,
{
    match returns_def {
        ReturnDef::Void => None,
        ReturnDef::Value(ty) => Some(common_type_name(ty)),
        ReturnDef::Result { ok, .. } => Some(common_type_name(ok)),
    }
}

/// The lines of a doc comment, each as ` * <line>` and a newline.
pub open spec fn kdoc_lines(ls: Seq<Seq<char>>) -> Seq<char>
    decreases ls.len(),
{
    if ls.len() == 0 {
        Seq::empty()
    } else {
        kdoc_lines(ls.drop_last()) + " * "@ + ls.last() + "\n"@
    }
}

/// The KDoc comment of a doc string, or nothing when there is none.
pub open spec fn kdoc_text(doc: Option<Seq<char>>) -> Seq<char> {
    match doc {
        None => Seq::empty(),
        Some(text) => "/**\n"@ + kdoc_lines(text_lines(text)) + " */\n"@,
    }
}

/// The view of an optional string.
pub open spec fn opt_view(o: Option<String>) -> Option<Seq<char>> {
    match o {
        None => None,
        Some(s) => Some(s@),
    }
}

/// The KDoc comment of a doc string; see [`kdoc_text`].
pub fn kdoc_block(doc: &Option<String>) -> (res: String)
    ensures
        res@ == kdoc_text(opt_view(*doc)),
{
    match doc {
        None => String::new(),
        Some(text) => {
            let ls = crate::text::lines(text.as_str());
            let ghost views = ls@.map_values(|l: String| l@);
            let mut res = String::from_str("/**\n");
            let mut i: usize = 0;
            while i < ls.len()
                invariant
                    i <= ls@.len(),
                    views == ls@.map_values(|l: String| l@),
                    res@ == "/**\n"@ + kdoc_lines(views.take(i as int)),
                decreases ls.len() - i,
            {
                res.append(" * ");
                res.append(ls[i].as_str());
                res.append("\n");
                assert(views.take(i + 1).drop_last() =~= views.take(i as int));
                i = i + 1;
            }
            assert(views.take(ls@.len() as int) =~= views);
            res.append(" */\n");
            res
        },
    }
}

/// The sections that are kept, each trimmed: those not empty once trimmed.
pub open spec fn kept_sections(sections: Seq<Seq<char>>) -> Seq<Seq<char>>
    decreases sections.len(),
{
    if sections.len() == 0 {
        Seq::empty()
    } else {
        let rest = kept_sections(sections.drop_last());
        let t = trimmed(sections.last());
        if t.len() == 0 {
            rest
        } else {
            rest.push(t)
        }
    }
}

/// The sections of a Kotlin file: each trimmed, the empty ones dropped, the
/// rest separated by a blank line, with a final newline.
pub fn join_kotlin_sections(sections: Vec<String>) -> (res: String)
    ensures
        res@ == joined(kept_sections(sections@.map_values(|s: String| s@)), "\n\n"@) + "\n"@,
{
    let ghost views = sections@.map_values(|s: String| s@);
    let mut kept: Vec<String> = Vec::new();
    let mut i: usize = 0;
    while i < sections.len()
        invariant
            i <= sections@.len(),
            views == sections@.map_values(|s: String| s@),
            kept@.map_values(|s: String| s@) == kept_sections(views.take(i as int)),
        decreases sections.len() - i,
    {
        let t = crate::text::trim(sections[i].as_str());
        assert(views.take(i + 1).drop_last() =~= views.take(i as int));
        if t.as_str().unicode_len() != 0 {
            let ghost before = kept@.map_values(|s: String| s@);
            let ghost v = t@;
            kept.push(t);
            assert(kept@.map_values(|s: String| s@) =~= before.push(v));
        }
        i = i + 1;
    }
    assert(views.take(sections@.len() as int) =~= views);
    let mut out = crate::text::join_strings(&kept, "\n\n");
    push_char(&mut out, '\n');
    proof {
        reveal_strlit("\n");
        assert(out@ =~= joined(kept_sections(views), "\n\n"@) + "\n"@);
    }
    out
}

/// The signed primitive of the same width; signed primitives, `bool` and
/// floats are their own.
pub open spec fn signed_of_same_width(p: PrimitiveType) -> PrimitiveType {
    match p {
        PrimitiveType::U8 => PrimitiveType::I8,
        PrimitiveType::U16 => PrimitiveType::I16,
        PrimitiveType::U32 => PrimitiveType::I32,
        PrimitiveType::U64 | PrimitiveType::USize => PrimitiveType::I64,
        _ => p,
    }
}

/// A list of a primitive is Kotlin's primitive array of the element's own
/// Kotlin type (`FloatArray` for `f32`, `DoubleArray` for `f64`), taken
/// from the signed type of the same width for an unsigned element, which
/// has no array of its own (`u32` as `IntArray`).
pub proof fn lemma_vec_of_primitive_is_its_array(p: PrimitiveType)
    ensures
        kt_vec_type(TypeExpr::Primitive(p)) == kt_primitive(signed_of_same_width(p)) + "Array"@,
{
    reveal_strlit("Array");
    reveal_strlit("Boolean");
    reveal_strlit("BooleanArray");
    reveal_strlit("Byte");
    reveal_strlit("ByteArray");
    reveal_strlit("Short");
    reveal_strlit("ShortArray");
    reveal_strlit("Int");
    reveal_strlit("IntArray");
    reveal_strlit("Long");
    reveal_strlit("LongArray");
    reveal_strlit("Float");
    reveal_strlit("FloatArray");
    reveal_strlit("Double");
    reveal_strlit("DoubleArray");
    let lhs = kt_vec_type(TypeExpr::Primitive(p));
    let rhs = kt_primitive(signed_of_same_width(p)) + "Array"@;
    assert(lhs =~= rhs);
}

} // verus!
