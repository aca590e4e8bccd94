//! Kotlin source for the enums and functions of the common surface and for
//! the JVM actuals of the functions.

use vstd::prelude::*;
use vstd::string::*;

use crate::defs::{CStyleVariant, EnumDef, EnumRepr, ExecutionKind, FfiContract, FunctionDef, ParamDef, ReturnDef, TypeCatalog};
use crate::kmp_names::{
    common_type_name, enum_literal, enum_value_type, kdoc_block, kdoc_text, kt_enum_value_type, kt_integer_literal, kt_return_type,
    kt_type, opt_view, return_type_name,
};
use crate::kmp_render::{jvm_text, return_body_text, return_walks_end};
use crate::custom_chains::{walk_fuel, walks};
use crate::naming::{camel_case, pascal_case, screaming_case, to_camel_case, to_pascal_case, to_screaming_case};
use crate::text::{join_strings, joined};
use crate::kmp_emit::KMPEmitter;
use crate::types::PrimitiveType;

verus! {

/// `NAME(<literal>)` for each variant of a C-style enum backed by `tag`.
pub open spec fn enum_entries(variants: Seq<CStyleVariant>, tag: PrimitiveType) -> Seq<Seq<char>> {
    variants.map_values(
        |v: CStyleVariant| screaming_case(v.name@) + "("@ + kt_integer_literal(v.discriminant as int, kt_enum_value_type(tag)) + ")"@,
    )
}

/// A C-style enum of the common surface: an `enum class` over its value
/// type, its entries, and a `fromValue` lookup that throws on an unknown
/// value, after its doc comment.
pub open spec fn common_enum_text(e: EnumDef) -> Seq<char> {
    match e.repr {
        EnumRepr::CStyle { tag_type, variants } => {
            let vt = kt_enum_value_type(tag_type);
            let c = pascal_case(e.id@);
            kdoc_text(opt_view(e.doc)) + "enum class "@ + c + "(val value: "@ + vt + ") {\n    "@ + joined(
                enum_entries(variants@, tag_type),
                ",\n    "@,
            ) + ";\n\n    companion object {\n        fun fromValue(value: "@ + vt + "): "@ + c
                + " = entries.firstOrNull { it.value == value } ?: throw IllegalArgumentException(\"Unknown "@ + c
                + " value: $value\")\n    }\n}"@
        },
        EnumRepr::Data { .. } => Seq::empty(),
    }
}

/// `<name>: <Type>` for each parameter.
pub open spec fn common_params(params: Seq<ParamDef>) -> Seq<Seq<char>> {
    params.map_values(|p: ParamDef| camel_case(p.name@) + ": "@ + kt_type(p.type_expr))
}

/// `suspend ` for an async function, nothing otherwise.
pub open spec fn suspend_text(f: FunctionDef) -> Seq<char> {
    if f.execution_kind == ExecutionKind::Async {
        "suspend "@
    } else {
        Seq::empty()
    }
}

/// `: <Type>` for a function that returns a value, nothing otherwise.
pub open spec fn return_suffix(r: ReturnDef) -> Seq<char> {
    match kt_return_type(r) {
        Some(t) => ": "@ + t,
        None => Seq::empty(),
    }
}

/// The `expect` declaration of a function, after its doc comment.
pub open spec fn common_function_text(f: FunctionDef) -> Seq<char> {
    kdoc_text(opt_view(f.doc)) + "expect "@ + suspend_text(f) + "fun "@ + camel_case(f.id@) + "("@ + joined(common_params(f.params@), ", "@)
        + ")"@ + return_suffix(f.returns)
}

fn function_head(function: &FunctionDef, keyword: &str) -> (res: String)
    ensures
        res@ == kdoc_text(opt_view(function.doc)) + keyword@ + suspend_text(*function) + "fun "@ + camel_case(function.id@) + "("@ + joined(
            common_params(function.params@),
            ", "@,
        ) + ")"@ + return_suffix(function.returns),
{
    let mut res = kdoc_block(&function.doc);
    res.append(keyword);
    if function.is_async() {
        res.append("suspend ");
    }
    res.append("fun ");
    let name = to_camel_case(function.id.as_str());
    res.append(name.as_str());
    res.append("(");
    let params = KMPEmitter::render_common_function_params(function);
    res.append(params.as_str());
    res.append(")");
    let return_type = return_type_name(&function.returns);
    match return_type {
        Some(t) => {
            res.append(": ");
            res.append(t.as_str());
        },
        None => {},
    }
    res
}

/// Every parameter's custom walk ends.
pub open spec fn params_walk_end(cat: TypeCatalog, params: Seq<ParamDef>) -> bool {
    forall|j: int| 0 <= j < params.len() ==> walks(cat, #[trigger] params[j].type_expr)
}

/// The JVM value of each parameter, in order.
pub open spec fn jvm_call_args(cat: TypeCatalog, params: Seq<ParamDef>, pkg: Seq<char>) -> Seq<Seq<char>> {
    params.map_values(|p: ParamDef| jvm_text(cat, p.type_expr, camel_case(p.name@), pkg, walk_fuel(cat, p.type_expr)))
}

/// The call of the internal JVM function with the converted arguments.
pub open spec fn delegated_call(cat: TypeCatalog, f: FunctionDef, pkg: Seq<char>) -> Seq<char> {
    pkg + "."@ + camel_case(f.id@) + "("@ + joined(jvm_call_args(cat, f.params@, pkg), ", "@) + ")"@
}

/// The JVM `actual` of a function: the common signature, delegating to the
/// internal JVM function and converting the result back.
pub open spec fn jvm_function_actual_text(cat: TypeCatalog, f: FunctionDef, pkg: Seq<char>) -> Seq<char> {
    kdoc_text(opt_view(f.doc)) + "actual "@ + suspend_text(f) + "fun "@ + camel_case(f.id@) + "("@ + joined(common_params(f.params@), ", "@)
        + ")"@ + return_suffix(f.returns) + " = "@ + return_body_text(cat, f.returns, delegated_call(cat, f, pkg))
}

impl KMPEmitter {
    /// Declares a C-style enum of the common surface; see [`common_enum_text`].
    pub fn render_common_enum(enumeration: &EnumDef) -> (res: String)
        requires
            enumeration.repr is CStyle,
        ensures
            res@ == common_enum_text(*enumeration),
    {
        let (tag_type, variants) = match &enumeration.repr {
            EnumRepr::CStyle { tag_type, variants } => (*tag_type, variants),
            EnumRepr::Data { .. } => {
                assert(false);
                return String::new();
            },
        };
        let value_type = enum_value_type(tag_type);
        let mut entries: Vec<String> = Vec::new();
        let mut i: usize = 0;
        while i < variants.len()
            invariant
                i <= variants@.len(),
                entries@.map_values(|p: String| p@) == enum_entries(variants@, tag_type).take(i as int),
            decreases variants.len() - i,
        {
            let variant = &variants[i];
            let mut entry = to_screaming_case(variant.name.as_str());
            entry.append("(");
            let literal = enum_literal(variant.discriminant, tag_type);
            entry.append(literal.as_str());
            entry.append(")");
            let ghost before = entries@.map_values(|p: String| p@);
            let ghost v = entry@;
            entries.push(entry);
            assert(entries@.map_values(|p: String| p@) =~= before.push(v));
            assert(enum_entries(variants@, tag_type).take(i + 1) =~= enum_entries(variants@, tag_type).take(i as int).push(v));
            i = i + 1;
        }
        assert(enum_entries(variants@, tag_type).take(variants@.len() as int) =~= enum_entries(variants@, tag_type));
        let class_name = to_pascal_case(enumeration.id.as_str());
        let mut res = kdoc_block(&enumeration.doc);
        res.append("enum class ");
        res.append(class_name.as_str());
        res.append("(val value: ");
        res.append(value_type.as_str());
        res.append(") {\n    ");
        let joined_entries = join_strings(&entries, ",\n    ");
        res.append(joined_entries.as_str());
        res.append(";\n\n    companion object {\n        fun fromValue(value: ");
        res.append(value_type.as_str());
        res.append("): ");
        res.append(class_name.as_str());
        res.append(" = entries.firstOrNull { it.value == value } ?: throw IllegalArgumentException(\"Unknown ");
        res.append(class_name.as_str());
        res.append(" value: $value\")\n    }\n}");
        res
    }

    /// The parameter list of a function on the common surface.
    pub fn render_common_function_params(function: &FunctionDef) -> (res: String)
        ensures
            res@ == joined(common_params(function.params@), ", "@),
    {
        let mut parts: Vec<String> = Vec::new();
        let mut i: usize = 0;
        while i < function.params.len()
            invariant
                i <= function.params@.len(),
                parts@.map_values(|p: String| p@) == common_params(function.params@).take(i as int),
            decreases function.params.len() - i,
        {
            let param = &function.params[i];
            let mut part = to_camel_case(param.name.as_str());
            part.append(": ");
            let t = common_type_name(&param.type_expr);
            part.append(t.as_str());
            let ghost before = parts@.map_values(|p: String| p@);
            let ghost v = part@;
            parts.push(part);
            assert(parts@.map_values(|p: String| p@) =~= before.push(v));
            assert(common_params(function.params@).take(i + 1) =~= common_params(function.params@).take(i as int).push(v));
            i = i + 1;
        }
        assert(common_params(function.params@).take(function.params@.len() as int) =~= common_params(function.params@));
        join_strings(&parts, ", ")
    }

    /// Declares a function of the common surface; see [`common_function_text`].
    pub fn render_common_function(function: &FunctionDef) -> (res: String)
        ensures
            res@ == common_function_text(*function),
    {
        function_head(function, "expect ")
    }

    /// Defines the JVM actual of a function; see [`jvm_function_actual_text`].
    pub fn render_kotlin_jvm_function_actual(function: &FunctionDef, contract: &FfiContract, internal_package: &str) -> (res: String)
        requires
            params_walk_end(contract.catalog, function.params@),
            return_walks_end(contract.catalog, function.returns),
        ensures
            res@ == jvm_function_actual_text(contract.catalog, *function, internal_package@),
    {
        let ghost cat = contract.catalog;
        let mut args: Vec<String> = Vec::new();
        let mut i: usize = 0;
        while i < function.params.len()
            invariant
                cat == contract.catalog,
                params_walk_end(cat, function.params@),
                i <= function.params@.len(),
                args@.map_values(|p: String| p@) == jvm_call_args(cat, function.params@, internal_package@).take(i as int),
            decreases function.params.len() - i,
        {
            let param = &function.params[i];
            let name = to_camel_case(param.name.as_str());
            let arg = crate::kmp_render::jvm_value(&param.type_expr, name.as_str(), contract, internal_package);
            let ghost before = args@.map_values(|p: String| p@);
            let ghost v = arg@;
            args.push(arg);
            assert(args@.map_values(|p: String| p@) =~= before.push(v));
            assert(jvm_call_args(cat, function.params@, internal_package@).take(i + 1) =~= jvm_call_args(
                cat,
                function.params@,
                internal_package@,
            ).take(i as int).push(v));
            i = i + 1;
        }
        assert(jvm_call_args(cat, function.params@, internal_package@).take(function.params@.len() as int) =~= jvm_call_args(
            cat,
            function.params@,
            internal_package@,
        ));
        let mut delegated = String::from_str(internal_package);
        delegated.append(".");
        let name = to_camel_case(function.id.as_str());
        delegated.append(name.as_str());
        delegated.append("(");
        let joined_args = join_strings(&args, ", ");
        delegated.append(joined_args.as_str());
        delegated.append(")");
        let body = crate::kmp_render::return_type_expr(&function.returns, delegated, contract);
        let mut res = function_head(function, "actual ");
        res.append(" = ");
        res.append(body.as_str());
        res
    }
}

} // verus!
