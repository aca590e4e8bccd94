//! Kotlin source for the declarations of the common surface and for the
//! JVM actuals that convert to and from the internal JVM bindings.

use vstd::prelude::*;
use vstd::string::*;

use crate::custom_chains::{custom_fuel_ok, lemma_walk_fuel, walk_fuel, walks};
use crate::defs::{CustomTypeDef, FfiContract, FieldDef, RecordDef, ReturnDef, TypeCatalog};
use crate::kmp_names::{common_type_name, kdoc_block, kdoc_text, kt_type, opt_view};
use crate::naming::{camel_case, pascal_case, to_camel_case, to_pascal_case};
use crate::text::{join_strings, joined};
use crate::kmp_emit::KMPEmitter;
use crate::types::TypeExpr;

verus! {

/// The JVM value of the common value `e` of type `ty`: records through
/// `toBoltFfiJvm()`, enums through the internal enum's `fromValue`, lists
/// and options element by element, a custom type as its representation.
pub open spec fn jvm_text(cat: TypeCatalog, ty: TypeExpr, e: Seq<char>, pkg: Seq<char>, fuel: nat) -> Seq<char>
    decreases fuel, ty, 0nat,
{
    match ty {
        TypeExpr::Primitive(_) => e,
        TypeExpr::Record(_) => e + ".toBoltFfiJvm()"@,
        TypeExpr::Enum(id) => pkg + "."@ + pascal_case(id@) + ".fromValue("@ + e + ".value)"@,
        TypeExpr::Vec(inner) => jvm_vec_text(cat, *inner, e, pkg, fuel),
        TypeExpr::Option(inner) => e + "?.let { "@ + jvm_text(cat, *inner, "it"@, pkg, fuel) + " }"@,
        TypeExpr::Custom(id) => {
            let k = cat.custom_index(id@);
            if fuel > 0 && 0 <= k < cat.customs@.len() {
                jvm_text(cat, cat.customs@[k].repr, e, pkg, (fuel - 1) as nat)
            } else {
                e
            }
        },
        _ => e,
    }
}

/// The JVM value of a common list `e` of `ty`: as it is for primitives,
/// mapped element by element otherwise.
pub open spec fn jvm_vec_text(cat: TypeCatalog, ty: TypeExpr, e: Seq<char>, pkg: Seq<char>, fuel: nat) -> Seq<char>
    decreases fuel, ty, 1nat,
{
    match ty {
        TypeExpr::Primitive(_) => e,
        _ => e + ".map { "@ + jvm_text(cat, ty, "it"@, pkg, fuel) + " }"@,
    }
}

/// The common value of the JVM value `e` of type `ty`; the mirror of
/// [`jvm_text`].
pub open spec fn common_text(cat: TypeCatalog, ty: TypeExpr, e: Seq<char>, fuel: nat) -> Seq<char>
    decreases fuel, ty, 0nat,
{
    match ty {
        TypeExpr::Primitive(_) => e,
        TypeExpr::Record(_) => e + ".toBoltFfiCommon()"@,
        TypeExpr::Enum(id) => pascal_case(id@) + ".fromValue("@ + e + ".value)"@,
        TypeExpr::Vec(inner) => common_vec_text(cat, *inner, e, fuel),
        TypeExpr::Option(inner) => e + "?.let { "@ + common_text(cat, *inner, "it"@, fuel) + " }"@,
        TypeExpr::Custom(id) => {
            let k = cat.custom_index(id@);
            if fuel > 0 && 0 <= k < cat.customs@.len() {
                common_text(cat, cat.customs@[k].repr, e, (fuel - 1) as nat)
            } else {
                e
            }
        },
        _ => e,
    }
}

/// The common value of a JVM list `e` of `ty`.
pub open spec fn common_vec_text(cat: TypeCatalog, ty: TypeExpr, e: Seq<char>, fuel: nat) -> Seq<char>
    decreases fuel, ty, 1nat,
{
    match ty {
        TypeExpr::Primitive(_) => e,
        _ => e + ".map { "@ + common_text(cat, ty, "it"@, fuel) + " }"@,
    }
}

fn to_jvm_expr(ty: &TypeExpr, expr: &str, contract: &FfiContract, internal_package: &str, Ghost(fuel): Ghost<nat>) -> (res: String)
    requires
        custom_fuel_ok(contract.catalog, *ty, fuel),
    ensures
        res@ == jvm_text(contract.catalog, *ty, expr@, internal_package@, fuel),
    decreases fuel, ty, 0nat,
{
    match ty {
        TypeExpr::Primitive(_) => String::from_str(expr),
        TypeExpr::Record(_) => {
            let mut res = String::from_str(expr);
            res.append(".toBoltFfiJvm()");
            res
        },
        TypeExpr::Enum(id) => {
            let mut res = String::from_str(internal_package);
            res.append(".");
            let class_name = to_pascal_case(id.as_str());
            res.append(class_name.as_str());
            res.append(".fromValue(");
            res.append(expr);
            res.append(".value)");
            res
        },
        TypeExpr::Vec(inner) => to_jvm_vec_expr(inner, expr, contract, internal_package, Ghost(fuel)),
        TypeExpr::Option(inner) => {
            let mut res = String::from_str(expr);
            res.append("?.let { ");
            let i = to_jvm_expr(inner, "it", contract, internal_package, Ghost(fuel));
            res.append(i.as_str());
            res.append(" }");
            res
        },
        TypeExpr::Custom(id) => match contract.catalog.resolve_custom(id) {
            Some(custom) => to_jvm_expr(&custom.repr, expr, contract, internal_package, Ghost((fuel - 1) as nat)),
            None => String::from_str(expr),
        },
        _ => String::from_str(expr),
    }
}

fn to_jvm_vec_expr(ty: &TypeExpr, expr: &str, contract: &FfiContract, internal_package: &str, Ghost(fuel): Ghost<nat>) -> (res: String)
    requires
        custom_fuel_ok(contract.catalog, *ty, fuel),
    ensures
        res@ == jvm_vec_text(contract.catalog, *ty, expr@, internal_package@, fuel),
    decreases fuel, ty, 1nat,
{
    match ty {
        TypeExpr::Primitive(_) => String::from_str(expr),
        _ => {
            let mut res = String::from_str(expr);
            res.append(".map { ");
            let i = to_jvm_expr(ty, "it", contract, internal_package, Ghost(fuel));
            res.append(i.as_str());
            res.append(" }");
            res
        },
    }
}

fn to_common_expr(ty: &TypeExpr, expr: &str, contract: &FfiContract, Ghost(fuel): Ghost<nat>) -> (res: String)
    requires
        custom_fuel_ok(contract.catalog, *ty, fuel),
    ensures
        res@ == common_text(contract.catalog, *ty, expr@, fuel),
    decreases fuel, ty, 0nat,
{
    match ty {
        TypeExpr::Primitive(_) => String::from_str(expr),
        TypeExpr::Record(_) => {
            let mut res = String::from_str(expr);
            res.append(".toBoltFfiCommon()");
            res
        },
        TypeExpr::Enum(id) => {
            let mut res = to_pascal_case(id.as_str());
            res.append(".fromValue(");
            res.append(expr);
            res.append(".value)");
            res
        },
        TypeExpr::Vec(inner) => to_common_vec_expr(inner, expr, contract, Ghost(fuel)),
        TypeExpr::Option(inner) => {
            let mut res = String::from_str(expr);
            res.append("?.let { ");
            let i = to_common_expr(inner, "it", contract, Ghost(fuel));
            res.append(i.as_str());
            res.append(" }");
            res
        },
        TypeExpr::Custom(id) => match contract.catalog.resolve_custom(id) {
            Some(custom) => to_common_expr(&custom.repr, expr, contract, Ghost((fuel - 1) as nat)),
            None => String::from_str(expr),
        },
        _ => String::from_str(expr),
    }
}

fn to_common_vec_expr(ty: &TypeExpr, expr: &str, contract: &FfiContract, Ghost(fuel): Ghost<nat>) -> (res: String)
    requires
        custom_fuel_ok(contract.catalog, *ty, fuel),
    ensures
        res@ == common_vec_text(contract.catalog, *ty, expr@, fuel),
    decreases fuel, ty, 1nat,
{
    match ty {
        TypeExpr::Primitive(_) => String::from_str(expr),
        _ => {
            let mut res = String::from_str(expr);
            res.append(".map { ");
            let i = to_common_expr(ty, "it", contract, Ghost(fuel));
            res.append(i.as_str());
            res.append(" }");
            res
        },
    }
}

/// The JVM conversion of a value does not depend on the fuel, once the fuel
/// is enough for the walk.
pub proof fn lemma_jvm_text_fuel(cat: TypeCatalog, ty: TypeExpr, e: Seq<char>, pkg: Seq<char>, fuel: nat, more: nat)
    requires
        custom_fuel_ok(cat, ty, fuel),
        fuel <= more,
    ensures
        jvm_text(cat, ty, e, pkg, fuel) == jvm_text(cat, ty, e, pkg, more),
    decreases fuel, ty, 0nat,
{
    match ty {
        TypeExpr::Vec(inner) => lemma_jvm_vec_text_fuel(cat, *inner, e, pkg, fuel, more),
        TypeExpr::Option(inner) => lemma_jvm_text_fuel(cat, *inner, "it"@, pkg, fuel, more),
        TypeExpr::Custom(id) => {
            let k = cat.custom_index(id@);
            if k >= 0 {
                lemma_jvm_text_fuel(cat, cat.customs@[k].repr, e, pkg, (fuel - 1) as nat, (more - 1) as nat);
            }
        },
        _ => {},
    }
}

/// The JVM conversion of a list does not depend on the fuel either.
pub proof fn lemma_jvm_vec_text_fuel(cat: TypeCatalog, ty: TypeExpr, e: Seq<char>, pkg: Seq<char>, fuel: nat, more: nat)
    requires
        custom_fuel_ok(cat, ty, fuel),
        fuel <= more,
    ensures
        jvm_vec_text(cat, ty, e, pkg, fuel) == jvm_vec_text(cat, ty, e, pkg, more),
    decreases fuel, ty, 1nat,
{
    match ty {
        TypeExpr::Primitive(_) => {},
        _ => lemma_jvm_text_fuel(cat, ty, "it"@, pkg, fuel, more),
    }
}

/// The common conversion of a value does not depend on the fuel, once the
/// fuel is enough for the walk.
pub proof fn lemma_common_text_fuel(cat: TypeCatalog, ty: TypeExpr, e: Seq<char>, fuel: nat, more: nat)
    requires
        custom_fuel_ok(cat, ty, fuel),
        fuel <= more,
    ensures
        common_text(cat, ty, e, fuel) == common_text(cat, ty, e, more),
    decreases fuel, ty, 0nat,
{
    match ty {
        TypeExpr::Vec(inner) => lemma_common_vec_text_fuel(cat, *inner, e, fuel, more),
        TypeExpr::Option(inner) => lemma_common_text_fuel(cat, *inner, "it"@, fuel, more),
        TypeExpr::Custom(id) => {
            let k = cat.custom_index(id@);
            if k >= 0 {
                lemma_common_text_fuel(cat, cat.customs@[k].repr, e, (fuel - 1) as nat, (more - 1) as nat);
            }
        },
        _ => {},
    }
}

/// The common conversion of a list does not depend on the fuel either.
pub proof fn lemma_common_vec_text_fuel(cat: TypeCatalog, ty: TypeExpr, e: Seq<char>, fuel: nat, more: nat)
    requires
        custom_fuel_ok(cat, ty, fuel),
        fuel <= more,
    ensures
        common_vec_text(cat, ty, e, fuel) == common_vec_text(cat, ty, e, more),
    decreases fuel, ty, 1nat,
{
    match ty {
        TypeExpr::Primitive(_) => {},
        _ => lemma_common_text_fuel(cat, ty, "it"@, fuel, more),
    }
}

/// The JVM value of `expr`, walking custom types as far as they go.
pub(crate) fn jvm_value(ty: &TypeExpr, expr: &str, contract: &FfiContract, internal_package: &str) -> (res: String)
    requires
        walks(contract.catalog, *ty),
    ensures
        res@ == jvm_text(contract.catalog, *ty, expr@, internal_package@, walk_fuel(contract.catalog, *ty)),
{
    proof {
        lemma_walk_fuel(contract.catalog, *ty);
    }
    to_jvm_expr(ty, expr, contract, internal_package, Ghost(walk_fuel(contract.catalog, *ty)))
}

fn common_value(ty: &TypeExpr, expr: &str, contract: &FfiContract) -> (res: String)
    requires
        walks(contract.catalog, *ty),
    ensures
        res@ == common_text(contract.catalog, *ty, expr@, walk_fuel(contract.catalog, *ty)),
{
    proof {
        lemma_walk_fuel(contract.catalog, *ty);
    }
    to_common_expr(ty, expr, contract, Ghost(walk_fuel(contract.catalog, *ty)))
}

/// The body of a JVM actual that delegates to `delegated`: the delegated
/// call itself, converted back to the common type of the returned value.
pub open spec fn return_body_text(cat: TypeCatalog, r: ReturnDef, delegated: Seq<char>) -> Seq<char> {
    match r {
        ReturnDef::Void => delegated,
        ReturnDef::Value(ty) => common_text(cat, ty, delegated, walk_fuel(cat, ty)),
        ReturnDef::Result { ok, .. } => common_text(cat, ok, delegated, walk_fuel(cat, ok)),
    }
}

/// Every custom walk the return of a function makes ends.
pub open spec fn return_walks_end(cat: TypeCatalog, r: ReturnDef) -> bool {
    match r {
        ReturnDef::Void => true,
        ReturnDef::Value(ty) => walks(cat, ty),
        ReturnDef::Result { ok, .. } => walks(cat, ok),
    }
}

pub(crate) fn return_type_expr(returns_def: &ReturnDef, delegated: String, contract: &FfiContract) -> (res: String)
    requires
        return_walks_end(contract.catalog, *returns_def),
    ensures
        res@ == return_body_text(contract.catalog, *returns_def, delegated@),
{
    match returns_def {
        ReturnDef::Void => delegated,
        ReturnDef::Value(ty) => common_value(ty, delegated.as_str(), contract),
        ReturnDef::Result { ok, .. } => common_value(ok, delegated.as_str(), contract),
    }
}

/// `typealias <Name> = <repr>`.
pub open spec fn custom_type_text(c: CustomTypeDef) -> Seq<char> {
    "typealias "@ + pascal_case(c.id@) + " = "@ + kt_type(c.repr)
}

/// `val <name>: <Type>` for each field.
pub open spec fn field_decls(fields: Seq<FieldDef>) -> Seq<Seq<char>> {
    fields.map_values(|f: FieldDef| "val "@ + camel_case(f.name@) + ": "@ + kt_type(f.type_expr))
}

/// A record of the common surface: an `object` when it has no field, a
/// `data class` of its fields otherwise, after its doc comment.
pub open spec fn common_record_text(r: RecordDef) -> Seq<char> {
    if r.fields@.len() == 0 {
        kdoc_text(opt_view(r.doc)) + "object "@ + pascal_case(r.id@)
    } else {
        kdoc_text(opt_view(r.doc)) + "data class "@ + pascal_case(r.id@) + "("@ + joined(field_decls(r.fields@), ", "@) + ")"@
    }
}

/// The custom walk of every field ends.
pub open spec fn fields_walk_end(cat: TypeCatalog, fields: Seq<FieldDef>) -> bool {
    forall|j: int| 0 <= j < fields.len() ==> walks(cat, #[trigger] fields[j].type_expr)
}

/// `<name> = <JVM value of the field>` for each field.
pub open spec fn jvm_args(cat: TypeCatalog, fields: Seq<FieldDef>, pkg: Seq<char>) -> Seq<Seq<char>> {
    fields.map_values(|f: FieldDef| camel_case(f.name@) + " = "@ + jvm_text(cat, f.type_expr, camel_case(f.name@), pkg, walk_fuel(cat, f.type_expr)))
}

/// `<name> = <common value of the field>` for each field.
pub open spec fn common_args(cat: TypeCatalog, fields: Seq<FieldDef>) -> Seq<Seq<char>> {
    fields.map_values(|f: FieldDef| camel_case(f.name@) + " = "@ + common_text(cat, f.type_expr, camel_case(f.name@), walk_fuel(cat, f.type_expr)))
}

/// The two private conversions of a record between the common class and
/// the internal JVM class, field by field; a record with no field is an
/// object and converts to the other object.
pub open spec fn record_conversions_text(cat: TypeCatalog, r: RecordDef, pkg: Seq<char>) -> Seq<char> {
    let c = pascal_case(r.id@);
    if r.fields@.len() == 0 {
        "private fun "@ + c + ".toBoltFfiJvm(): "@ + pkg + "."@ + c + " = "@ + pkg + "."@ + c + "\n\nprivate fun "@ + pkg + "."@ + c
            + ".toBoltFfiCommon(): "@ + c + " = "@ + c
    } else {
        "private fun "@ + c + ".toBoltFfiJvm(): "@ + pkg + "."@ + c + " = "@ + pkg + "."@ + c + "("@ + joined(
            jvm_args(cat, r.fields@, pkg),
            ", "@,
        ) + ")\n\nprivate fun "@ + pkg + "."@ + c + ".toBoltFfiCommon(): "@ + c + " = "@ + c + "("@ + joined(
            common_args(cat, r.fields@),
            ", "@,
        ) + ")"@
    }
}

impl KMPEmitter {
    /// Declares a custom type as an alias of its representation.
    pub fn render_custom_type(custom: &CustomTypeDef) -> (res: String)
        ensures
            res@ == custom_type_text(*custom),
    {
        let mut res = String::from_str("typealias ");
        let name = to_pascal_case(custom.id.as_str());
        res.append(name.as_str());
        res.append(" = ");
        let t = common_type_name(&custom.repr);
        res.append(t.as_str());
        res
    }

    /// Declares a record of the common surface; see [`common_record_text`].
    pub fn render_common_record(record: &RecordDef) -> (res: String)
        ensures
            res@ == common_record_text(*record),
    {
        let mut res = kdoc_block(&record.doc);
        if record.fields.len() == 0 {
            res.append("object ");
            let name = to_pascal_case(record.id.as_str());
            res.append(name.as_str());
            return res;
        }
        let mut params: Vec<String> = Vec::new();
        let mut i: usize = 0;
        while i < record.fields.len()
            invariant
                i <= record.fields@.len(),
                params@.map_values(|p: String| p@) == field_decls(record.fields@).take(i as int),
            decreases record.fields.len() - i,
        {
            let field = &record.fields[i];
            let mut p = String::from_str("val ");
            let n = to_camel_case(field.name.as_str());
            p.append(n.as_str());
            p.append(": ");
            let t = common_type_name(&field.type_expr);
            p.append(t.as_str());
            let ghost before = params@.map_values(|q: String| q@);
            let ghost v = p@;
            params.push(p);
            assert(params@.map_values(|q: String| q@) =~= before.push(v));
            assert(field_decls(record.fields@).take(i + 1) =~= field_decls(record.fields@).take(i as int).push(v));
            i = i + 1;
        }
        assert(field_decls(record.fields@).take(record.fields@.len() as int) =~= field_decls(record.fields@));
        res.append("data class ");
        let name = to_pascal_case(record.id.as_str());
        res.append(name.as_str());
        res.append("(");
        let joined_params = join_strings(&params, ", ");
        res.append(joined_params.as_str());
        res.append(")");
        res
    }

    /// The conversions of a record; see [`record_conversions_text`].
    pub fn render_record_actual_conversions(record: &RecordDef, internal_package: &str, contract: &FfiContract) -> (res: String)
        requires
            fields_walk_end(contract.catalog, record.fields@),
        ensures
            res@ == record_conversions_text(contract.catalog, *record, internal_package@),
    {
        let class_name = to_pascal_case(record.id.as_str());
        let c = class_name.as_str();
        let mut res = String::from_str("private fun ");
        res.append(c);
        res.append(".toBoltFfiJvm(): ");
        res.append(internal_package);
        res.append(".");
        res.append(c);
        res.append(" = ");
        res.append(internal_package);
        res.append(".");
        res.append(c);
        if record.fields.len() == 0 {
            res.append("\n\nprivate fun ");
            res.append(internal_package);
            res.append(".");
            res.append(c);
            res.append(".toBoltFfiCommon(): ");
            res.append(c);
            res.append(" = ");
            res.append(c);
            return res;
        }
        let ghost cat = contract.catalog;
        let mut to_jvm: Vec<String> = Vec::new();
        let mut to_common: Vec<String> = Vec::new();
        let mut i: usize = 0;
        while i < record.fields.len()
            invariant
                cat == contract.catalog,
                fields_walk_end(cat, record.fields@),
                i <= record.fields@.len(),
                to_jvm@.map_values(|p: String| p@) == jvm_args(cat, record.fields@, internal_package@).take(i as int),
                to_common@.map_values(|p: String| p@) == common_args(cat, record.fields@).take(i as int),
            decreases record.fields.len() - i,
        {
            let field = &record.fields[i];
            let name = to_camel_case(field.name.as_str());
            let mut a = name.clone();
            a.append(" = ");
            assert(walks(cat, record.fields@[i as int].type_expr));
            let j = jvm_value(&field.type_expr, name.as_str(), contract, internal_package);
            a.append(j.as_str());
            let mut b = name.clone();
            b.append(" = ");
            let k = common_value(&field.type_expr, name.as_str(), contract);
            b.append(k.as_str());
            let ghost before_a = to_jvm@.map_values(|p: String| p@);
            let ghost before_b = to_common@.map_values(|p: String| p@);
            let ghost va = a@;
            let ghost vb = b@;
            to_jvm.push(a);
            to_common.push(b);
            assert(to_jvm@.map_values(|p: String| p@) =~= before_a.push(va));
            assert(to_common@.map_values(|p: String| p@) =~= before_b.push(vb));
            assert(jvm_args(cat, record.fields@, internal_package@).take(i + 1) =~= jvm_args(cat, record.fields@, internal_package@).take(
                i as int,
            ).push(va));
            assert(common_args(cat, record.fields@).take(i + 1) =~= common_args(cat, record.fields@).take(i as int).push(vb));
            i = i + 1;
        }
        assert(jvm_args(cat, record.fields@, internal_package@).take(record.fields@.len() as int) =~= jvm_args(
            cat,
            record.fields@,
            internal_package@,
        ));
        assert(common_args(cat, record.fields@).take(record.fields@.len() as int) =~= common_args(cat, record.fields@));
        res.append("(");
        let jvm_joined = join_strings(&to_jvm, ", ");
        res.append(jvm_joined.as_str());
        res.append(")\n\nprivate fun ");
        res.append(internal_package);
        res.append(".");
        res.append(c);
        res.append(".toBoltFfiCommon(): ");
        res.append(c);
        res.append(" = ");
        res.append(c);
        res.append("(");
        let common_joined = join_strings(&to_common, ", ");
        res.append(common_joined.as_str());
        res.append(")");
        res
    }
}

} // verus!
