//! Which records and enums the C# backend can render.
//!
//! Records and enums can reference each other (a record field may be a data
//! enum; a data-enum variant may carry a record), so neither set can be
//! computed alone. Both grow together from the legal C-style enums until a
//! pass admits nothing new: the result is the least pair of sets that is
//! closed under admission.

use vstd::prelude::*;

use crate::custom_chains::{custom_depth, custom_fuel_ok};
use crate::defs::{enum_keys, record_keys, DataVariant, EnumDef, EnumRepr, FfiContract, FieldDef, RecordDef, TypeCatalog, VariantPayload};
use crate::id_sets::{EnumIdSet, RecordIdSet};
use crate::ids::{enum_id_seq, record_id_seq, EnumId, RecordId};
use crate::types::{fixed_width_integer, PrimitiveType, TypeExpr};

verus! {

/// The primitives C# accepts as the backing type of an enum.
pub open spec fn legal_enum_backing(p: PrimitiveType) -> bool {
    match p {
        PrimitiveType::I8 | PrimitiveType::U8 | PrimitiveType::I16 | PrimitiveType::U16
        | PrimitiveType::I32 | PrimitiveType::U32 | PrimitiveType::I64 | PrimitiveType::U64 => true,
        _ => false,
    }
}

/// Whether `p` can back a C# enum.
pub fn is_legal_enum_backing(p: PrimitiveType) -> (res: bool)
    ensures
        res == legal_enum_backing(p),
{
    match p {
        PrimitiveType::I8 | PrimitiveType::U8 | PrimitiveType::I16 | PrimitiveType::U16
        | PrimitiveType::I32 | PrimitiveType::U32 | PrimitiveType::I64 | PrimitiveType::U64 => true,
        _ => false,
    }
}

/// Whether a field or element of type `ty` can be rendered, given the records
/// `rs` and enums `es` admitted so far. A custom type is judged by its
/// representation; `Option<Option<_>>` is refused because C# has no `T??`.
pub open spec fn field_supported(
    cat: TypeCatalog,
    ty: TypeExpr,
    rs: Set<Seq<char>>,
    es: Set<Seq<char>>,
    fuel: nat,
) -> bool
    decreases fuel, ty,
{
    match ty {
        TypeExpr::Primitive(_) | TypeExpr::String | TypeExpr::Void | TypeExpr::Builtin(_) => true,
        TypeExpr::Record(id) => rs.contains(id@),
        TypeExpr::Enum(id) => es.contains(id@),
        TypeExpr::Custom(id) => {
            let k = cat.custom_index(id@);
            0 <= k < cat.customs@.len() && fuel > 0 && field_supported(
                cat,
                cat.customs@[k].repr,
                rs,
                es,
                (fuel - 1) as nat,
            )
        },
        TypeExpr::Vec(inner) => field_supported(cat, *inner, rs, es, fuel),
        TypeExpr::Option(inner) => !(*inner is Option) && field_supported(cat, *inner, rs, es, fuel),
        _ => false,
    }
}

/// Every field type in `fields` is supported.
pub open spec fn fields_supported(
    cat: TypeCatalog,
    fields: Seq<FieldDef>,
    rs: Set<Seq<char>>,
    es: Set<Seq<char>>,
) -> bool {
    forall|i: int| 0 <= i < fields.len() ==> field_supported(cat, #[trigger] fields[i].type_expr, rs, es, custom_depth(cat))
}

/// Every type in `tys` is supported.
pub open spec fn types_supported(
    cat: TypeCatalog,
    tys: Seq<TypeExpr>,
    rs: Set<Seq<char>>,
    es: Set<Seq<char>>,
) -> bool {
    forall|i: int| 0 <= i < tys.len() ==> field_supported(cat, #[trigger] tys[i], rs, es, custom_depth(cat))
}

/// Every payload type of the variant is supported.
pub open spec fn variant_supported(cat: TypeCatalog, v: DataVariant, rs: Set<Seq<char>>, es: Set<Seq<char>>) -> bool {
    match v.payload {
        VariantPayload::Unit => true,
        VariantPayload::Tuple(tys) => types_supported(cat, tys@, rs, es),
        VariantPayload::Struct(fields) => fields_supported(cat, fields@, rs, es),
    }
}

/// Every variant's payload is supported; vacuously true for C-style enums.
pub open spec fn enum_variants_supported(cat: TypeCatalog, e: EnumDef, rs: Set<Seq<char>>, es: Set<Seq<char>>) -> bool {
    match e.repr {
        EnumRepr::CStyle { .. } => true,
        EnumRepr::Data { variants, .. } => forall|i: int|
            0 <= i < variants@.len() ==> variant_supported(cat, #[trigger] variants@[i], rs, es),
    }
}

/// A record joins once all its fields are supported.
pub open spec fn record_admissible(cat: TypeCatalog, r: RecordDef, rs: Set<Seq<char>>, es: Set<Seq<char>>) -> bool {
    fields_supported(cat, r.fields@, rs, es)
}

/// A data enum joins once all its variants are supported.
pub open spec fn data_enum_admissible(cat: TypeCatalog, e: EnumDef, rs: Set<Seq<char>>, es: Set<Seq<char>>) -> bool {
    e.repr is Data && enum_variants_supported(cat, e, rs, es)
}

/// A C-style enum whose backing type C# accepts; these seed the enum set.
pub open spec fn seed_enum(e: EnumDef) -> bool {
    match e.repr {
        EnumRepr::CStyle { tag_type, .. } => legal_enum_backing(tag_type),
        EnumRepr::Data { .. } => false,
    }
}

/// The enums that seed the enum set.
pub open spec fn seed_enums(cat: TypeCatalog) -> Set<Seq<char>> {
    Set::new(|id: Seq<char>| exists|i: int| 0 <= i < cat.enums@.len() && cat.enums@[i].id@ == id && seed_enum(cat.enums@[i]))
}

/// The records admissible under `rs` and `es`.
pub open spec fn admitted_records(cat: TypeCatalog, rs: Set<Seq<char>>, es: Set<Seq<char>>) -> Set<Seq<char>> {
    Set::new(|id: Seq<char>| exists|i: int| 0 <= i < cat.records@.len() && cat.records@[i].id@ == id && record_admissible(cat, cat.records@[i], rs, es))
}

/// The data enums admissible under `rs` and `es`.
pub open spec fn admitted_enums(cat: TypeCatalog, rs: Set<Seq<char>>, es: Set<Seq<char>>) -> Set<Seq<char>> {
    Set::new(|id: Seq<char>| exists|i: int| 0 <= i < cat.enums@.len() && cat.enums@[i].id@ == id && data_enum_admissible(cat, cat.enums@[i], rs, es))
}

/// `rs` and `es` contain the seed and everything admissible under them.
pub open spec fn closed_under_admission(cat: TypeCatalog, rs: Set<Seq<char>>, es: Set<Seq<char>>) -> bool {
    &&& seed_enums(cat).subset_of(es)
    &&& admitted_records(cat, rs, es).subset_of(rs)
    &&& admitted_enums(cat, rs, es).subset_of(es)
}

/// The walks through custom types that admission performs all end: every
/// record field and data-variant payload type unfolds within the catalog's
/// custom depth.
pub open spec fn admission_walks_end(cat: TypeCatalog) -> bool {
    &&& forall|i: int, j: int| 0 <= i < cat.records@.len() && 0 <= j < cat.records@[i].fields@.len()
        ==> custom_fuel_ok(cat, #[trigger] cat.records@[i].fields@[j].type_expr, custom_depth(cat))
    &&& forall|i: int| 0 <= i < cat.enums@.len() ==> #[trigger] enum_walks_end(cat, cat.enums@[i])
}

/// Every payload type of a data enum unfolds within the custom depth.
pub open spec fn enum_walks_end(cat: TypeCatalog, e: EnumDef) -> bool {
    match e.repr {
        EnumRepr::CStyle { .. } => true,
        EnumRepr::Data { variants, .. } => forall|v: int| 0 <= v < variants@.len() ==> #[trigger] variant_walks_end(cat, variants@[v]),
    }
}

/// Every payload type of a variant unfolds within the custom depth.
pub open spec fn variant_walks_end(cat: TypeCatalog, v: DataVariant) -> bool {
    match v.payload {
        VariantPayload::Unit => true,
        VariantPayload::Tuple(tys) => forall|t: int| 0 <= t < tys@.len() ==> custom_fuel_ok(cat, #[trigger] tys@[t], custom_depth(cat)),
        VariantPayload::Struct(fields) => forall|t: int| 0 <= t < fields@.len() ==> custom_fuel_ok(cat, #[trigger] fields@[t].type_expr, custom_depth(cat)),
    }
}

/// Admission only ever grows with the sets it is judged against.
pub proof fn lemma_field_supported_monotone(
    cat: TypeCatalog,
    ty: TypeExpr,
    rs: Set<Seq<char>>,
    es: Set<Seq<char>>,
    rs2: Set<Seq<char>>,
    es2: Set<Seq<char>>,
    fuel: nat,
)
    requires
        field_supported(cat, ty, rs, es, fuel),
        rs.subset_of(rs2),
        es.subset_of(es2),
    ensures
        field_supported(cat, ty, rs2, es2, fuel),
    decreases fuel, ty,
{
    match ty {
        TypeExpr::Custom(id) => {
            let k = cat.custom_index(id@);
            lemma_field_supported_monotone(cat, cat.customs@[k].repr, rs, es, rs2, es2, (fuel - 1) as nat);
        },
        TypeExpr::Vec(inner) => lemma_field_supported_monotone(cat, *inner, rs, es, rs2, es2, fuel),
        TypeExpr::Option(inner) => lemma_field_supported_monotone(cat, *inner, rs, es, rs2, es2, fuel),
        _ => {},
    }
}

proof fn lemma_record_admissible_monotone(
    cat: TypeCatalog,
    r: RecordDef,
    rs: Set<Seq<char>>,
    es: Set<Seq<char>>,
    rs2: Set<Seq<char>>,
    es2: Set<Seq<char>>,
)
    requires
        record_admissible(cat, r, rs, es),
        rs.subset_of(rs2),
        es.subset_of(es2),
    ensures
        record_admissible(cat, r, rs2, es2),
{
    assert forall|i: int| 0 <= i < r.fields@.len() implies field_supported(cat, #[trigger] r.fields@[i].type_expr, rs2, es2, custom_depth(cat)) by {
        lemma_field_supported_monotone(cat, r.fields@[i].type_expr, rs, es, rs2, es2, custom_depth(cat));
    }
}

proof fn lemma_variant_supported_monotone(
    cat: TypeCatalog,
    v: DataVariant,
    rs: Set<Seq<char>>,
    es: Set<Seq<char>>,
    rs2: Set<Seq<char>>,
    es2: Set<Seq<char>>,
)
    requires
        variant_supported(cat, v, rs, es),
        rs.subset_of(rs2),
        es.subset_of(es2),
    ensures
        variant_supported(cat, v, rs2, es2),
{
    match v.payload {
        VariantPayload::Unit => {},
        VariantPayload::Tuple(tys) => {
            assert forall|i: int| 0 <= i < tys@.len() implies field_supported(cat, #[trigger] tys@[i], rs2, es2, custom_depth(cat)) by {
                lemma_field_supported_monotone(cat, tys@[i], rs, es, rs2, es2, custom_depth(cat));
            }
        },
        VariantPayload::Struct(fields) => {
            assert forall|i: int| 0 <= i < fields@.len() implies field_supported(cat, #[trigger] fields@[i].type_expr, rs2, es2, custom_depth(cat)) by {
                lemma_field_supported_monotone(cat, fields@[i].type_expr, rs, es, rs2, es2, custom_depth(cat));
            }
        },
    }
}

proof fn lemma_enum_admissible_monotone(
    cat: TypeCatalog,
    e: EnumDef,
    rs: Set<Seq<char>>,
    es: Set<Seq<char>>,
    rs2: Set<Seq<char>>,
    es2: Set<Seq<char>>,
)
    requires
        data_enum_admissible(cat, e, rs, es),
        rs.subset_of(rs2),
        es.subset_of(es2),
    ensures
        data_enum_admissible(cat, e, rs2, es2),
{
    if let EnumRepr::Data { variants, .. } = e.repr {
        assert forall|i: int| 0 <= i < variants@.len() implies variant_supported(cat, #[trigger] variants@[i], rs2, es2) by {
            lemma_variant_supported_monotone(cat, variants@[i], rs, es, rs2, es2);
        }
    }
}


/// Whether `ty` is a supported field or element type given the current
/// admission state; a custom type is judged by its representation.
fn is_field_type_supported(
    ffi: &FfiContract,
    ty: &TypeExpr,
    records: &RecordIdSet,
    enums: &EnumIdSet,
    Ghost(fuel): Ghost<nat>,
) -> (res: bool)
    requires
        custom_fuel_ok(ffi.catalog, *ty, fuel),
    ensures
        res == field_supported(ffi.catalog, *ty, records@, enums@, fuel),
    decreases fuel, ty,
{
    match ty {
        TypeExpr::Primitive(_) | TypeExpr::String | TypeExpr::Void => true,
        TypeExpr::Builtin(_) => true,
        TypeExpr::Record(id) => records.contains(id),
        TypeExpr::Enum(id) => enums.contains(id),
        TypeExpr::Custom(id) => match ffi.catalog.resolve_custom(id) {
            Some(custom) => is_field_type_supported(ffi, &custom.repr, records, enums, Ghost((fuel - 1) as nat)),
            None => false,
        },
        TypeExpr::Vec(inner) => is_field_type_supported(ffi, inner, records, enums, Ghost(fuel)),
        TypeExpr::Option(inner) => {
            !matches!(**inner, TypeExpr::Option(_))
                && is_field_type_supported(ffi, inner, records, enums, Ghost(fuel))
        },
        _ => false,
    }
}

/// Whether every field type is supported.
fn all_fields_supported(ffi: &FfiContract, fields: &Vec<FieldDef>, records: &RecordIdSet, enums: &EnumIdSet) -> (res: bool)
    requires
        forall|j: int| 0 <= j < fields@.len() ==> custom_fuel_ok(ffi.catalog, #[trigger] fields@[j].type_expr, custom_depth(ffi.catalog)),
    ensures
        res == fields_supported(ffi.catalog, fields@, records@, enums@),
{
    let mut i: usize = 0;
    while i < fields.len()
        invariant
            i <= fields@.len(),
            forall|j: int| 0 <= j < fields@.len() ==> custom_fuel_ok(ffi.catalog, #[trigger] fields@[j].type_expr, custom_depth(ffi.catalog)),
            forall|j: int| 0 <= j < i ==> field_supported(ffi.catalog, #[trigger] fields@[j].type_expr, records@, enums@, custom_depth(ffi.catalog)),
        decreases fields.len() - i,
    {
        if !is_field_type_supported(ffi, &fields[i].type_expr, records, enums, Ghost(custom_depth(ffi.catalog))) {
            return false;
        }
        i = i + 1;
    }
    true
}

/// Whether every type is supported.
fn all_types_supported(ffi: &FfiContract, tys: &Vec<TypeExpr>, records: &RecordIdSet, enums: &EnumIdSet) -> (res: bool)
    requires
        forall|j: int| 0 <= j < tys@.len() ==> custom_fuel_ok(ffi.catalog, #[trigger] tys@[j], custom_depth(ffi.catalog)),
    ensures
        res == types_supported(ffi.catalog, tys@, records@, enums@),
{
    let mut i: usize = 0;
    while i < tys.len()
        invariant
            i <= tys@.len(),
            forall|j: int| 0 <= j < tys@.len() ==> custom_fuel_ok(ffi.catalog, #[trigger] tys@[j], custom_depth(ffi.catalog)),
            forall|j: int| 0 <= j < i ==> field_supported(ffi.catalog, #[trigger] tys@[j], records@, enums@, custom_depth(ffi.catalog)),
        decreases tys.len() - i,
    {
        if !is_field_type_supported(ffi, &tys[i], records, enums, Ghost(custom_depth(ffi.catalog))) {
            return false;
        }
        i = i + 1;
    }
    true
}

/// Whether every variant's payload field type is supported; vacuously true
/// for C-style enums.
fn enum_variant_fields_supported(ffi: &FfiContract, enum_def: &EnumDef, records: &RecordIdSet, enums: &EnumIdSet) -> (res: bool)
    requires
        enum_walks_end(ffi.catalog, *enum_def),
    ensures
        res == enum_variants_supported(ffi.catalog, *enum_def, records@, enums@),
{
    let variants = match &enum_def.repr {
        EnumRepr::Data { variants, .. } => variants,
        EnumRepr::CStyle { .. } => { return true; },
    };
    let mut i: usize = 0;
    while i < variants.len()
        invariant
            enum_def.repr is Data,
            enum_def.repr matches EnumRepr::Data { variants: vs, .. } && vs == *variants,
            enum_walks_end(ffi.catalog, *enum_def),
            i <= variants@.len(),
            forall|j: int| 0 <= j < i ==> variant_supported(ffi.catalog, #[trigger] variants@[j], records@, enums@),
        decreases variants.len() - i,
    {
        assert(variant_walks_end(ffi.catalog, variants@[i as int]));
        let ok = match &variants[i].payload {
            VariantPayload::Unit => true,
            VariantPayload::Tuple(types) => all_types_supported(ffi, types, records, enums),
            VariantPayload::Struct(fields) => all_fields_supported(ffi, fields, records, enums),
        };
        if !ok {
            return false;
        }
        i = i + 1;
    }
    true
}


/// The ids of the records that one pass admits: those not yet admitted
/// whose fields are all supported under the current sets.
fn record_pass(ffi: &FfiContract, records: &RecordIdSet, enums: &EnumIdSet) -> (res: Vec<RecordId>)
    requires
        admission_walks_end(ffi.catalog),
    ensures
        forall|k: int| #![trigger record_id_seq(res@)[k]] 0 <= k < res@.len() ==> {
            &&& !records@.contains(record_id_seq(res@)[k])
            &&& admitted_records(ffi.catalog, records@, enums@).contains(record_id_seq(res@)[k])
            &&& record_keys(ffi.catalog.records@).contains(record_id_seq(res@)[k])
        },
        forall|j: int| 0 <= j < ffi.catalog.records@.len() && !records@.contains(ffi.catalog.records@[j].id@)
            && record_admissible(ffi.catalog, #[trigger] ffi.catalog.records@[j], records@, enums@)
            ==> record_id_seq(res@).contains(ffi.catalog.records@[j].id@),
{
    let ghost cat = ffi.catalog;
    let ghost rs = records@;
    let ghost es = enums@;
    let mut adds: Vec<RecordId> = Vec::new();
    let ghost mut src: Seq<int> = Seq::empty();
    let ghost mut pos: Seq<int> = Seq::empty();
    let mut r: usize = 0;
    while r < ffi.catalog.records.len()
        invariant
            cat == ffi.catalog,
            rs == records@,
            es == enums@,
            admission_walks_end(cat),
            r <= cat.records@.len(),
            src.len() == adds@.len(),
            pos.len() == r,
            forall|k: int| 0 <= k < src.len() ==> 0 <= #[trigger] src[k] < r && cat.records@[src[k]].id@ == record_id_seq(adds@)[k]
                && !rs.contains(cat.records@[src[k]].id@) && record_admissible(cat, cat.records@[src[k]], rs, es),
            forall|j: int| 0 <= j < r && !rs.contains(cat.records@[j].id@) && record_admissible(cat, cat.records@[j], rs, es)
                ==> 0 <= #[trigger] pos[j] < adds@.len() && record_id_seq(adds@)[pos[j]] == cat.records@[j].id@,
        decreases ffi.catalog.records.len() - r,
    {
        let rec = &ffi.catalog.records[r];
        assert forall|j: int| 0 <= j < rec.fields@.len() implies custom_fuel_ok(cat, #[trigger] rec.fields@[j].type_expr, custom_depth(cat)) by {
            assert(custom_fuel_ok(cat, cat.records@[r as int].fields@[j].type_expr, custom_depth(cat)));
        }
        let ghost before = record_id_seq(adds@);
        if !records.contains(&rec.id) && all_fields_supported(ffi, &rec.fields, records, enums) {
            adds.push(rec.id.clone());
            proof {
                assert(record_id_seq(adds@) =~= before.push(rec.id@));
                src = src.push(r as int);
                pos = pos.push(before.len() as int);
            }
        } else {
            proof {
                pos = pos.push(0);
            }
        }
        r = r + 1;
    }
    assert forall|k: int| #![trigger record_id_seq(adds@)[k]] 0 <= k < adds@.len() implies {
        &&& !rs.contains(record_id_seq(adds@)[k])
        &&& admitted_records(cat, rs, es).contains(record_id_seq(adds@)[k])
        &&& record_keys(cat.records@).contains(record_id_seq(adds@)[k])
    } by {
        let j = src[k];
        assert(record_keys(cat.records@)[j] == record_id_seq(adds@)[k]);
        assert(record_admissible(cat, cat.records@[j], rs, es));
    }
    assert forall|j: int| 0 <= j < ffi.catalog.records@.len() && !records@.contains(ffi.catalog.records@[j].id@)
        && record_admissible(ffi.catalog, #[trigger] ffi.catalog.records@[j], records@, enums@)
        implies record_id_seq(adds@).contains(ffi.catalog.records@[j].id@) by {
        assert(record_id_seq(adds@)[pos[j]] == ffi.catalog.records@[j].id@);
    }
    adds
}

/// The ids of the data enums that one pass admits: those not yet admitted
/// whose variants are all supported under the current sets.
fn enum_pass(ffi: &FfiContract, records: &RecordIdSet, enums: &EnumIdSet) -> (res: Vec<EnumId>)
    requires
        admission_walks_end(ffi.catalog),
    ensures
        forall|k: int| #![trigger enum_id_seq(res@)[k]] 0 <= k < res@.len() ==> {
            &&& !enums@.contains(enum_id_seq(res@)[k])
            &&& admitted_enums(ffi.catalog, records@, enums@).contains(enum_id_seq(res@)[k])
            &&& enum_keys(ffi.catalog.enums@).contains(enum_id_seq(res@)[k])
        },
        forall|j: int| 0 <= j < ffi.catalog.enums@.len() && !enums@.contains(ffi.catalog.enums@[j].id@)
            && data_enum_admissible(ffi.catalog, #[trigger] ffi.catalog.enums@[j], records@, enums@)
            ==> enum_id_seq(res@).contains(ffi.catalog.enums@[j].id@),
{
    let ghost cat = ffi.catalog;
    let ghost rs = records@;
    let ghost es = enums@;
    let mut adds: Vec<EnumId> = Vec::new();
    let ghost mut src: Seq<int> = Seq::empty();
    let ghost mut pos: Seq<int> = Seq::empty();
    let mut e: usize = 0;
    while e < ffi.catalog.enums.len()
        invariant
            cat == ffi.catalog,
            rs == records@,
            es == enums@,
            admission_walks_end(cat),
            e <= cat.enums@.len(),
            src.len() == adds@.len(),
            pos.len() == e,
            forall|k: int| 0 <= k < src.len() ==> 0 <= #[trigger] src[k] < e && cat.enums@[src[k]].id@ == enum_id_seq(adds@)[k]
                && !es.contains(cat.enums@[src[k]].id@) && data_enum_admissible(cat, cat.enums@[src[k]], rs, es),
            forall|j: int| 0 <= j < e && !es.contains(cat.enums@[j].id@) && data_enum_admissible(cat, cat.enums@[j], rs, es)
                ==> 0 <= #[trigger] pos[j] < adds@.len() && enum_id_seq(adds@)[pos[j]] == cat.enums@[j].id@,
        decreases ffi.catalog.enums.len() - e,
    {
        let en = &ffi.catalog.enums[e];
        assert(enum_walks_end(cat, cat.enums@[e as int]));
        let is_data = match &en.repr {
            EnumRepr::Data { .. } => true,
            EnumRepr::CStyle { .. } => false,
        };
        let ghost before = enum_id_seq(adds@);
        if is_data && !enums.contains(&en.id) && enum_variant_fields_supported(ffi, en, records, enums) {
            adds.push(en.id.clone());
            proof {
                assert(enum_id_seq(adds@) =~= before.push(en.id@));
                src = src.push(e as int);
                pos = pos.push(before.len() as int);
            }
        } else {
            proof {
                pos = pos.push(0);
            }
        }
        e = e + 1;
    }
    assert forall|k: int| #![trigger enum_id_seq(adds@)[k]] 0 <= k < adds@.len() implies {
        &&& !es.contains(enum_id_seq(adds@)[k])
        &&& admitted_enums(cat, rs, es).contains(enum_id_seq(adds@)[k])
        &&& enum_keys(cat.enums@).contains(enum_id_seq(adds@)[k])
    } by {
        let j = src[k];
        assert(enum_keys(cat.enums@)[j] == enum_id_seq(adds@)[k]);
        assert(data_enum_admissible(cat, cat.enums@[j], rs, es));
    }
    assert forall|j: int| 0 <= j < ffi.catalog.enums@.len() && !enums@.contains(ffi.catalog.enums@[j].id@)
        && data_enum_admissible(ffi.catalog, #[trigger] ffi.catalog.enums@[j], records@, enums@)
        implies enum_id_seq(adds@).contains(ffi.catalog.enums@[j].id@) by {
        assert(enum_id_seq(adds@)[pos[j]] == ffi.catalog.enums@[j].id@);
    }
    adds
}

/// Computes which records and enums the C# backend can render, jointly.
///
/// C-style enums whose backing type C# accepts seed the enum set. Each pass
/// then admits every record whose fields are all supported and every data
/// enum whose variants are, both judged against the sets as they stood when
/// the pass began, until a pass admits nothing new. Types that can only be
/// admitted through each other are never admitted.
pub(crate) fn compute_supported_sets(ffi: &FfiContract) -> (res: (RecordIdSet, EnumIdSet))
    requires
        admission_walks_end(ffi.catalog),
    ensures
        closed_under_admission(ffi.catalog, res.0@, res.1@),
        res.0@.subset_of(admitted_records(ffi.catalog, res.0@, res.1@)),
        res.1@.subset_of(seed_enums(ffi.catalog).union(admitted_enums(ffi.catalog, res.0@, res.1@))),
        forall|rs: Set<Seq<char>>, es: Set<Seq<char>>| closed_under_admission(ffi.catalog, rs, es)
            ==> res.0@.subset_of(rs) && res.1@.subset_of(es),
        res.0@ == admitted_records(ffi.catalog, res.0@, res.1@),
        res.1@ == seed_enums(ffi.catalog).union(admitted_enums(ffi.catalog, res.0@, res.1@)),
{
    let ghost cat = ffi.catalog;
    let mut enums = EnumIdSet::new();
    let mut i: usize = 0;
    while i < ffi.catalog.enums.len()
        invariant
            cat == ffi.catalog,
            i <= cat.enums@.len(),
            forall|id: Seq<char>| enums@.contains(id) <==> exists|j: int| 0 <= j < i && cat.enums@[j].id@ == id && seed_enum(cat.enums@[j]),
        decreases ffi.catalog.enums.len() - i,
    {
        let e = &ffi.catalog.enums[i];
        let seeded = match &e.repr {
            EnumRepr::CStyle { tag_type, .. } => is_legal_enum_backing(*tag_type),
            EnumRepr::Data { .. } => false,
        };
        if seeded {
            enums.insert(e.id.clone());
        }
        i = i + 1;
    }
    assert(enums@ =~= seed_enums(cat));
    let mut records = RecordIdSet::new();

    loop
        invariant
            cat == ffi.catalog,
            admission_walks_end(cat),
            seed_enums(cat).subset_of(enums@),
            records@.subset_of(admitted_records(cat, records@, enums@)),
            enums@.subset_of(seed_enums(cat).union(admitted_enums(cat, records@, enums@))),
            forall|rs: Set<Seq<char>>, es: Set<Seq<char>>| closed_under_admission(cat, rs, es)
                ==> records@.subset_of(rs) && enums@.subset_of(es),
        ensures
            closed_under_admission(cat, records@, enums@),
            records@.subset_of(admitted_records(cat, records@, enums@)),
            enums@.subset_of(seed_enums(cat).union(admitted_enums(cat, records@, enums@))),
            forall|rs: Set<Seq<char>>, es: Set<Seq<char>>| closed_under_admission(cat, rs, es)
                ==> records@.subset_of(rs) && enums@.subset_of(es),
        decreases missing_count(record_keys(cat.records@), records@)
            + missing_count(enum_keys(cat.enums@), enums@),
    {
        let ghost rs0 = records@;
        let ghost es0 = enums@;
        let record_additions = record_pass(ffi, &records, &enums);
        let enum_additions = enum_pass(ffi, &records, &enums);
        if record_additions.len() == 0 && enum_additions.len() == 0 {
            assert(admitted_records(cat, rs0, es0).subset_of(rs0)) by {
                assert forall|id: Seq<char>| admitted_records(cat, rs0, es0).contains(id) implies rs0.contains(id) by {
                    let j = choose|j: int| 0 <= j < cat.records@.len() && cat.records@[j].id@ == id && record_admissible(cat, cat.records@[j], rs0, es0);
                    if !rs0.contains(id) {
                        assert(record_admissible(cat, cat.records@[j], rs0, es0));
                    }
                }
            }
            assert(admitted_enums(cat, rs0, es0).subset_of(es0)) by {
                assert forall|id: Seq<char>| admitted_enums(cat, rs0, es0).contains(id) implies es0.contains(id) by {
                    let j = choose|j: int| 0 <= j < cat.enums@.len() && cat.enums@[j].id@ == id && data_enum_admissible(cat, cat.enums@[j], rs0, es0);
                    if !es0.contains(id) {
                        assert(data_enum_admissible(cat, cat.enums@[j], rs0, es0));
                    }
                }
            }
            break;
        }
        let ghost ra = record_id_seq(record_additions@);
        let ghost ea = enum_id_seq(enum_additions@);
        proof {
            lemma_additions_are_admissions(cat, rs0, es0, ra, ea);
        }
        extend_records(&mut records, record_additions);
        extend_enums(&mut enums, enum_additions);
        proof {
            lemma_pass_grows(cat, rs0, es0, records@, enums@, ra, ea);
        }
    }
    assert(records@ =~= admitted_records(cat, records@, enums@));
    assert(enums@ =~= seed_enums(cat).union(admitted_enums(cat, records@, enums@)));
    (records, enums)
}


/// Adds every id of `additions` to `set`.
fn extend_records(set: &mut RecordIdSet, additions: Vec<RecordId>)
    ensures
        final(set)@ == old(set)@.union(record_id_seq(additions@).to_set()),
{
    let ghost adds = record_id_seq(additions@);
    let mut rest = additions;
    let mut taken: Vec<RecordId> = Vec::new();
    let ghost start = set@;
    while rest.len() > 0
        invariant
            record_id_seq(taken@) + record_id_seq(rest@) == adds,
            set@ == start.union(record_id_seq(taken@).to_set()),
        decreases rest.len(),
    {
        let ghost before_rest = rest@;
        let ghost before_taken = record_id_seq(taken@);
        let id = rest.remove(0);
        let ghost v = id@;
        let id_copy = id.clone();
        set.insert(id);
        taken.push(id_copy);
        proof {
            assert(record_id_seq(taken@) =~= before_taken.push(v));
            before_taken.lemma_push_to_set_commute(v);
            assert(before_rest.map_values(|x: RecordId| x@) =~= seq![v] + record_id_seq(rest@));
            assert(record_id_seq(taken@) + record_id_seq(rest@) =~= adds);
            assert(set@ =~= start.union(record_id_seq(taken@).to_set()));
        }
    }
    assert(record_id_seq(taken@) =~= adds);
}

/// Adds every id of `additions` to `set`.
fn extend_enums(set: &mut EnumIdSet, additions: Vec<EnumId>)
    ensures
        final(set)@ == old(set)@.union(enum_id_seq(additions@).to_set()),
{
    let ghost adds = enum_id_seq(additions@);
    let mut rest = additions;
    let mut taken: Vec<EnumId> = Vec::new();
    let ghost start = set@;
    while rest.len() > 0
        invariant
            enum_id_seq(taken@) + enum_id_seq(rest@) == adds,
            set@ == start.union(enum_id_seq(taken@).to_set()),
        decreases rest.len(),
    {
        let ghost before_rest = rest@;
        let ghost before_taken = enum_id_seq(taken@);
        let id = rest.remove(0);
        let ghost v = id@;
        let id_copy = id.clone();
        set.insert(id);
        taken.push(id_copy);
        proof {
            assert(enum_id_seq(taken@) =~= before_taken.push(v));
            before_taken.lemma_push_to_set_commute(v);
            assert(before_rest.map_values(|x: EnumId| x@) =~= seq![v] + enum_id_seq(rest@));
            assert(enum_id_seq(taken@) + enum_id_seq(rest@) =~= adds);
            assert(set@ =~= start.union(enum_id_seq(taken@).to_set()));
        }
    }
    assert(enum_id_seq(taken@) =~= adds);
}

/// The additions of one pass, joined to the sets it started from, are
/// exactly those sets joined with everything admissible under them.
proof fn lemma_additions_are_admissions(
    cat: TypeCatalog,
    rs0: Set<Seq<char>>,
    es0: Set<Seq<char>>,
    ra: Seq<Seq<char>>,
    ea: Seq<Seq<char>>,
)
    requires
        forall|k: int| 0 <= k < ra.len() ==> admitted_records(cat, rs0, es0).contains(#[trigger] ra[k]),
        forall|k: int| 0 <= k < ea.len() ==> admitted_enums(cat, rs0, es0).contains(#[trigger] ea[k]),
        forall|j: int| 0 <= j < cat.records@.len() && !rs0.contains(cat.records@[j].id@) && record_admissible(cat, #[trigger] cat.records@[j], rs0, es0)
            ==> ra.contains(cat.records@[j].id@),
        forall|j: int| 0 <= j < cat.enums@.len() && !es0.contains(cat.enums@[j].id@) && data_enum_admissible(cat, #[trigger] cat.enums@[j], rs0, es0)
            ==> ea.contains(cat.enums@[j].id@),
    ensures
        rs0.union(ra.to_set()) == rs0.union(admitted_records(cat, rs0, es0)),
        es0.union(ea.to_set()) == es0.union(admitted_enums(cat, rs0, es0)),
{
    assert forall|id: Seq<char>| rs0.union(ra.to_set()).contains(id) <==> rs0.union(admitted_records(cat, rs0, es0)).contains(id) by {
        if ra.to_set().contains(id) {
            let k = choose|k: int| 0 <= k < ra.len() && ra[k] == id;
            assert(admitted_records(cat, rs0, es0).contains(ra[k]));
        }
        if admitted_records(cat, rs0, es0).contains(id) && !rs0.contains(id) {
            let j = choose|j: int| 0 <= j < cat.records@.len() && cat.records@[j].id@ == id && record_admissible(cat, cat.records@[j], rs0, es0);
            assert(ra.contains(cat.records@[j].id@));
        }
    }
    assert forall|id: Seq<char>| es0.union(ea.to_set()).contains(id) <==> es0.union(admitted_enums(cat, rs0, es0)).contains(id) by {
        if ea.to_set().contains(id) {
            let k = choose|k: int| 0 <= k < ea.len() && ea[k] == id;
            assert(admitted_enums(cat, rs0, es0).contains(ea[k]));
        }
        if admitted_enums(cat, rs0, es0).contains(id) && !es0.contains(id) {
            let j = choose|j: int| 0 <= j < cat.enums@.len() && cat.enums@[j].id@ == id && data_enum_admissible(cat, cat.enums@[j], rs0, es0);
            assert(ea.contains(cat.enums@[j].id@));
        }
    }
    assert(rs0.union(ra.to_set()) =~= rs0.union(admitted_records(cat, rs0, es0)));
    assert(es0.union(ea.to_set()) =~= es0.union(admitted_enums(cat, rs0, es0)));
}

/// Admission judged against larger sets admits more.
proof fn lemma_admitted_monotone(
    cat: TypeCatalog,
    rs: Set<Seq<char>>,
    es: Set<Seq<char>>,
    rs2: Set<Seq<char>>,
    es2: Set<Seq<char>>,
)
    requires
        rs.subset_of(rs2),
        es.subset_of(es2),
    ensures
        admitted_records(cat, rs, es).subset_of(admitted_records(cat, rs2, es2)),
        admitted_enums(cat, rs, es).subset_of(admitted_enums(cat, rs2, es2)),
{
    assert forall|id: Seq<char>| admitted_records(cat, rs, es).contains(id) implies admitted_records(cat, rs2, es2).contains(id) by {
        let j = choose|j: int| 0 <= j < cat.records@.len() && cat.records@[j].id@ == id && record_admissible(cat, cat.records@[j], rs, es);
        lemma_record_admissible_monotone(cat, cat.records@[j], rs, es, rs2, es2);
    }
    assert forall|id: Seq<char>| admitted_enums(cat, rs, es).contains(id) implies admitted_enums(cat, rs2, es2).contains(id) by {
        let j = choose|j: int| 0 <= j < cat.enums@.len() && cat.enums@[j].id@ == id && data_enum_admissible(cat, cat.enums@[j], rs, es);
        lemma_enum_admissible_monotone(cat, cat.enums@[j], rs, es, rs2, es2);
    }
}

/// One pass keeps every invariant of the admission loop and, when it adds
/// anything, leaves fewer catalog ids outside the sets.
proof fn lemma_pass_grows(
    cat: TypeCatalog,
    rs0: Set<Seq<char>>,
    es0: Set<Seq<char>>,
    rs1: Set<Seq<char>>,
    es1: Set<Seq<char>>,
    ra: Seq<Seq<char>>,
    ea: Seq<Seq<char>>,
)
    requires
        seed_enums(cat).subset_of(es0),
        rs0.subset_of(admitted_records(cat, rs0, es0)),
        es0.subset_of(seed_enums(cat).union(admitted_enums(cat, rs0, es0))),
        forall|rs: Set<Seq<char>>, es: Set<Seq<char>>| closed_under_admission(cat, rs, es)
            ==> rs0.subset_of(rs) && es0.subset_of(es),
        rs1 == rs0.union(ra.to_set()),
        es1 == es0.union(ea.to_set()),
        rs0.union(ra.to_set()) == rs0.union(admitted_records(cat, rs0, es0)),
        es0.union(ea.to_set()) == es0.union(admitted_enums(cat, rs0, es0)),
        ra.len() > 0 || ea.len() > 0,
        forall|k: int| 0 <= k < ra.len() ==> !rs0.contains(#[trigger] ra[k]) && record_keys(cat.records@).contains(ra[k]),
        forall|k: int| 0 <= k < ea.len() ==> !es0.contains(#[trigger] ea[k]) && enum_keys(cat.enums@).contains(ea[k]),
    ensures
        seed_enums(cat).subset_of(es1),
        rs1.subset_of(admitted_records(cat, rs1, es1)),
        es1.subset_of(seed_enums(cat).union(admitted_enums(cat, rs1, es1))),
        forall|rs: Set<Seq<char>>, es: Set<Seq<char>>| closed_under_admission(cat, rs, es)
            ==> rs1.subset_of(rs) && es1.subset_of(es),
        missing_count(record_keys(cat.records@), rs1) + missing_count(enum_keys(cat.enums@), es1)
            < missing_count(record_keys(cat.records@), rs0) + missing_count(enum_keys(cat.enums@), es0),
{
    assert(rs0.subset_of(rs1));
    assert(es0.subset_of(es1));
    lemma_admitted_monotone(cat, rs0, es0, rs1, es1);
    assert forall|rs: Set<Seq<char>>, es: Set<Seq<char>>| closed_under_admission(cat, rs, es)
        implies rs1.subset_of(rs) && es1.subset_of(es) by {
        lemma_admitted_monotone(cat, rs0, es0, rs, es);
        assert(rs1 =~= rs0.union(admitted_records(cat, rs0, es0)));
        assert(es1 =~= es0.union(admitted_enums(cat, rs0, es0)));
    }
    assert(rs1 =~= rs0.union(admitted_records(cat, rs0, es0)));
    assert(es1 =~= es0.union(admitted_enums(cat, rs0, es0)));
    let rkeys = record_keys(cat.records@);
    let ekeys = enum_keys(cat.enums@);
    lemma_missing_count_shrinks(rkeys, rs0, rs1);
    lemma_missing_count_shrinks(ekeys, es0, es1);
    if ra.len() > 0 {
        assert(!rs0.contains(ra[0]) && rkeys.contains(ra[0]));
        let j = choose|j: int| 0 <= j < rkeys.len() && rkeys[j] == ra[0];
        assert(ra.to_set().contains(ra[0]));
        assert(!rs0.contains(rkeys[j]) && rs1.contains(rkeys[j]));
    } else {
        assert(!es0.contains(ea[0]) && ekeys.contains(ea[0]));
        let j = choose|j: int| 0 <= j < ekeys.len() && ekeys[j] == ea[0];
        assert(ea.to_set().contains(ea[0]));
        assert(!es0.contains(ekeys[j]) && es1.contains(ekeys[j]));
    }
}

/// Number of `keys` entries not in `s`.
pub open spec fn missing_count(keys: Seq<Seq<char>>, s: Set<Seq<char>>) -> nat
    decreases keys.len(),
{
    if keys.len() == 0 {
        0
    } else {
        missing_count(keys.drop_last(), s) + if s.contains(keys.last()) { 0nat } else { 1nat }
    }
}

pub proof fn lemma_missing_count_shrinks(keys: Seq<Seq<char>>, s: Set<Seq<char>>, t: Set<Seq<char>>)
    requires
        s.subset_of(t),
    ensures
        missing_count(keys, t) <= missing_count(keys, s),
        (exists|i: int| 0 <= i < keys.len() && !s.contains(keys[i]) && t.contains(keys[i]))
            ==> missing_count(keys, t) < missing_count(keys, s),
    decreases keys.len(),
{
    if keys.len() > 0 {
        lemma_missing_count_shrinks(keys.drop_last(), s, t);
        if exists|i: int| 0 <= i < keys.len() && !s.contains(keys[i]) && t.contains(keys[i]) {
            let i = choose|i: int| 0 <= i < keys.len() && !s.contains(keys[i]) && t.contains(keys[i]);
            if i < keys.len() - 1 {
                assert(keys.drop_last()[i] == keys[i]);
            }
        }
    }
}

/// Records that can only be admitted through one another are never
/// supported: when every declaration of a record in `cycle` has a field
/// that names a record of `cycle` directly, the least sets closed under
/// admission hold none of them.
pub proof fn lemma_record_cycle_not_supported(cat: TypeCatalog, rs: Set<Seq<char>>, es: Set<Seq<char>>, cycle: Set<Seq<char>>)
    requires
        closed_under_admission(cat, rs, es),
        forall|rs2: Set<Seq<char>>, es2: Set<Seq<char>>| closed_under_admission(cat, rs2, es2) ==> rs.subset_of(rs2) && es.subset_of(es2),
        forall|i: int| 0 <= i < cat.records@.len() && cycle.contains(#[trigger] cat.records@[i].id@) ==> exists|j: int|
            0 <= j < cat.records@[i].fields@.len() && (#[trigger] cat.records@[i].fields@[j].type_expr matches TypeExpr::Record(id)
                && cycle.contains(id@)),
    ensures
        forall|id: Seq<char>| cycle.contains(id) ==> !rs.contains(id),
{
    let c = rs.difference(cycle);
    assert(admitted_records(cat, c, es).subset_of(c)) by {
        assert forall|id: Seq<char>| admitted_records(cat, c, es).contains(id) implies c.contains(id) by {
            let i = choose|i: int| 0 <= i < cat.records@.len() && cat.records@[i].id@ == id && record_admissible(cat, cat.records@[i], c, es);
            lemma_record_admissible_monotone(cat, cat.records@[i], c, es, rs, es);
            assert(admitted_records(cat, rs, es).contains(id));
            if cycle.contains(id) {
                let j = choose|j: int|
                    0 <= j < cat.records@[i].fields@.len() && (#[trigger] cat.records@[i].fields@[j].type_expr matches TypeExpr::Record(rid)
                        && cycle.contains(rid@));
                assert(field_supported(cat, cat.records@[i].fields@[j].type_expr, c, es, custom_depth(cat)));
            }
        }
    }
    assert(admitted_enums(cat, c, es).subset_of(es)) by {
        assert forall|id: Seq<char>| admitted_enums(cat, c, es).contains(id) implies es.contains(id) by {
            let i = choose|i: int| 0 <= i < cat.enums@.len() && cat.enums@[i].id@ == id && data_enum_admissible(cat, cat.enums@[i], c, es);
            lemma_enum_admissible_monotone(cat, cat.enums@[i], c, es, rs, es);
            assert(admitted_enums(cat, rs, es).contains(id));
        }
    }
    assert(closed_under_admission(cat, c, es));
    assert(rs.subset_of(c));
}

/// Every C-style enum whose tag is an integer of 8 to 64 bits (`i8` to
/// `u64`) is among the supported enums of any pair closed under admission,
/// the least one included.
pub proof fn lemma_integer_c_style_enums_supported(cat: TypeCatalog, rs: Set<Seq<char>>, es: Set<Seq<char>>)
    requires
        closed_under_admission(cat, rs, es),
    ensures
        forall|i: int|
            0 <= i < cat.enums@.len() && ((#[trigger] cat.enums@[i]).repr matches EnumRepr::CStyle { tag_type, .. } && fixed_width_integer(tag_type)) ==> es.contains(cat.enums@[i].id@),
{
    assert forall|i: int|
        0 <= i < cat.enums@.len() && ((#[trigger] cat.enums@[i]).repr matches EnumRepr::CStyle { tag_type, .. } && fixed_width_integer(tag_type)) implies es.contains(cat.enums@[i].id@) by {
        assert(seed_enum(cat.enums@[i]));
        assert(seed_enums(cat).contains(cat.enums@[i].id@));
    }
}

/// A primitive can back a C# enum exactly when it lowers to one of the
/// integral types C# allows under an enum: `byte`, `sbyte`, `short`,
/// `ushort`, `int`, `uint`, `long`, `ulong`.
pub proof fn lemma_enum_backing_is_csharp_integral(p: PrimitiveType)
    ensures
        legal_enum_backing(p) <==> {
            let t = crate::csharp_lowerer::csharp_primitive(p);
            t is Byte || t is SByte || t is Short || t is UShort || t is Int || t is UInt || t is Long || t is ULong
        },
{
}

} // verus!
