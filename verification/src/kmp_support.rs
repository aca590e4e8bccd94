//! Which declarations the Kotlin Multiplatform surface can expose.
//!
//! The common surface carries primitives, strings, bytes, lists and
//! options of supported types, C-style enums that are not errors, and the
//! records and custom types built from those. Records and custom types can
//! refer to each other, so each set is the least one closed under its rule:
//! a declaration joins once every type it mentions is supported.

use vstd::prelude::*;
use vstd::string::*;

use crate::csharp_admission::{lemma_missing_count_shrinks, missing_count};
use crate::custom_chains::{custom_fuel_ok, walks};
use crate::defs::{custom_keys, lemma_first_index_at, record_keys, EnumRepr, FfiContract, FunctionDef, RecordDef, ReturnDef, TypeCatalog};
use crate::id_sets::NameSet;
use crate::types::TypeExpr;

verus! {

/// Whether `ty` can appear on the common surface given the supported
/// records `rs`, enums `es` and custom types `cs`.
pub open spec fn kmp_type_ok(ty: TypeExpr, rs: Set<Seq<char>>, es: Set<Seq<char>>, cs: Set<Seq<char>>) -> bool
    decreases ty,
{
    match ty {
        TypeExpr::Void | TypeExpr::Primitive(_) | TypeExpr::String | TypeExpr::Bytes => true,
        TypeExpr::Vec(inner) => kmp_type_ok(*inner, rs, es, cs),
        TypeExpr::Option(inner) => kmp_type_ok(*inner, rs, es, cs),
        TypeExpr::Record(id) => rs.contains(id@),
        TypeExpr::Enum(id) => es.contains(id@),
        TypeExpr::Custom(id) => cs.contains(id@),
        _ => false,
    }
}

/// Support only grows with the sets it is judged against.
pub proof fn lemma_kmp_type_ok_monotone(
    ty: TypeExpr,
    rs: Set<Seq<char>>,
    es: Set<Seq<char>>,
    cs: Set<Seq<char>>,
    rs2: Set<Seq<char>>,
    cs2: Set<Seq<char>>,
)
    requires
        kmp_type_ok(ty, rs, es, cs),
        rs.subset_of(rs2),
        cs.subset_of(cs2),
    ensures
        kmp_type_ok(ty, rs2, es, cs2),
    decreases ty,
{
    match ty {
        TypeExpr::Vec(inner) => lemma_kmp_type_ok_monotone(*inner, rs, es, cs, rs2, cs2),
        TypeExpr::Option(inner) => lemma_kmp_type_ok_monotone(*inner, rs, es, cs, rs2, cs2),
        _ => {},
    }
}

/// The C-style enums that are not errors.
pub open spec fn kmp_enum_set(cat: TypeCatalog) -> Set<Seq<char>> {
    Set::new(
        |id: Seq<char>|
            exists|i: int| 0 <= i < cat.enums@.len() && cat.enums@[i].id@ == id && !cat.enums@[i].is_error && cat.enums@[i].repr is CStyle,
    )
}

/// `cs` holds every custom type whose representation is supported under
/// `rs`, `es` and `cs` itself.
pub open spec fn customs_closed(cat: TypeCatalog, rs: Set<Seq<char>>, es: Set<Seq<char>>, cs: Set<Seq<char>>) -> bool {
    forall|i: int| 0 <= i < cat.customs@.len() && kmp_type_ok(#[trigger] cat.customs@[i].repr, rs, es, cs) ==> cs.contains(cat.customs@[i].id@)
}

/// The least set of custom types closed under support.
pub open spec fn least_customs(cat: TypeCatalog, rs: Set<Seq<char>>, es: Set<Seq<char>>) -> Set<Seq<char>> {
    Set::new(|id: Seq<char>| forall|cs: Set<Seq<char>>| #[trigger] customs_closed(cat, rs, es, cs) ==> cs.contains(id))
}

/// A set closed for more records is closed for fewer.
pub proof fn lemma_customs_closed_antitone(cat: TypeCatalog, rs: Set<Seq<char>>, rs2: Set<Seq<char>>, es: Set<Seq<char>>, cs: Set<Seq<char>>)
    requires
        rs.subset_of(rs2),
        customs_closed(cat, rs2, es, cs),
    ensures
        customs_closed(cat, rs, es, cs),
{
    assert forall|i: int| 0 <= i < cat.customs@.len() && kmp_type_ok(#[trigger] cat.customs@[i].repr, rs, es, cs) implies cs.contains(
        cat.customs@[i].id@,
    ) by {
        lemma_kmp_type_ok_monotone(cat.customs@[i].repr, rs, es, cs, rs2, cs);
    }
}

/// More supported records support more custom types.
pub proof fn lemma_least_customs_monotone(cat: TypeCatalog, rs: Set<Seq<char>>, rs2: Set<Seq<char>>, es: Set<Seq<char>>)
    requires
        rs.subset_of(rs2),
    ensures
        least_customs(cat, rs, es).subset_of(least_customs(cat, rs2, es)),
{
    assert forall|id: Seq<char>| least_customs(cat, rs, es).contains(id) implies least_customs(cat, rs2, es).contains(id) by {
        assert forall|cs: Set<Seq<char>>| #[trigger] customs_closed(cat, rs2, es, cs) implies cs.contains(id) by {
            lemma_customs_closed_antitone(cat, rs, rs2, es, cs);
        }
    }
}

/// Whether every field of a record is supported under `rs` and `es`, with
/// the custom types those support.
pub open spec fn record_fields_ok(cat: TypeCatalog, r: RecordDef, rs: Set<Seq<char>>, es: Set<Seq<char>>) -> bool {
    forall|j: int| 0 <= j < r.fields@.len() ==> kmp_type_ok(#[trigger] r.fields@[j].type_expr, rs, es, least_customs(cat, rs, es))
}

/// `rs` holds every record whose fields are supported under `rs` itself.
pub open spec fn records_closed(cat: TypeCatalog, es: Set<Seq<char>>, rs: Set<Seq<char>>) -> bool {
    forall|i: int| 0 <= i < cat.records@.len() && record_fields_ok(cat, #[trigger] cat.records@[i], rs, es) ==> rs.contains(cat.records@[i].id@)
}

/// The least set of records closed under support.
pub open spec fn least_records(cat: TypeCatalog, es: Set<Seq<char>>) -> Set<Seq<char>> {
    Set::new(|id: Seq<char>| forall|rs: Set<Seq<char>>| #[trigger] records_closed(cat, es, rs) ==> rs.contains(id))
}

/// No two custom types of the catalog share an id.
pub open spec fn custom_ids_distinct(cat: TypeCatalog) -> bool {
    forall|i: int, j: int| 0 <= i < j < cat.customs@.len() ==> (#[trigger] cat.customs@[i]).id@ != (#[trigger] cat.customs@[j]).id@
}

/// `fuel` unfolds the representation of the custom type named `id`; an id
/// the catalog does not declare needs none.
pub open spec fn id_fuel_ok(cat: TypeCatalog, id: Seq<char>, fuel: nat) -> bool {
    let k = cat.custom_index(id);
    k < 0 || (0 <= k < cat.customs@.len() && custom_fuel_ok(cat, cat.customs@[k].repr, fuel))
}

/// Some fuel unfolds the custom type named `id` and everything its
/// representation reaches.
pub open spec fn id_walks(cat: TypeCatalog, id: Seq<char>) -> bool {
    exists|fuel: nat| #[trigger] id_fuel_ok(cat, id, fuel)
}

/// The ids of the custom types whose walk ends.
pub open spec fn walking_customs(cat: TypeCatalog) -> Set<Seq<char>> {
    Set::new(|id: Seq<char>| id_walks(cat, id))
}

proof fn lemma_ok_under_walking_walks(cat: TypeCatalog, ty: TypeExpr, rs: Set<Seq<char>>, es: Set<Seq<char>>)
    requires
        kmp_type_ok(ty, rs, es, walking_customs(cat)),
    ensures
        walks(cat, ty),
    decreases ty,
{
    match ty {
        TypeExpr::Custom(id) => {
            assert(id_walks(cat, id@));
            let k = cat.custom_index(id@);
            if k < 0 {
                assert(custom_fuel_ok(cat, ty, 0));
            } else {
                let f = choose|fuel: nat| #[trigger] id_fuel_ok(cat, id@, fuel);
                assert(custom_fuel_ok(cat, ty, f + 1));
            }
        },
        TypeExpr::Vec(inner) => {
            lemma_ok_under_walking_walks(cat, *inner, rs, es);
            let f = choose|fuel: nat| custom_fuel_ok(cat, *inner, fuel);
            assert(custom_fuel_ok(cat, ty, f));
        },
        TypeExpr::Option(inner) => {
            lemma_ok_under_walking_walks(cat, *inner, rs, es);
            let f = choose|fuel: nat| custom_fuel_ok(cat, *inner, fuel);
            assert(custom_fuel_ok(cat, ty, f));
        },
        _ => {
            assert(custom_fuel_ok(cat, ty, 0));
        },
    }
}

proof fn lemma_walking_customs_closed(cat: TypeCatalog, rs: Set<Seq<char>>, es: Set<Seq<char>>)
    requires
        custom_ids_distinct(cat),
    ensures
        customs_closed(cat, rs, es, walking_customs(cat)),
{
    assert forall|i: int| 0 <= i < cat.customs@.len() && kmp_type_ok(#[trigger] cat.customs@[i].repr, rs, es, walking_customs(cat)) implies walking_customs(
        cat,
    ).contains(cat.customs@[i].id@) by {
        let keys = custom_keys(cat.customs@);
        assert forall|j: int| 0 <= j < i implies keys[j] != cat.customs@[i].id@ by {
            assert(cat.customs@[j].id@ != cat.customs@[i].id@);
        }
        lemma_first_index_at(keys, cat.customs@[i].id@, i);
        lemma_ok_under_walking_walks(cat, cat.customs@[i].repr, rs, es);
        let f = choose|fuel: nat| custom_fuel_ok(cat, cat.customs@[i].repr, fuel);
        assert(id_fuel_ok(cat, cat.customs@[i].id@, f));
        assert(id_walks(cat, cat.customs@[i].id@));
    }
}

/// With custom ids distinct, every type the common surface supports walks
/// through the catalog to an end: a supported custom type never reaches a
/// cycle of custom types.
pub proof fn lemma_supported_types_walk(cat: TypeCatalog, rs: Set<Seq<char>>, es: Set<Seq<char>>, ty: TypeExpr)
    requires
        custom_ids_distinct(cat),
        kmp_type_ok(ty, rs, es, least_customs(cat, rs, es)),
    ensures
        walks(cat, ty),
{
    lemma_walking_customs_closed(cat, rs, es);
    assert(least_customs(cat, rs, es).subset_of(walking_customs(cat)));
    lemma_kmp_type_ok_monotone(ty, rs, es, least_customs(cat, rs, es), rs, walking_customs(cat));
    lemma_ok_under_walking_walks(cat, ty, rs, es);
}

/// No two records of the catalog share an id.
pub open spec fn record_ids_distinct(cat: TypeCatalog) -> bool {
    forall|i: int, j: int| 0 <= i < j < cat.records@.len() ==> (#[trigger] cat.records@[i]).id@ != (#[trigger] cat.records@[j]).id@
}

/// No two enums of the catalog share an id.
pub open spec fn enum_ids_distinct(cat: TypeCatalog) -> bool {
    forall|i: int, j: int| 0 <= i < j < cat.enums@.len() ==> (#[trigger] cat.enums@[i]).id@ != (#[trigger] cat.enums@[j]).id@
}

/// A record's fields stay supported when more records are.
pub proof fn lemma_record_fields_ok_monotone(cat: TypeCatalog, r: RecordDef, rs: Set<Seq<char>>, rs2: Set<Seq<char>>, es: Set<Seq<char>>)
    requires
        record_fields_ok(cat, r, rs, es),
        rs.subset_of(rs2),
    ensures
        record_fields_ok(cat, r, rs2, es),
{
    lemma_least_customs_monotone(cat, rs, rs2, es);
    assert forall|j: int| 0 <= j < r.fields@.len() implies kmp_type_ok(
        #[trigger] r.fields@[j].type_expr,
        rs2,
        es,
        least_customs(cat, rs2, es),
    ) by {
        lemma_kmp_type_ok_monotone(r.fields@[j].type_expr, rs, es, least_customs(cat, rs, es), rs2, least_customs(cat, rs2, es));
    }
}

/// The least set of supported records is itself closed under support.
pub proof fn lemma_least_records_closed(cat: TypeCatalog, es: Set<Seq<char>>)
    ensures
        records_closed(cat, es, least_records(cat, es)),
{
    let least = least_records(cat, es);
    assert forall|i: int| 0 <= i < cat.records@.len() && record_fields_ok(cat, #[trigger] cat.records@[i], least, es) implies least.contains(
        cat.records@[i].id@,
    ) by {
        assert forall|rs: Set<Seq<char>>| #[trigger] records_closed(cat, es, rs) implies rs.contains(cat.records@[i].id@) by {
            assert(least.subset_of(rs));
            lemma_record_fields_ok_monotone(cat, cat.records@[i], least, rs, es);
        }
    }
}

/// The supported records whose own fields are supported.
pub open spec fn justified_records(cat: TypeCatalog, es: Set<Seq<char>>) -> Set<Seq<char>> {
    Set::new(
        |id: Seq<char>|
            least_records(cat, es).contains(id) && exists|i: int|
                0 <= i < cat.records@.len() && cat.records@[i].id@ == id && #[trigger] record_fields_ok(
                    cat,
                    cat.records@[i],
                    least_records(cat, es),
                    es,
                ),
    )
}

/// With record ids distinct, every supported record has all its fields
/// supported by the supported records and enums.
pub proof fn lemma_supported_record_fields(cat: TypeCatalog, es: Set<Seq<char>>, i: int)
    requires
        record_ids_distinct(cat),
        0 <= i < cat.records@.len(),
        least_records(cat, es).contains(cat.records@[i].id@),
    ensures
        record_fields_ok(cat, cat.records@[i], least_records(cat, es), es),
{
    let least = least_records(cat, es);
    let justified = justified_records(cat, es);
    lemma_least_records_closed(cat, es);
    assert(records_closed(cat, es, justified)) by {
        assert forall|k: int| 0 <= k < cat.records@.len() && record_fields_ok(cat, #[trigger] cat.records@[k], justified, es) implies justified.contains(
            cat.records@[k].id@,
        ) by {
            assert(justified.subset_of(least));
            lemma_record_fields_ok_monotone(cat, cat.records@[k], justified, least, es);
            assert(least.contains(cat.records@[k].id@));
        }
    }
    assert(justified.contains(cat.records@[i].id@));
    let j = choose|j: int|
        0 <= j < cat.records@.len() && cat.records@[j].id@ == cat.records@[i].id@ && #[trigger] record_fields_ok(
            cat,
            cat.records@[j],
            least,
            es,
        );
    if j < i {
        assert(cat.records@[j].id@ != cat.records@[i].id@);
    } else if i < j {
        assert(cat.records@[i].id@ != cat.records@[j].id@);
    }
}

/// Whether `ty` can appear on the common surface; see [`kmp_type_ok`].
pub fn type_supported_with_sets(ty: &TypeExpr, records: &NameSet, enums: &NameSet, custom_types: &NameSet) -> (res: bool)
    ensures
        res == kmp_type_ok(*ty, records@, enums@, custom_types@),
    decreases ty,
{
    match ty {
        TypeExpr::Void | TypeExpr::Primitive(_) | TypeExpr::String | TypeExpr::Bytes => true,
        TypeExpr::Vec(inner) => type_supported_with_sets(inner, records, enums, custom_types),
        TypeExpr::Option(inner) => type_supported_with_sets(inner, records, enums, custom_types),
        TypeExpr::Record(id) => records.contains(id.as_str()),
        TypeExpr::Enum(id) => enums.contains(id.as_str()),
        TypeExpr::Custom(id) => custom_types.contains(id.as_str()),
        _ => false,
    }
}

/// The C-style enums that are not errors.
pub fn supported_c_style_enums(contract: &FfiContract) -> (res: NameSet)
    ensures
        res@ == kmp_enum_set(contract.catalog),
{
    let ghost cat = contract.catalog;
    let mut set = NameSet::new();
    let mut i: usize = 0;
    while i < contract.catalog.enums.len()
        invariant
            cat == contract.catalog,
            i <= cat.enums@.len(),
            forall|id: Seq<char>| set@.contains(id) <==> exists|j: int| 0 <= j < i && cat.enums@[j].id@ == id && !cat.enums@[j].is_error
                && cat.enums@[j].repr is CStyle,
        decreases contract.catalog.enums.len() - i,
    {
        let e = &contract.catalog.enums[i];
        let is_c_style = match &e.repr {
            EnumRepr::CStyle { .. } => true,
            EnumRepr::Data { .. } => false,
        };
        if !e.is_error && is_c_style {
            set.insert(e.id.0.clone());
        }
        i = i + 1;
    }
    assert(set@ =~= kmp_enum_set(cat));
    set
}

/// The custom types the common surface supports given the supported
/// records and enums: the least set closed under support.
pub fn supported_custom_types(contract: &FfiContract, records: &NameSet, enums: &NameSet) -> (res: NameSet)
    ensures
        res@ == least_customs(contract.catalog, records@, enums@),
{
    let ghost cat = contract.catalog;
    let ghost rs = records@;
    let ghost es = enums@;
    let mut supported = NameSet::new();
    loop
        invariant
            cat == contract.catalog,
            rs == records@,
            es == enums@,
            forall|cs: Set<Seq<char>>| #[trigger] customs_closed(cat, rs, es, cs) ==> supported@.subset_of(cs),
            supported@.subset_of(custom_keys(cat.customs@).to_set()),
        decreases missing_count(custom_keys(cat.customs@), supported@),
    {
        let ghost before = supported@;
        let mut added = false;
        let mut i: usize = 0;
        while i < contract.catalog.customs.len()
            invariant
                cat == contract.catalog,
                rs == records@,
                es == enums@,
                i <= cat.customs@.len(),
                before.subset_of(supported@),
                forall|cs: Set<Seq<char>>| #[trigger] customs_closed(cat, rs, es, cs) ==> supported@.subset_of(cs),
                supported@.subset_of(custom_keys(cat.customs@).to_set()),
                !added ==> supported@ == before,
                added ==> exists|k: int| 0 <= k < cat.customs@.len() && !before.contains(custom_keys(cat.customs@)[k]) && supported@.contains(
                    custom_keys(cat.customs@)[k],
                ),
                !added ==> forall|j: int| 0 <= j < i && kmp_type_ok(#[trigger] cat.customs@[j].repr, rs, es, supported@) ==> supported@.contains(
                    cat.customs@[j].id@,
                ),
            decreases contract.catalog.customs.len() - i,
        {
            let custom = &contract.catalog.customs[i];
            if type_supported_with_sets(&custom.repr, records, enums, &supported) && !supported.contains(custom.id.as_str()) {
                let ghost s0 = supported@;
                proof {
                    assert forall|cs: Set<Seq<char>>| #[trigger] customs_closed(cat, rs, es, cs) implies s0.insert(custom.id@).subset_of(cs) by {
                        lemma_kmp_type_ok_monotone(custom.repr, rs, es, s0, rs, cs);
                    }
                    assert(custom_keys(cat.customs@)[i as int] == custom.id@);
                }
                supported.insert(custom.id.0.clone());
                added = true;
            }
            i = i + 1;
        }
        if !added {
            proof {
                assert(customs_closed(cat, rs, es, supported@));
                assert(supported@ =~= least_customs(cat, rs, es)) by {
                    assert forall|id: Seq<char>| least_customs(cat, rs, es).contains(id) implies supported@.contains(id) by {
                        assert(customs_closed(cat, rs, es, supported@));
                    }
                }
            }
            return supported;
        }
        proof {
            lemma_missing_count_shrinks(custom_keys(cat.customs@), before, supported@);
        }
    }
}

/// The records the common surface supports: the least set closed under
/// support, judged with the C-style enums that are not errors.
pub fn supported_records(contract: &FfiContract) -> (res: NameSet)
    ensures
        res@ == least_records(contract.catalog, kmp_enum_set(contract.catalog)),
{
    let ghost cat = contract.catalog;
    let enums = supported_c_style_enums(contract);
    let ghost es = enums@;
    let mut supported = NameSet::new();
    loop
        invariant
            cat == contract.catalog,
            es == enums@,
            es == kmp_enum_set(cat),
            forall|rs: Set<Seq<char>>| #[trigger] records_closed(cat, es, rs) ==> supported@.subset_of(rs),
            supported@.subset_of(record_keys(cat.records@).to_set()),
        decreases missing_count(record_keys(cat.records@), supported@),
    {
        let ghost before = supported@;
        let mut added = false;
        let mut i: usize = 0;
        while i < contract.catalog.records.len()
            invariant
                cat == contract.catalog,
                es == enums@,
                i <= cat.records@.len(),
                before.subset_of(supported@),
                forall|rs: Set<Seq<char>>| #[trigger] records_closed(cat, es, rs) ==> supported@.subset_of(rs),
                supported@.subset_of(record_keys(cat.records@).to_set()),
                !added ==> supported@ == before,
                added ==> exists|k: int| 0 <= k < cat.records@.len() && !before.contains(record_keys(cat.records@)[k]) && supported@.contains(
                    record_keys(cat.records@)[k],
                ),
                !added ==> forall|j: int| 0 <= j < i && record_fields_ok(cat, #[trigger] cat.records@[j], supported@, es) ==> supported@.contains(
                    cat.records@[j].id@,
                ),
            decreases contract.catalog.records.len() - i,
        {
            let record = &contract.catalog.records[i];
            let ok = record_supported(contract, record, &supported, &enums);
            if ok && !supported.contains(record.id.as_str()) {
                let ghost s0 = supported@;
                proof {
                    assert forall|rs: Set<Seq<char>>| #[trigger] records_closed(cat, es, rs) implies s0.insert(record.id@).subset_of(rs) by {
                        lemma_least_customs_monotone(cat, s0, rs, es);
                        assert forall|j: int| 0 <= j < record.fields@.len() implies kmp_type_ok(
                            #[trigger] record.fields@[j].type_expr,
                            rs,
                            es,
                            least_customs(cat, rs, es),
                        ) by {
                            lemma_kmp_type_ok_monotone(
                                record.fields@[j].type_expr,
                                s0,
                                es,
                                least_customs(cat, s0, es),
                                rs,
                                least_customs(cat, rs, es),
                            );
                        }
                        assert(record_fields_ok(cat, cat.records@[i as int], rs, es));
                    }
                    assert(record_keys(cat.records@)[i as int] == record.id@);
                }
                supported.insert(record.id.0.clone());
                added = true;
            }
            i = i + 1;
        }
        if !added {
            proof {
                assert(records_closed(cat, es, supported@));
                assert(supported@ =~= least_records(cat, es)) by {
                    assert forall|id: Seq<char>| least_records(cat, es).contains(id) implies supported@.contains(id) by {
                        assert(records_closed(cat, es, supported@));
                    }
                }
            }
            return supported;
        }
        proof {
            lemma_missing_count_shrinks(record_keys(cat.records@), before, supported@);
        }
    }
}

/// Whether every field of `record` is supported under the current sets.
fn record_supported(contract: &FfiContract, record: &RecordDef, records: &NameSet, enums: &NameSet) -> (res: bool)
    ensures
        res == record_fields_ok(contract.catalog, *record, records@, enums@),
{
    let mut j: usize = 0;
    while j < record.fields.len()
        invariant
            j <= record.fields@.len(),
            forall|k: int| 0 <= k < j ==> kmp_type_ok(
                #[trigger] record.fields@[k].type_expr,
                records@,
                enums@,
                least_customs(contract.catalog, records@, enums@),
            ),
        decreases record.fields.len() - j,
    {
        let custom_types = supported_custom_types(contract, records, enums);
        if !type_supported_with_sets(&record.fields[j].type_expr, records, enums, &custom_types) {
            return false;
        }
        j = j + 1;
    }
    true
}

/// What the common surface supports for one contract.
pub struct KmpSurfaceSupport {
    pub records: NameSet,
    pub enums: NameSet,
    pub custom_types: NameSet,
}

impl KmpSurfaceSupport {
    /// The supported records, enums and custom types of `contract`.
    pub fn for_contract(contract: &FfiContract) -> (res: Self)
        ensures
            res.enums@ == kmp_enum_set(contract.catalog),
            res.records@ == least_records(contract.catalog, kmp_enum_set(contract.catalog)),
            res.custom_types@ == least_customs(contract.catalog, res.records@, res.enums@),
    {
        let records = supported_records(contract);
        let enums = supported_c_style_enums(contract);
        let custom_types = supported_custom_types(contract, &records, &enums);
        KmpSurfaceSupport { records, enums, custom_types }
    }

    /// Whether `ty` can appear on the common surface.
    pub fn type_supported(&self, ty: &TypeExpr) -> (res: bool)
        ensures
            res == kmp_type_ok(*ty, self.records@, self.enums@, self.custom_types@),
    {
        type_supported_with_sets(ty, &self.records, &self.enums, &self.custom_types)
    }
}

/// Whether a return is supported under the given sets: nothing, or a
/// supported value; a result is not.
pub open spec fn return_ok_in(r: ReturnDef, rs: Set<Seq<char>>, es: Set<Seq<char>>, cs: Set<Seq<char>>) -> bool {
    match r {
        ReturnDef::Void => true,
        ReturnDef::Value(ty) => kmp_type_ok(ty, rs, es, cs),
        ReturnDef::Result { .. } => false,
    }
}

/// Whether a function can be exposed under the given sets: its return and
/// every parameter are supported.
pub open spec fn function_ok_in(f: FunctionDef, rs: Set<Seq<char>>, es: Set<Seq<char>>, cs: Set<Seq<char>>) -> bool {
    &&& return_ok_in(f.returns, rs, es, cs)
    &&& forall|i: int| 0 <= i < f.params@.len() ==> kmp_type_ok(#[trigger] f.params@[i].type_expr, rs, es, cs)
}

/// Whether a return is supported by `s`; see [`return_ok_in`].
pub open spec fn kmp_return_ok(r: ReturnDef, s: KmpSurfaceSupport) -> bool {
    return_ok_in(r, s.records@, s.enums@, s.custom_types@)
}

/// Whether a function is supported by `s`; see [`function_ok_in`].
pub open spec fn kmp_function_ok(f: FunctionDef, s: KmpSurfaceSupport) -> bool {
    function_ok_in(f, s.records@, s.enums@, s.custom_types@)
}

/// Whether a return is supported; see [`kmp_return_ok`].
pub fn return_supported(returns_def: &ReturnDef, support: &KmpSurfaceSupport) -> (res: bool)
    ensures
        res == kmp_return_ok(*returns_def, *support),
{
    match returns_def {
        ReturnDef::Void => true,
        ReturnDef::Value(ty) => support.type_supported(ty),
        ReturnDef::Result { .. } => false,
    }
}

/// Whether a function can be exposed; see [`kmp_function_ok`].
pub fn function_supported(function: &FunctionDef, support: &KmpSurfaceSupport) -> (res: bool)
    ensures
        res == kmp_function_ok(*function, *support),
{
    if !return_supported(&function.returns, support) {
        return false;
    }
    let mut i: usize = 0;
    while i < function.params.len()
        invariant
            i <= function.params@.len(),
            forall|k: int| 0 <= k < i ==> kmp_type_ok(#[trigger] function.params@[k].type_expr, support.records@, support.enums@, support.custom_types@),
        decreases function.params.len() - i,
    {
        if !support.type_supported(&function.params[i].type_expr) {
            return false;
        }
        i = i + 1;
    }
    true
}

} // verus!
