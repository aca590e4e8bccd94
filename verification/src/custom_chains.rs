//! Following custom types through the catalog to their wire representation.
//!
//! A custom type's representation may itself be a custom type. Every walk
//! that looks through custom types is bounded by a fuel: each step from a
//! custom type to its representation spends one unit. For a catalog without
//! reference cycles, the number of custom declarations is enough fuel for
//! any walk.

use vstd::prelude::*;

use crate::defs::TypeCatalog;
use crate::types::TypeExpr;

verus! {

/// Every custom type reachable from `ty` that resolves in the catalog can be
/// unfolded within `fuel` steps; ids that do not resolve end the walk.
pub open spec fn custom_fuel_ok(cat: TypeCatalog, ty: TypeExpr, fuel: nat) -> bool
    decreases fuel, ty,
{
    match ty {
        TypeExpr::Custom(id) => {
            let k = cat.custom_index(id@);
            k < 0 || (fuel > 0 && 0 <= k < cat.customs@.len() && custom_fuel_ok(
                cat,
                cat.customs@[k].repr,
                (fuel - 1) as nat,
            ))
        },
        TypeExpr::Vec(inner) => custom_fuel_ok(cat, *inner, fuel),
        TypeExpr::Option(inner) => custom_fuel_ok(cat, *inner, fuel),
        TypeExpr::Result { ok, err } => custom_fuel_ok(cat, *ok, fuel) && custom_fuel_ok(
            cat,
            *err,
            fuel,
        ),
        _ => true,
    }
}

/// Every custom type reachable from `ty` is declared in the catalog and can
/// be unfolded within `fuel` steps.
pub open spec fn customs_resolve(cat: TypeCatalog, ty: TypeExpr, fuel: nat) -> bool
    decreases fuel, ty,
{
    match ty {
        TypeExpr::Custom(id) => {
            let k = cat.custom_index(id@);
            fuel > 0 && 0 <= k < cat.customs@.len() && customs_resolve(
                cat,
                cat.customs@[k].repr,
                (fuel - 1) as nat,
            )
        },
        TypeExpr::Vec(inner) => customs_resolve(cat, *inner, fuel),
        TypeExpr::Option(inner) => customs_resolve(cat, *inner, fuel),
        TypeExpr::Result { ok, err } => customs_resolve(cat, *ok, fuel) && customs_resolve(
            cat,
            *err,
            fuel,
        ),
        _ => true,
    }
}

/// Some fuel unfolds every custom type reachable from `ty`: the walk from
/// `ty` through the catalog ends.
pub open spec fn walks(cat: TypeCatalog, ty: TypeExpr) -> bool {
    exists|fuel: nat| custom_fuel_ok(cat, ty, fuel)
}

/// A fuel that unfolds every custom type reachable from `ty`, when there
/// is one.
pub open spec fn walk_fuel(cat: TypeCatalog, ty: TypeExpr) -> nat {
    choose|fuel: nat| custom_fuel_ok(cat, ty, fuel)
}

/// The chosen fuel suffices for a walk that ends.
pub proof fn lemma_walk_fuel(cat: TypeCatalog, ty: TypeExpr)
    requires
        walks(cat, ty),
    ensures
        custom_fuel_ok(cat, ty, walk_fuel(cat, ty)),
{
}

/// More fuel than enough is still enough.
pub proof fn lemma_fuel_ok_monotone(cat: TypeCatalog, ty: TypeExpr, fuel: nat, more: nat)
    requires
        custom_fuel_ok(cat, ty, fuel),
        fuel <= more,
    ensures
        custom_fuel_ok(cat, ty, more),
    decreases fuel, ty,
{
    match ty {
        TypeExpr::Custom(id) => {
            let k = cat.custom_index(id@);
            if k >= 0 {
                lemma_fuel_ok_monotone(cat, cat.customs@[k].repr, (fuel - 1) as nat, (more - 1) as nat);
            }
        },
        TypeExpr::Vec(inner) => lemma_fuel_ok_monotone(cat, *inner, fuel, more),
        TypeExpr::Option(inner) => lemma_fuel_ok_monotone(cat, *inner, fuel, more),
        TypeExpr::Result { ok, err } => {
            lemma_fuel_ok_monotone(cat, *ok, fuel, more);
            lemma_fuel_ok_monotone(cat, *err, fuel, more);
        },
        _ => {},
    }
}

/// The fuel that suffices for an acyclic catalog.
pub open spec fn custom_depth(cat: TypeCatalog) -> nat {
    cat.customs@.len()
}

/// Whether `ty` mentions a custom type anywhere.
pub open spec fn mentions_custom(ty: TypeExpr) -> bool
    decreases ty,
{
    match ty {
        TypeExpr::Custom(_) => true,
        TypeExpr::Vec(inner) => mentions_custom(*inner),
        TypeExpr::Option(inner) => mentions_custom(*inner),
        TypeExpr::Result { ok, err } => mentions_custom(*ok) || mentions_custom(*err),
        _ => false,
    }
}

} // verus!
