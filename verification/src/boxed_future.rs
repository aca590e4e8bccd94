//! Recognising a trait method that returns a boxed future,
//! `Pin<Box<dyn Future<Output = T> + Send>>`, from a plain model of its
//! return type.

use vstd::prelude::*;
use vstd::string::*;

use crate::naming::str_eq;

verus! {

/// A type of a method signature, as far as the detection reads it: where
/// it stands in the signature (an index the caller chose), and its shape.
pub struct SignatureType {
    pub source: usize,
    pub kind: SignatureKind,
}

/// The shape of a type of a method signature.
pub enum SignatureKind {
    /// A path type: the name of its last segment, and the first generic
    /// argument of that segment when it is written in angle brackets and is
    /// a type.
    Path { last: String, first_type_arg: Option<Box<SignatureType>> },
    /// A trait object: its bounds, in order.
    TraitObject { bounds: Vec<ObjectBound> },
    /// A tuple type with this many elements; `()` has none.
    Tuple { elements: usize },
    /// Any other type.
    Other,
}

/// One bound of a trait object.
pub struct ObjectBound {
    /// Whether the bound is a trait (rather than a lifetime).
    pub is_trait: bool,
    /// The name of the last segment of the trait's path.
    pub last: String,
    /// The associated type bindings written in angle brackets on that
    /// segment, as `Name = Type`, in order.
    pub bindings: Vec<(String, SignatureType)>,
}

/// The type inside `Box<..>`, looking through any `Pin<..>` around it.
pub open spec fn unboxed(t: SignatureType) -> Option<SignatureType>
    decreases t,
{
    match t.kind {
        SignatureKind::Path { last, first_type_arg } => match first_type_arg {
            Some(inner) => if last@ == "Box"@ {
                Some(*inner)
            } else if last@ == "Pin"@ {
                unboxed(*inner)
            } else {
                None
            },
            None => None,
        },
        _ => None,
    }
}

/// The first binding named `Output`.
pub open spec fn output_binding(bindings: Seq<(String, SignatureType)>) -> Option<SignatureType>
    decreases bindings.len(),
{
    if bindings.len() == 0 {
        None
    } else if bindings[0].0@ == "Output"@ {
        Some(bindings[0].1)
    } else {
        output_binding(bindings.drop_first())
    }
}

/// The `Output` of a `Future` bound; `None` for any other bound.
pub open spec fn bound_output(b: ObjectBound) -> Option<SignatureType> {
    if b.is_trait && b.last@ == "Future"@ {
        output_binding(b.bindings@)
    } else {
        None
    }
}

/// The first `Future` output among the bounds, in order.
pub open spec fn bounds_output(bounds: Seq<ObjectBound>) -> Option<SignatureType>
    decreases bounds.len(),
{
    if bounds.len() == 0 {
        None
    } else {
        match bound_output(bounds[0]) {
            Some(t) => Some(t),
            None => bounds_output(bounds.drop_first()),
        }
    }
}

/// The future output of a trait object; `None` for any other type.
pub open spec fn object_output(t: SignatureType) -> Option<SignatureType> {
    match t.kind {
        SignatureKind::TraitObject { bounds } => bounds_output(bounds@),
        _ => None,
    }
}

/// The output of a boxed future a method returns: the future output of the
/// trait object inside the box; `None` when the method returns nothing or
/// anything else.
pub open spec fn boxed_future_output(ret: Option<SignatureType>) -> Option<SignatureType> {
    match ret {
        Some(t) => match unboxed(t) {
            Some(inner) => object_output(inner),
            None => None,
        },
        None => None,
    }
}

/// The type inside `Box<..>`; see [`unboxed`].
pub fn strip_box_or_pin_box(ty: &SignatureType) -> (res: Option<&SignatureType>)
    ensures
        res matches Some(r) ==> unboxed(*ty) == Some(*r),
        res is None <==> unboxed(*ty) is None,
    decreases ty,
{
    match &ty.kind {
        SignatureKind::Path { last, first_type_arg } => match first_type_arg {
            Some(inner) => {
                if str_eq(last.as_str(), "Box") {
                    Some(&**inner)
                } else if str_eq(last.as_str(), "Pin") {
                    strip_box_or_pin_box(inner)
                } else {
                    None
                }
            },
            None => None,
        },
        _ => None,
    }
}

fn find_output_binding(bindings: &Vec<(String, SignatureType)>) -> (res: Option<&SignatureType>)
    ensures
        res matches Some(r) ==> output_binding(bindings@) == Some(*r),
        res is None <==> output_binding(bindings@) is None,
{
    let mut i: usize = 0;
    assert(bindings@.skip(0) =~= bindings@);
    while i < bindings.len()
        invariant
            i <= bindings@.len(),
            output_binding(bindings@) == output_binding(bindings@.skip(i as int)),
        decreases bindings.len() - i,
    {
        let ghost rest = bindings@.skip(i as int);
        assert(rest[0] == bindings@[i as int]);
        if str_eq(bindings[i].0.as_str(), "Output") {
            return Some(&bindings[i].1);
        }
        assert(rest.drop_first() =~= bindings@.skip(i + 1));
        i = i + 1;
    }
    assert(bindings@.skip(i as int).len() == 0);
    None
}

/// The future output of a trait object; see [`object_output`].
pub fn future_output_from_trait_object(ty: &SignatureType) -> (res: Option<&SignatureType>)
    ensures
        res matches Some(r) ==> object_output(*ty) == Some(*r),
        res is None <==> object_output(*ty) is None,
{
    match &ty.kind {
        SignatureKind::TraitObject { bounds } => {
            let mut i: usize = 0;
            assert(bounds@.skip(0) =~= bounds@);
            while i < bounds.len()
                invariant
                    i <= bounds@.len(),
                    object_output(*ty) == bounds_output(bounds@),
                    bounds_output(bounds@) == bounds_output(bounds@.skip(i as int)),
                decreases bounds.len() - i,
            {
                let ghost rest = bounds@.skip(i as int);
                assert(rest[0] == bounds@[i as int]);
                let bound = &bounds[i];
                if bound.is_trait && str_eq(bound.last.as_str(), "Future") {
                    let found = find_output_binding(&bound.bindings);
                    if found.is_some() {
                        assert(bound_output(rest[0]) == Some(*found.unwrap()));
                        return found;
                    }
                    assert(bound_output(rest[0]) is None);
                } else {
                    assert(bound_output(rest[0]) is None);
                }
                assert(rest.drop_first() =~= bounds@.skip(i + 1));
                i = i + 1;
            }
            assert(bounds@.skip(i as int).len() == 0);
            None
        },
        _ => None,
    }
}

/// The `T` of `Box<dyn Future<Output = T> + Send>`, looking through any
/// `Pin<..>` around the box; see [`unboxed`] and [`object_output`].
pub fn parse_boxed_future_output(ty: &SignatureType) -> (res: Option<&SignatureType>)
    ensures
        res matches Some(r) ==> boxed_future_output(Some(*ty)) == Some(*r),
        res is None <==> boxed_future_output(Some(*ty)) is None,
{
    match strip_box_or_pin_box(ty) {
        Some(inner) => future_output_from_trait_object(inner),
        None => None,
    }
}

/// The `T` a method returning a boxed future yields, used for lowering as
/// an `async fn -> T` would be; `ret` is the written return type, if any.
pub fn future_method_inner_output(ret: &Option<SignatureType>) -> (res: Option<&SignatureType>)
    ensures
        res matches Some(r) ==> boxed_future_output(*ret) == Some(*r),
        res is None <==> boxed_future_output(*ret) is None,
{
    match ret {
        Some(ty) => parse_boxed_future_output(ty),
        None => None,
    }
}

/// Whether a future's output is `()`, which completes like a void
/// `async fn`.
pub fn is_unit_future_output(ty: &SignatureType) -> (res: bool)
    ensures
        res == (ty.kind matches SignatureKind::Tuple { elements } && elements == 0),
{
    match &ty.kind {
        SignatureKind::Tuple { elements } => *elements == 0,
        _ => false,
    }
}

/// The output type of a method returning `Pin<Box<dyn Future<Output = T>>>`;
/// see [`boxed_future_output`]. `ret` is the written return type, if any.
pub fn boxed_future_inner_output_ty(ret: &Option<SignatureType>) -> (res: Option<&SignatureType>)
    ensures
        res matches Some(r) ==> boxed_future_output(*ret) == Some(*r),
        res is None <==> boxed_future_output(*ret) is None,
{
    match ret {
        Some(ty) => parse_boxed_future_output(ty),
        None => None,
    }
}

/// Whether a trait method that is not `async` returns a boxed future.
pub fn trait_method_returns_boxed_future(is_async: bool, ret: &Option<SignatureType>) -> (res: bool)
    ensures
        res == (!is_async && boxed_future_output(*ret) is Some),
{
    !is_async && boxed_future_inner_output_ty(ret).is_some()
}

} // verus!
