//! The shapes that a collider can have.

use vstd::prelude::*;

verus! {

/// The closed set of collider shapes.
#[derive(Clone, Copy, Debug, PartialEq, Eq, Structural)]
pub enum ShapeKind {
    Sphere,
    Capsule,
    Arbitrary,
}

/// A collider shape.
///
/// The library decides by the variant alone and carries what a variant
/// holds through untouched, so the three descriptions are left to the
/// caller: `P` describes a sphere (its radius), `C` a capsule (its radius
/// and the half length of its axis, which is local +Y), and `F` refers to
/// the signed-distance field of an arbitrary surface.
#[derive(Debug)]
pub enum ColliderShape<P, C, F> {
    Sphere(P),
    Capsule(C),
    Arbitrary(F),
}

impl<P, C, F> ColliderShape<P, C, F> {
    /// The variant of the shape.
    pub open spec fn spec_kind(&self) -> ShapeKind {
        match self {
            ColliderShape::Sphere(_) => ShapeKind::Sphere,
            ColliderShape::Capsule(_) => ShapeKind::Capsule,
            ColliderShape::Arbitrary(_) => ShapeKind::Arbitrary,
        }
    }

    /// The variant of the shape.
    #[verifier::when_used_as_spec(spec_kind)]
    pub fn kind(&self) -> (r: ShapeKind)
        ensures
            r == self.spec_kind(),
    {
        match self {
            ColliderShape::Sphere(_) => ShapeKind::Sphere,
            ColliderShape::Capsule(_) => ShapeKind::Capsule,
            ColliderShape::Arbitrary(_) => ShapeKind::Arbitrary,
        }
    }

    /// A sphere of the given description.
    pub fn sphere(sphere: P) -> (r: Self)
        ensures
            r == ColliderShape::<P, C, F>::Sphere(sphere),
    {
        ColliderShape::Sphere(sphere)
    }

    /// A capsule of the given description.
    pub fn capsule(capsule: C) -> (r: Self)
        ensures
            r == ColliderShape::<P, C, F>::Capsule(capsule),
    {
        ColliderShape::Capsule(capsule)
    }

    /// The surface of the field that `field` refers to.
    pub fn sdf(field: F) -> (r: Self)
        ensures
            r == ColliderShape::<P, C, F>::Arbitrary(field),
    {
        ColliderShape::Arbitrary(field)
    }

    /// Replaces the reference of an arbitrary surface by the field data
    /// that `lookup` finds for it.
    ///
    /// A sphere or a capsule needs no data and is asked nothing. A reference
    /// that `lookup` cannot resolve gives `None`: the caller then reports no
    /// contact or no hit. That is no error.
    pub fn resolve<G, L: Fn(&F) -> Option<G>>(self, lookup: L) -> (r: Option<ColliderShape<P, C, G>>)
        requires
            self matches ColliderShape::Arbitrary(reference) ==> call_requires(
                lookup,
                (&reference,),
            ),
        ensures
            self matches ColliderShape::Sphere(sphere) ==> r == Some(
                ColliderShape::<P, C, G>::Sphere(sphere),
            ),
            self matches ColliderShape::Capsule(capsule) ==> r == Some(
                ColliderShape::<P, C, G>::Capsule(capsule),
            ),
            self matches ColliderShape::Arbitrary(reference) ==> match r {
                Some(shape) => shape matches ColliderShape::Arbitrary(field) && call_ensures(
                    lookup,
                    (&reference,),
                    Some(field),
                ),
                None => call_ensures(lookup, (&reference,), None),
            },
    {
        match self {
            ColliderShape::Sphere(sphere) => Some(ColliderShape::Sphere(sphere)),
            ColliderShape::Capsule(capsule) => Some(ColliderShape::Capsule(capsule)),
            ColliderShape::Arbitrary(reference) => match lookup(&reference) {
                Some(field) => Some(ColliderShape::Arbitrary(field)),
                None => None,
            },
        }
    }
}

} // verus!
