//! The overlap test between a query shape and a collider.

use vstd::prelude::*;
use crate::adder::Contact;
use core::ops::Neg;
use crate::narrow_phase::{
    can_generate, contact_manifolds, dispatched, generates, lemma_dispatch_is_characterised,
    PairWork, UnsupportedPair,
};
use crate::shape::{ColliderShape, ShapeKind};

verus! {

/// `verdict` is the answer of the overlap test on `contacts`, where
/// `non_negative` tells of a penetration depth whether it is zero or more:
/// true if some contact has a non-negative depth, false if none has.
pub open spec fn is_overlap<V, S, N: Fn(&S) -> bool>(
    contacts: Seq<Contact<V, S>>,
    non_negative: N,
    verdict: bool,
) -> bool {
    if verdict {
        exists|i: int|
            0 <= i < contacts.len() && call_ensures(
                non_negative,
                (&#[trigger] contacts[i].penetration,),
                true,
            )
    } else {
        forall|i: int|
            0 <= i < contacts.len() ==> call_ensures(
                non_negative,
                (&#[trigger] contacts[i].penetration,),
                false,
            )
    }
}

/// The overlap test on a manifold: two shapes overlap if and only if their
/// manifold holds a contact of non-negative penetration.
pub fn overlaps<V, S, N: Fn(&S) -> bool>(contacts: &Vec<Contact<V, S>>, non_negative: N) -> (r: bool)
    requires
        forall|i: int|
            0 <= i < contacts.len() ==> call_requires(
                non_negative,
                (&#[trigger] contacts[i].penetration,),
            ),
    ensures
        is_overlap(contacts@, non_negative, r),
{
    let mut k: usize = 0;
    while k < contacts.len()
        invariant
            k <= contacts.len(),
            forall|i: int|
                0 <= i < contacts.len() ==> call_requires(
                    non_negative,
                    (&#[trigger] contacts[i].penetration,),
                ),
            forall|i: int|
                0 <= i < k ==> call_ensures(
                    non_negative,
                    (&#[trigger] contacts[i].penetration,),
                    false,
                ),
        decreases contacts.len() - k,
    {
        if non_negative(&contacts[k].penetration) {
            return true;
        }
        k += 1;
    }
    false
}

/// `r` is an answer that `shape_intersection` may give.
///
/// Where both shapes are fields, both references are looked up, the
/// collider's first: the answer is no overlap as soon as one has no data,
/// and the pair is reported as unsupported where both resolve. For any
/// other pair the answer is that of the overlap test on its contact
/// manifold.
pub open spec fn intersects<
    P,
    C,
    F,
    G,
    V: Neg<Output = V>,
    S,
    L: Fn(&F) -> Option<G>,
    K: FnOnce(PairWork<P, C, G>) -> Vec<Contact<V, S>>,
    N: Fn(&S) -> bool,
>(
    collider: ColliderShape<P, C, F>,
    shape: ColliderShape<P, C, F>,
    lookup: L,
    generate: K,
    non_negative: N,
    r: Result<bool, UnsupportedPair>,
) -> bool {
    match (collider, shape) {
        (ColliderShape::Arbitrary(first), ColliderShape::Arbitrary(second)) => match r {
            Ok(verdict) => {
                &&& !verdict
                &&& call_ensures(lookup, (&first,), None) || call_ensures(
                    lookup,
                    (&second,),
                    None,
                )
            },
            Err(pair) => {
                &&& pair == (UnsupportedPair {
                    first: ShapeKind::Arbitrary,
                    second: ShapeKind::Arbitrary,
                })
                &&& exists|field: G| call_ensures(lookup, (&first,), Some(field))
                &&& exists|field: G| call_ensures(lookup, (&second,), Some(field))
            },
        },
        _ => r matches Ok(verdict) && dispatched(collider, shape) matches Some(bound) && exists|
            manifold: Vec<Contact<V, S>>,
        |
            #[trigger] generates(bound, lookup, generate, manifold) && is_overlap(
                manifold@,
                non_negative,
                verdict,
            ),
    }
}

/// Whether a query shape overlaps a collider.
///
/// `lookup` and `generate` are as for `contact_manifolds`, with `generate`
/// running its routine for a speculative margin of zero, and
/// `non_negative` is as for `overlaps`.
///
/// The answer is that of the overlap test on the contact manifold of the
/// pair: true if and only if contact generation yields a contact of
/// non-negative penetration. A field that `lookup` cannot resolve leaves
/// the answer false, whatever the other shape is. Two fields that both
/// resolve have no routine: that pair is reported as unsupported.
pub fn shape_intersection<
    P,
    C,
    F,
    G,
    V: Neg<Output = V>,
    S,
    L: Fn(&F) -> Option<G>,
    K: FnOnce(PairWork<P, C, G>) -> Vec<Contact<V, S>>,
    N: Fn(&S) -> bool,
>(
    collider: ColliderShape<P, C, F>,
    shape: ColliderShape<P, C, F>,
    lookup: L,
    generate: K,
    non_negative: N,
) -> (r: Result<bool, UnsupportedPair>)
    requires
        collider matches ColliderShape::Arbitrary(reference) ==> call_requires(
            lookup,
            (&reference,),
        ),
        shape matches ColliderShape::Arbitrary(reference) ==> call_requires(lookup, (&reference,)),
        dispatched(collider, shape) matches Some(bound) ==> can_generate(bound, generate),
        forall|depth: S| call_requires(non_negative, (&depth,)),
    ensures
        intersects(collider, shape, lookup, generate, non_negative, r),
{
    match (collider, shape) {
        (ColliderShape::Arbitrary(first), ColliderShape::Arbitrary(second)) => {
            match lookup(&first) {
                None => Ok(false),
                Some(found) => {
                    assert(call_ensures(lookup, (&first,), Some(found)));
                    match lookup(&second) {
                        None => Ok(false),
                        Some(other) => {
                            assert(call_ensures(lookup, (&second,), Some(other)));
                            Err(
                                UnsupportedPair {
                                    first: ShapeKind::Arbitrary,
                                    second: ShapeKind::Arbitrary,
                                },
                            )
                        },
                    }
                },
            }
        },
        (collider, shape) => {
            proof {
                lemma_dispatch_is_characterised(collider, shape);
            }
            let ghost bound = dispatched(collider, shape)->Some_0;
            let manifold: Result<Vec<Contact<V, S>>, UnsupportedPair> = contact_manifolds(
                collider,
                shape,
                lookup,
                generate,
            );
            match manifold {
                Ok(contacts) => {
                    let verdict = overlaps(&contacts, non_negative);
                    assert(generates(bound, lookup, generate, contacts) && is_overlap(
                        contacts@,
                        non_negative,
                        verdict,
                    ));
                    Ok(verdict)
                },
                Err(pair) => Err(pair),
            }
        },
    }
}

} // verus!
