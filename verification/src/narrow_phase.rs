//! The narrow-phase dispatcher: which contact routine serves a pair of
//! shapes, on which operands and in which orientation, and what becomes of
//! a pair whose field cannot be resolved or that no routine serves.

use vstd::prelude::*;
use core::ops::Neg;
use crate::adder::{records_all, Contact, ManifoldAdder, Manifolds};
use crate::shape::{ColliderShape, ShapeKind};

verus! {

/// The contact routines of the narrow phase. Each is written for one order
/// of its two operands; the other order is served by the same routine with
/// the operands exchanged and the manifold builder flipped.
#[derive(Clone, Copy, Debug, PartialEq, Eq, Structural)]
pub enum Routine {
    SphereSphere,
    SphereCapsule,
    CapsuleCapsule,
    SphereField,
    CapsuleField,
}

impl Routine {
    /// The kind of shape that the routine takes as its first operand.
    pub open spec fn first_kind(self) -> ShapeKind {
        match self {
            Routine::SphereSphere | Routine::SphereCapsule | Routine::SphereField => ShapeKind::Sphere,
            Routine::CapsuleCapsule | Routine::CapsuleField => ShapeKind::Capsule,
        }
    }

    /// The kind of shape that the routine takes as its second operand.
    pub open spec fn second_kind(self) -> ShapeKind {
        match self {
            Routine::SphereSphere => ShapeKind::Sphere,
            Routine::SphereCapsule | Routine::CapsuleCapsule => ShapeKind::Capsule,
            Routine::SphereField | Routine::CapsuleField => ShapeKind::Arbitrary,
        }
    }
}

/// A pair of shapes for which no contact routine exists.
#[derive(Clone, Copy, Debug, PartialEq, Eq, Structural)]
pub struct UnsupportedPair {
    pub first: ShapeKind,
    pub second: ShapeKind,
}

/// Some routine takes a pair of these kinds as it stands.
pub open spec fn has_direct_routine(a: ShapeKind, b: ShapeKind) -> bool {
    exists|q: Routine| q.first_kind() == a && q.second_kind() == b
}

/// A pair of shapes bound to the routine that evaluates it: the variant
/// names the routine, and holds its two operands in the order in which the
/// routine takes them.
#[derive(Debug)]
pub enum PairWork<P, C, F> {
    SphereSphere(P, P),
    SphereCapsule(P, C),
    CapsuleCapsule(C, C),
    SphereField(P, F),
    CapsuleField(C, F),
}

impl<P, C, F> PairWork<P, C, F> {
    /// The routine that the work is bound to.
    pub open spec fn routine(self) -> Routine {
        match self {
            PairWork::SphereSphere(_, _) => Routine::SphereSphere,
            PairWork::SphereCapsule(_, _) => Routine::SphereCapsule,
            PairWork::CapsuleCapsule(_, _) => Routine::CapsuleCapsule,
            PairWork::SphereField(_, _) => Routine::SphereField,
            PairWork::CapsuleField(_, _) => Routine::CapsuleField,
        }
    }

    /// The two operands as shapes, in the routine's order.
    pub open spec fn operands(self) -> (ColliderShape<P, C, F>, ColliderShape<P, C, F>) {
        match self {
            PairWork::SphereSphere(first, second) => (
                ColliderShape::Sphere(first),
                ColliderShape::Sphere(second),
            ),
            PairWork::SphereCapsule(first, second) => (
                ColliderShape::Sphere(first),
                ColliderShape::Capsule(second),
            ),
            PairWork::CapsuleCapsule(first, second) => (
                ColliderShape::Capsule(first),
                ColliderShape::Capsule(second),
            ),
            PairWork::SphereField(first, second) => (
                ColliderShape::Sphere(first),
                ColliderShape::Arbitrary(second),
            ),
            PairWork::CapsuleField(first, second) => (
                ColliderShape::Capsule(first),
                ColliderShape::Arbitrary(second),
            ),
        }
    }

    /// `lookup` may be asked for the field operand, where the routine has one.
    pub open spec fn can_resolve<G, L: Fn(&F) -> Option<G>>(self, lookup: L) -> bool {
        match self {
            PairWork::SphereField(_, reference) => call_requires(lookup, (&reference,)),
            PairWork::CapsuleField(_, reference) => call_requires(lookup, (&reference,)),
            _ => true,
        }
    }

    /// `resolved` is this work with the reference of its field operand
    /// replaced by what `lookup` returned for it: the same routine on the
    /// same first operand, or nothing where `lookup` returned nothing. Work
    /// without a field operand is resolved as it stands.
    pub open spec fn resolves_to<G, L: Fn(&F) -> Option<G>>(
        self,
        lookup: L,
        resolved: Option<PairWork<P, C, G>>,
    ) -> bool {
        match self {
            PairWork::SphereSphere(first, second) => resolved == Some(
                PairWork::<P, C, G>::SphereSphere(first, second),
            ),
            PairWork::SphereCapsule(first, second) => resolved == Some(
                PairWork::<P, C, G>::SphereCapsule(first, second),
            ),
            PairWork::CapsuleCapsule(first, second) => resolved == Some(
                PairWork::<P, C, G>::CapsuleCapsule(first, second),
            ),
            PairWork::SphereField(first, reference) => match resolved {
                Some(work) => work matches PairWork::SphereField(sphere, field) && sphere == first
                    && call_ensures(lookup, (&reference,), Some(field)),
                None => call_ensures(lookup, (&reference,), None),
            },
            PairWork::CapsuleField(first, reference) => match resolved {
                Some(work) => work matches PairWork::CapsuleField(capsule, field) && capsule
                    == first && call_ensures(lookup, (&reference,), Some(field)),
                None => call_ensures(lookup, (&reference,), None),
            },
        }
    }

    /// Replaces the reference of the field operand, where the routine has
    /// one, by the field data that `lookup` finds for it.
    ///
    /// A routine between spheres and capsules needs no data and asks for
    /// none. A reference that `lookup` cannot resolve gives `None`: the pair
    /// then has no contacts. That is no error.
    pub fn resolve<G, L: Fn(&F) -> Option<G>>(self, lookup: L) -> (r: Option<PairWork<P, C, G>>)
        requires
            self.can_resolve(lookup),
        ensures
            self.resolves_to(lookup, r),
    {
        match self {
            PairWork::SphereSphere(first, second) => Some(PairWork::SphereSphere(first, second)),
            PairWork::SphereCapsule(first, second) => Some(PairWork::SphereCapsule(first, second)),
            PairWork::CapsuleCapsule(first, second) => Some(
                PairWork::CapsuleCapsule(first, second),
            ),
            PairWork::SphereField(first, reference) => match lookup(&reference) {
                Some(field) => Some(PairWork::SphereField(first, field)),
                None => None,
            },
            PairWork::CapsuleField(first, reference) => match lookup(&reference) {
                Some(field) => Some(PairWork::CapsuleField(first, field)),
                None => None,
            },
        }
    }
}

/// What the narrow phase does for one pair of shapes.
#[derive(Debug)]
pub struct Dispatch<P, C, F> {
    /// The routine to run, with its operands.
    pub work: PairWork<P, C, F>,
    /// The operands are the pair in exchanged order, and the routine's
    /// contacts go through a flipped manifold builder.
    pub flipped: bool,
}

/// The dispatch table of the narrow phase.
pub open spec fn dispatched<P, C, F>(
    a: ColliderShape<P, C, F>,
    b: ColliderShape<P, C, F>,
) -> Option<Dispatch<P, C, F>> {
    match (a, b) {
        (ColliderShape::Sphere(s1), ColliderShape::Sphere(s2)) => Some(
            Dispatch { work: PairWork::SphereSphere(s1, s2), flipped: false },
        ),
        (ColliderShape::Sphere(s1), ColliderShape::Capsule(c2)) => Some(
            Dispatch { work: PairWork::SphereCapsule(s1, c2), flipped: false },
        ),
        (ColliderShape::Capsule(c1), ColliderShape::Sphere(s2)) => Some(
            Dispatch { work: PairWork::SphereCapsule(s2, c1), flipped: true },
        ),
        (ColliderShape::Capsule(c1), ColliderShape::Capsule(c2)) => Some(
            Dispatch { work: PairWork::CapsuleCapsule(c1, c2), flipped: false },
        ),
        (ColliderShape::Sphere(s1), ColliderShape::Arbitrary(f2)) => Some(
            Dispatch { work: PairWork::SphereField(s1, f2), flipped: false },
        ),
        (ColliderShape::Arbitrary(f1), ColliderShape::Sphere(s2)) => Some(
            Dispatch { work: PairWork::SphereField(s2, f1), flipped: true },
        ),
        (ColliderShape::Capsule(c1), ColliderShape::Arbitrary(f2)) => Some(
            Dispatch { work: PairWork::CapsuleField(c1, f2), flipped: false },
        ),
        (ColliderShape::Arbitrary(f1), ColliderShape::Capsule(c2)) => Some(
            Dispatch { work: PairWork::CapsuleField(c2, f1), flipped: true },
        ),
        (ColliderShape::Arbitrary(_), ColliderShape::Arbitrary(_)) => None,
    }
}

/// Binds a pair of shapes to the routine that evaluates it.
///
/// Every pair but field against field is served. The operands of the
/// routine are the two shapes themselves, so the routine is one that takes
/// their kinds: in the order given wherever some routine takes the pair as
/// it stands, and exchanged, with the builder flipped, only where none
/// does.
pub fn dispatch<P, C, F>(a: ColliderShape<P, C, F>, b: ColliderShape<P, C, F>) -> (r: Result<
    Dispatch<P, C, F>,
    UnsupportedPair,
>)
    ensures
        r is Err <==> a.kind() == ShapeKind::Arbitrary && b.kind() == ShapeKind::Arbitrary,
        r matches Err(e) ==> e == (UnsupportedPair { first: a.kind(), second: b.kind() }),
        r matches Ok(d) ==> {
            &&& dispatched(a, b) == Some(d)
            &&& d.work.operands() == if d.flipped {
                (b, a)
            } else {
                (a, b)
            }
            &&& (d.flipped <==> !has_direct_routine(a.kind(), b.kind()))
        },
{
    proof {
        lemma_dispatch_is_characterised(a, b);
    }
    match (a, b) {
        (ColliderShape::Sphere(s1), ColliderShape::Sphere(s2)) => Ok(
            Dispatch { work: PairWork::SphereSphere(s1, s2), flipped: false },
        ),
        (ColliderShape::Sphere(s1), ColliderShape::Capsule(c2)) => Ok(
            Dispatch { work: PairWork::SphereCapsule(s1, c2), flipped: false },
        ),
        (ColliderShape::Capsule(c1), ColliderShape::Sphere(s2)) => Ok(
            Dispatch { work: PairWork::SphereCapsule(s2, c1), flipped: true },
        ),
        (ColliderShape::Capsule(c1), ColliderShape::Capsule(c2)) => Ok(
            Dispatch { work: PairWork::CapsuleCapsule(c1, c2), flipped: false },
        ),
        (ColliderShape::Sphere(s1), ColliderShape::Arbitrary(f2)) => Ok(
            Dispatch { work: PairWork::SphereField(s1, f2), flipped: false },
        ),
        (ColliderShape::Arbitrary(f1), ColliderShape::Sphere(s2)) => Ok(
            Dispatch { work: PairWork::SphereField(s2, f1), flipped: true },
        ),
        (ColliderShape::Capsule(c1), ColliderShape::Arbitrary(f2)) => Ok(
            Dispatch { work: PairWork::CapsuleField(c1, f2), flipped: false },
        ),
        (ColliderShape::Arbitrary(f1), ColliderShape::Capsule(c2)) => Ok(
            Dispatch { work: PairWork::CapsuleField(c2, f1), flipped: true },
        ),
        (ColliderShape::Arbitrary(_), ColliderShape::Arbitrary(_)) => Err(
            UnsupportedPair { first: ShapeKind::Arbitrary, second: ShapeKind::Arbitrary },
        ),
    }
}

/// The table serves every pair but field against field, hands each routine
/// the two shapes as operands of the kinds it takes, and exchanges a pair
/// only for want of a routine that takes it as it stands.
pub proof fn lemma_dispatch_is_characterised<P, C, F>(
    a: ColliderShape<P, C, F>,
    b: ColliderShape<P, C, F>,
)
    ensures
        dispatched(a, b) is None <==> a.kind() == ShapeKind::Arbitrary && b.kind()
            == ShapeKind::Arbitrary,
        dispatched(a, b) matches Some(d) ==> {
            &&& d.work.operands() == if d.flipped {
                (b, a)
            } else {
                (a, b)
            }
            &&& d.work.operands().0.kind() == d.work.routine().first_kind()
            &&& d.work.operands().1.kind() == d.work.routine().second_kind()
            &&& (d.flipped <==> !has_direct_routine(a.kind(), b.kind()))
        },
{
    if has_direct_routine(a.kind(), b.kind()) {
        let q = choose|q: Routine| q.first_kind() == a.kind() && q.second_kind() == b.kind();
        assert(dispatched(a, b) matches Some(d) && d.work.routine() == q && !d.flipped);
    }
    match dispatched(a, b) {
        Some(d) => {
            if !d.flipped {
                assert(d.work.routine().first_kind() == a.kind() && d.work.routine().second_kind()
                    == b.kind());
            }
        },
        None => {},
    }
}

/// Exchanging two shapes of different kinds changes nothing but the
/// orientation: the same routine runs on the same operands, for one order
/// through a direct manifold builder and for the other through a flipped
/// one.
pub proof fn lemma_exchange_flips<P, C, F>(a: ColliderShape<P, C, F>, b: ColliderShape<P, C, F>)
    requires
        a.kind() != b.kind(),
    ensures
        dispatched(a, b) matches Some(d) && dispatched(b, a) matches Some(e) && e.work == d.work
            && e.flipped == !d.flipped,
{
}

/// `manifold` is a manifold that the narrow phase may return for the pair
/// bound in `bound`: what a builder of the dispatch's orientation records
/// for the contacts that `generate` reported for the work, once `lookup`
/// had resolved its field, or no contact at all where `lookup` found no
/// data.
pub open spec fn generates<
    P,
    C,
    F,
    G,
    V: Neg<Output = V>,
    S,
    T: From<Contact<V, S>>,
    L: Fn(&F) -> Option<G>,
    K: FnOnce(PairWork<P, C, G>) -> Vec<Contact<V, S>>,
>(bound: Dispatch<P, C, F>, lookup: L, generate: K, manifold: Vec<T>) -> bool {
    exists|resolved: Option<PairWork<P, C, G>>|
        {
            &&& #[trigger] bound.work.resolves_to(lookup, resolved)
            &&& match resolved {
                Some(work) => exists|reported: Vec<Contact<V, S>>|
                    {
                        &&& #[trigger] call_ensures(generate, (work,), reported)
                        &&& records_all(bound.flipped, reported@, manifold@)
                    },
                None => manifold@.len() == 0,
            }
        }
}

/// `generate` may be called for the pair bound in `bound`, and where the
/// pair is exchanged, the normals that it reports can be negated.
pub open spec fn can_generate<
    P,
    C,
    F,
    G,
    V: Neg<Output = V>,
    S,
    K: FnOnce(PairWork<P, C, G>) -> Vec<Contact<V, S>>,
>(bound: Dispatch<P, C, F>, generate: K) -> bool {
    &&& forall|work: PairWork<P, C, G>|
        work.routine() == bound.work.routine() ==> call_requires(generate, (work,))
    &&& bound.flipped ==> forall|work: PairWork<P, C, G>, reported: Vec<Contact<V, S>>, i: int|
        #[trigger] call_ensures(generate, (work,), reported) && 0 <= i < reported.len()
            ==> call_requires(V::neg, (#[trigger] reported[i].normal,))
}

/// The contact manifold of a pair of shapes.
///
/// `lookup` is the host's table of field data. `generate` runs the routine
/// that its argument names on the operands held there, and reports the
/// contacts as that routine sees them: anchors and normal for its first
/// operand as shape A.
///
/// Field against field has no routine and is reported as unsupported. A
/// field that `lookup` cannot resolve leaves the pair without contacts.
/// Any other pair has the contacts that `generate` reports, recorded as
/// they stand where the routine took the pair in the order given, and
/// mirrored where it took the pair exchanged.
pub fn contact_manifolds<
    P,
    C,
    F,
    G,
    V: Neg<Output = V>,
    S,
    T: From<Contact<V, S>>,
    L: Fn(&F) -> Option<G>,
    K: FnOnce(PairWork<P, C, G>) -> Vec<Contact<V, S>>,
>(a: ColliderShape<P, C, F>, b: ColliderShape<P, C, F>, lookup: L, generate: K) -> (r: Result<
    Vec<T>,
    UnsupportedPair,
>)
    requires
        dispatched(a, b) matches Some(bound) ==> bound.work.can_resolve(lookup) && can_generate(
            bound,
            generate,
        ),
    ensures
        r is Err <==> a.kind() == ShapeKind::Arbitrary && b.kind() == ShapeKind::Arbitrary,
        r matches Err(e) ==> e == (UnsupportedPair { first: a.kind(), second: b.kind() }),
        r matches Ok(manifold) ==> dispatched(a, b) matches Some(bound) && generates(
            bound,
            lookup,
            generate,
            manifold,
        ),
{
    let bound = match dispatch(a, b) {
        Ok(bound) => bound,
        Err(pair) => {
            return Err(pair);
        },
    };
    let ghost bound_work = bound.work;
    let flipped = bound.flipped;
    let resolved = bound.work.resolve(lookup);
    let ghost outcome = resolved;
    let mut manifold: Vec<T> = Vec::new();
    match resolved {
        Some(work) => {
            assert(work.routine() == bound_work.routine());
            let reported = generate(work);
            let ghost handed = reported;
            assert(call_ensures(generate, (work,), handed));
            let mut adder = ManifoldAdder { manifolds: Manifolds(&mut manifold), flipped };
            adder.extend(reported);
        },
        None => {},
    }
    assert(bound_work.resolves_to(lookup, outcome));
    Ok(manifold)
}

/// Two elements of a manifold are mirror images: they are what two
/// contacts convert to, of which the second is the first with the anchors
/// exchanged and the normal negated.
pub open spec fn mirror_images<V: Neg<Output = V>, S, T: From<Contact<V, S>>>(
    direct: T,
    flipped: T,
) -> bool {
    exists|contact: Contact<V, S>, mirrored: Contact<V, S>|
        {
            &&& #[trigger] call_ensures(T::from, (contact,), direct)
            &&& #[trigger] call_ensures(T::from, (mirrored,), flipped)
            &&& contact.mirrored_by(mirrored)
        }
}

/// Symmetry of the narrow phase. For two shapes of different kinds, the
/// manifold of the pair in one order is the mirror image of its manifold
/// in the other order: as many contacts, and contact for contact the same
/// point and depth, the anchors exchanged and the normal negated. The
/// lookup and the routine are taken to answer the same question the same
/// way.
pub proof fn lemma_exchanged_pair_mirrors<
    P,
    C,
    F,
    G,
    V: Neg<Output = V>,
    S,
    T: From<Contact<V, S>>,
    L: Fn(&F) -> Option<G>,
    K: FnOnce(PairWork<P, C, G>) -> Vec<Contact<V, S>>,
>(
    a: ColliderShape<P, C, F>,
    b: ColliderShape<P, C, F>,
    lookup: L,
    generate: K,
    first: Vec<T>,
    second: Vec<T>,
)
    requires
        a.kind() != b.kind(),
        dispatched(a, b) matches Some(bound) && generates(bound, lookup, generate, first),
        dispatched(b, a) matches Some(bound) && generates(bound, lookup, generate, second),
        forall|reference: F, one: Option<G>, other: Option<G>|
            #[trigger] call_ensures(lookup, (&reference,), one) && #[trigger] call_ensures(
                lookup,
                (&reference,),
                other,
            ) ==> one == other,
        forall|work: PairWork<P, C, G>, one: Vec<Contact<V, S>>, other: Vec<Contact<V, S>>|
            #[trigger] call_ensures(generate, (work,), one) && #[trigger] call_ensures(
                generate,
                (work,),
                other,
            ) ==> one@ == other@,
    ensures
        first.len() == second.len(),
        forall|i: int|
            0 <= i < first.len() ==> if dispatched(a, b)->Some_0.flipped {
                mirror_images::<V, S, T>(second[i], #[trigger] first[i])
            } else {
                mirror_images::<V, S, T>(#[trigger] first[i], second[i])
            },
{
    let d = dispatched(a, b)->Some_0;
    let e = dispatched(b, a)->Some_0;
    lemma_exchange_flips(a, b);
    let resolved_d = choose|resolved: Option<PairWork<P, C, G>>|
        {
            &&& #[trigger] d.work.resolves_to(lookup, resolved)
            &&& match resolved {
                Some(work) => exists|reported: Vec<Contact<V, S>>|
                    {
                        &&& #[trigger] call_ensures(generate, (work,), reported)
                        &&& records_all(d.flipped, reported@, first@)
                    },
                None => first@.len() == 0,
            }
        };
    let resolved_e = choose|resolved: Option<PairWork<P, C, G>>|
        {
            &&& #[trigger] e.work.resolves_to(lookup, resolved)
            &&& match resolved {
                Some(work) => exists|reported: Vec<Contact<V, S>>|
                    {
                        &&& #[trigger] call_ensures(generate, (work,), reported)
                        &&& records_all(e.flipped, reported@, second@)
                    },
                None => second@.len() == 0,
            }
        };
    assert(resolved_d == resolved_e);
    match resolved_d {
        Some(work) => {
            let reported_d = choose|reported: Vec<Contact<V, S>>|
                {
                    &&& #[trigger] call_ensures(generate, (work,), reported)
                    &&& records_all(d.flipped, reported@, first@)
                };
            let reported_e = choose|reported: Vec<Contact<V, S>>|
                {
                    &&& #[trigger] call_ensures(generate, (work,), reported)
                    &&& records_all(e.flipped, reported@, second@)
                };
            assert(reported_d@ == reported_e@);
            let reported = reported_d@;
            assert forall|i: int| 0 <= i < first.len() implies if d.flipped {
                mirror_images::<V, S, T>(second[i], #[trigger] first[i])
            } else {
                mirror_images::<V, S, T>(#[trigger] first[i], second[i])
            } by {
                assert(reported[i].recorded_as(d.flipped, first[i]));
                assert(reported[i].recorded_as(e.flipped, second[i]));
                let stored_d = choose|stored: Contact<V, S>|
                    {
                        &&& Contact::records(
                            d.flipped,
                            reported[i].point,
                            reported[i].anchor1,
                            reported[i].anchor2,
                            reported[i].normal,
                            reported[i].penetration,
                            stored,
                        )
                        &&& #[trigger] call_ensures(T::from, (stored,), first[i])
                    };
                let stored_e = choose|stored: Contact<V, S>|
                    {
                        &&& Contact::records(
                            e.flipped,
                            reported[i].point,
                            reported[i].anchor1,
                            reported[i].anchor2,
                            reported[i].normal,
                            reported[i].penetration,
                            stored,
                        )
                        &&& #[trigger] call_ensures(T::from, (stored,), second[i])
                    };
                if d.flipped {
                    assert(stored_e.mirrored_by(stored_d));
                } else {
                    assert(stored_d.mirrored_by(stored_e));
                }
            }
        },
        None => {},
    }
}

/// Where the normal of a contact between two round shapes comes from.
#[derive(Clone, Copy, Debug, PartialEq, Eq, Structural)]
pub enum NormalRule {
    /// The unit vector from the first centre toward the second.
    Along,
    /// The world's +Y axis: the centres coincide and give no direction.
    Fallback,
}

/// The rule for the contact between two spheres.
pub open spec fn sphere_rule(beyond_margin: bool, coincident: bool) -> Option<NormalRule> {
    if beyond_margin {
        None
    } else if coincident {
        Some(NormalRule::Fallback)
    } else {
        Some(NormalRule::Along)
    }
}

/// The contact between two spheres, or between the spheres round the
/// closest points of two capsule axes.
///
/// `beyond_margin` says that the gap between the two surfaces exceeds the
/// speculative margin, `coincident` that the two centres are the same
/// point. A pair beyond the margin has no contact. Any other pair has one,
/// with the normal from the first centre toward the second, or the
/// fallback where they coincide.
pub fn sphere_contact(beyond_margin: bool, coincident: bool) -> (r: Option<NormalRule>)
    ensures
        r == sphere_rule(beyond_margin, coincident),
        r is None <==> beyond_margin,
        r matches Some(rule) ==> (rule is Fallback <==> coincident),
{
    if beyond_margin {
        None
    } else if coincident {
        Some(NormalRule::Fallback)
    } else {
        Some(NormalRule::Along)
    }
}

/// Margin monotonicity of the sphere rule. `narrow` and `wide` say of one
/// pair whether its gap exceeds a narrower and a wider margin, so a gap
/// that exceeds the wider one exceeds the narrower one too. A contact that
/// the pair has under the narrower margin it has under the wider one, with
/// its normal from the same source.
pub proof fn lemma_wider_margin_keeps_contact(narrow: bool, wide: bool, coincident: bool)
    requires
        wide ==> narrow,
    ensures
        sphere_rule(narrow, coincident) matches Some(rule) ==> sphere_rule(wide, coincident)
            == Some(rule),
{
}

} // verus!
