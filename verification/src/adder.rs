//! Contacts and the manifold builder, which records a contact as a routine
//! reports it or mirrored, so that one routine serves both orders of a pair.

use vstd::prelude::*;
use core::ops::Deref;
use core::ops::Neg;
use vstd::std_specs::ops::NegSpec;

verus! {

/// One contact between two shapes A and B.
///
/// `point` is the contact's location in world space, `anchor1` and `anchor2`
/// the same location relative to the origin of A and of B, `normal` the unit
/// vector from A toward B, and `penetration` the signed depth: positive
/// where the shapes overlap, negative where they are apart but within the
/// speculative margin.
#[derive(Debug)]
pub struct Contact<V, S> {
    pub point: V,
    pub anchor1: V,
    pub anchor2: V,
    pub normal: V,
    pub penetration: S,
}

impl<V: Neg<Output = V>, S> Contact<V, S> {
    /// `other` is this contact seen from the other shape: the same point and
    /// depth, the anchors exchanged, the normal negated.
    pub open spec fn mirrored_by(self, other: Self) -> bool {
        &&& other.point == self.point
        &&& other.anchor1 == self.anchor2
        &&& other.anchor2 == self.anchor1
        &&& call_ensures(V::neg, (self.normal,), other.normal)
        &&& other.penetration == self.penetration
    }

    /// `stored` is the contact that a builder records for the given
    /// arguments: as they stand through a direct builder, mirrored through a
    /// flipped one.
    pub open spec fn records(
        flipped: bool,
        point: V,
        anchor_a: V,
        anchor_b: V,
        normal: V,
        penetration: S,
        stored: Self,
    ) -> bool {
        let direct = Contact { point, anchor1: anchor_a, anchor2: anchor_b, normal, penetration };
        if flipped {
            direct.mirrored_by(stored)
        } else {
            stored == direct
        }
    }
}

impl<V: Neg<Output = V>, S> Contact<V, S> {
    /// `element` is what a builder of the given orientation appends for
    /// this contact: the contact as it stands or mirrored, converted to the
    /// manifold's element type.
    pub open spec fn recorded_as<T: From<Contact<V, S>>>(self, flipped: bool, element: T) -> bool {
        exists|stored: Contact<V, S>|
            {
                &&& Contact::records(
                    flipped,
                    self.point,
                    self.anchor1,
                    self.anchor2,
                    self.normal,
                    self.penetration,
                    stored,
                )
                &&& #[trigger] call_ensures(T::from, (stored,), element)
            }
    }
}

/// `manifold` is what a builder of the given orientation appends for the
/// contacts that a routine reports, one element for each and in the same
/// order.
pub open spec fn records_all<V: Neg<Output = V>, S, T: From<Contact<V, S>>>(
    flipped: bool,
    reported: Seq<Contact<V, S>>,
    manifold: Seq<T>,
) -> bool {
    &&& manifold.len() == reported.len()
    &&& forall|i: int|
        0 <= i < reported.len() ==> (#[trigger] reported[i]).recorded_as(flipped, manifold[i])
}

/// `From::from` of a type to itself, which std implements for every type
/// and documents as returning its argument unchanged. This is what a
/// manifold of plain contacts is filled through.
pub assume_specification<Same>[ <Same as core::convert::From<Same>>::from ](t: Same) -> (r: Same)
    ensures
        r == t,
;

/// The manifold of one shape pair: the output vector that contacts are
/// appended to, in the element type of the caller's choice.
pub struct Manifolds<'a, T>(pub &'a mut Vec<T>);

impl<'a, T> View for Manifolds<'a, T> {
    type V = Seq<T>;

    /// The contacts gathered so far, in insertion order.
    open spec fn view(&self) -> Seq<T> {
        (*self.0)@
    }
}

impl<T> Deref for Manifolds<'_, T> {
    type Target = Vec<T>;

    fn deref(&self) -> (r: &Vec<T>)
        ensures
            r@ == self@,
    {
        &*self.0
    }
}

/// Appends contacts to a manifold in one of two orientations, so that a
/// routine written for the pair (A, B) also serves the pair (B, A).
pub struct ManifoldAdder<'a, T> {
    /// The manifold that the builder appends to.
    pub manifolds: Manifolds<'a, T>,
    /// Whether the builder mirrors what it is given.
    pub flipped: bool,
}

impl<'a, T> ManifoldAdder<'a, T> {
    /// A builder that records contacts as the routine reports them.
    pub fn normal(manifolds: Manifolds<'a, T>) -> (r: Self)
        ensures
            !r.flipped,
            r.manifolds == manifolds,
    {
        ManifoldAdder { manifolds, flipped: false }
    }

    /// A builder that records each contact mirrored.
    pub fn flipped(manifolds: Manifolds<'a, T>) -> (r: Self)
        ensures
            r.flipped,
            r.manifolds == manifolds,
    {
        ManifoldAdder { manifolds, flipped: true }
    }

    /// Appends one contact, converted to the manifold's element type.
    ///
    /// A direct builder records the contact as given, with `anchor_a` and
    /// `anchor_b` as its first and second anchor. A flipped builder records
    /// it mirrored, and so needs the negation of the normal to be defined.
    /// The builder goes on writing to the same vector, in the same
    /// orientation.
    pub fn push<V: Neg<Output = V>, S>(
        &mut self,
        point: V,
        anchor_a: V,
        anchor_b: V,
        normal: V,
        penetration: S,
    ) where T: From<Contact<V, S>>
        requires
            old(self).flipped ==> call_requires(V::neg, (normal,)),
        ensures
            final(self).flipped == old(self).flipped,
            *final(final(self).manifolds.0) == *final(old(self).manifolds.0),
            exists|stored: Contact<V, S>, element: T|
                {
                    &&& Contact::records(
                        old(self).flipped,
                        point,
                        anchor_a,
                        anchor_b,
                        normal,
                        penetration,
                        stored,
                    )
                    &&& #[trigger] call_ensures(T::from, (stored,), element)
                    &&& final(self).manifolds@ == old(self).manifolds@.push(element)
                },
    {
        let contact = if self.flipped {
            Contact {
                point,
                anchor1: anchor_b,
                anchor2: anchor_a,
                normal: normal.neg(),
                penetration,
            }
        } else {
            Contact { point, anchor1: anchor_a, anchor2: anchor_b, normal, penetration }
        };
        let ghost before = self.manifolds@;
        let ghost recorded = contact;
        let element = T::from(contact);
        let ghost appended = element;
        self.manifolds.0.push(element);
        proof {
            assert(call_ensures(T::from, (recorded,), appended));
            assert(self.manifolds@ == before.push(appended));
        }
    }
}

impl<'a, T> ManifoldAdder<'a, T> {
    /// Appends the contacts that a routine reports, each as `push` appends
    /// it and in the order reported.
    pub fn extend<V: Neg<Output = V>, S>(&mut self, reported: Vec<Contact<V, S>>) where
        T: From<Contact<V, S>>,

        requires
            old(self).flipped ==> forall|i: int|
                0 <= i < reported.len() ==> call_requires(V::neg, (#[trigger] reported[i].normal,)),
        ensures
            final(self).flipped == old(self).flipped,
            *final(final(self).manifolds.0) == *final(old(self).manifolds.0),
            exists|appended: Seq<T>|
                {
                    &&& #[trigger] records_all(old(self).flipped, reported@, appended)
                    &&& final(self).manifolds@ == old(self).manifolds@ + appended
                },
    {
        let mut reported = reported;
        let ghost all = reported@;
        let ghost before = self.manifolds@;
        let ghost mut appended: Seq<T> = Seq::empty();
        while reported.len() > 0
            invariant
                self.flipped == old(self).flipped,
                *final(self.manifolds.0) == *final(old(self).manifolds.0),
                self.manifolds@ == before + appended,
                appended.len() + reported.len() == all.len(),
                reported@ == all.skip(appended.len() as int),
                forall|i: int|
                    0 <= i < appended.len() ==> (#[trigger] all[i]).recorded_as(
                        self.flipped,
                        appended[i],
                    ),
                self.flipped ==> forall|i: int|
                    0 <= i < all.len() ==> call_requires(V::neg, (#[trigger] all[i].normal,)),
            decreases reported.len(),
        {
            let ghost done = appended.len() as int;
            let contact = reported.remove(0);
            assert(contact == all[done]);
            let ghost held = self.manifolds@;
            self.push(
                contact.point,
                contact.anchor1,
                contact.anchor2,
                contact.normal,
                contact.penetration,
            );
            proof {
                let element = self.manifolds@.last();
                assert(self.manifolds@ == held.push(element));
                assert(all[done].recorded_as(self.flipped, element));
                appended = appended.push(element);
                assert(self.manifolds@ =~= before + appended);
                assert(reported@ =~= all.skip(appended.len() as int));
            }
        }
        assert(records_all(old(self).flipped, all, appended));
    }
}

/// For the same arguments, what a flipped builder records is the mirror
/// image of what a direct builder records: the anchors exchanged and the
/// normal negated.
pub proof fn lemma_flipped_mirrors_direct<V: Neg<Output = V>, S>(
    point: V,
    anchor_a: V,
    anchor_b: V,
    normal: V,
    penetration: S,
    direct: Contact<V, S>,
    flipped: Contact<V, S>,
)
    requires
        Contact::records(false, point, anchor_a, anchor_b, normal, penetration, direct),
        Contact::records(true, point, anchor_a, anchor_b, normal, penetration, flipped),
    ensures
        direct.mirrored_by(flipped),
        flipped.point == direct.point,
        flipped.anchor1 == direct.anchor2,
        flipped.anchor2 == direct.anchor1,
        flipped.penetration == direct.penetration,
        V::obeys_neg_spec() ==> flipped.normal == direct.normal.neg_spec(),
{
}

} // verus!
