//! Sphere tracing through a distance field: how a march ends, what one
//! sample does to it, and what it leaves for a march from the other end.

use vstd::prelude::*;
use core::ops::Deref;

verus! {

/// The distance travelled along a march when it ended or came closest.
#[derive(Clone, Copy, Debug)]
pub struct TimeOfImpact<S>(pub S);

impl<S> Deref for TimeOfImpact<S> {
    type Target = S;

    fn deref(&self) -> (r: &S)
        ensures
            *r == self.0,
    {
        &self.0
    }
}

/// How a march through a distance field ended. Both variants hold the
/// travel and the field distance sampled there.
#[derive(Clone, Copy, Debug)]
pub enum MarchResult<S> {
    /// The travelling point came within the radius of the surface.
    Hit(TimeOfImpact<S>, S),
    /// The bound was reached first; this is the closest approach seen, which
    /// is an approximation and need not be the closest point of the path.
    Closest(TimeOfImpact<S>, S),
}

/// What a first march leaves of a path for a second march that starts from
/// its other end.
#[derive(Clone, Copy, Debug)]
pub enum Remainder<S> {
    /// The first march stopped at a hit: the path less this travel is left.
    Beyond(TimeOfImpact<S>),
    /// The first march walked the whole path: nothing is left.
    Nothing,
}

impl<S: Copy> MarchResult<S> {
    /// The travel at which the march ended or came closest.
    pub open spec fn travel(self) -> TimeOfImpact<S> {
        match self {
            MarchResult::Hit(at, _) => at,
            MarchResult::Closest(at, _) => at,
        }
    }

    /// The field distance sampled at `travel`.
    pub open spec fn distance(self) -> S {
        match self {
            MarchResult::Hit(_, distance) => distance,
            MarchResult::Closest(_, distance) => distance,
        }
    }

    /// The travel and distance of the result, whichever way the march ended.
    pub fn either(&self) -> (r: (TimeOfImpact<S>, S))
        ensures
            r == (self.travel(), self.distance()),
            *self == MarchResult::Hit(r.0, r.1) || *self == MarchResult::Closest(r.0, r.1),
    {
        match *self {
            MarchResult::Hit(at, distance) => (at, distance),
            MarchResult::Closest(at, distance) => (at, distance),
        }
    }

    /// The travel and distance of a hit. A closest approach is no
    /// intersection: a ray or a cast that ends in one reports nothing.
    pub fn hit(&self) -> (r: Option<(TimeOfImpact<S>, S)>)
        ensures
            r is Some <==> *self is Hit,
            r matches Some(h) ==> *self == MarchResult::Hit(h.0, h.1),
    {
        match *self {
            MarchResult::Hit(at, distance) => Some((at, distance)),
            MarchResult::Closest(_, _) => None,
        }
    }

    /// What is left for a march from the other end of the same path, so that
    /// the two together do not walk more than its length: after a hit the
    /// path less the travel consumed, after a closest approach nothing.
    pub fn remainder(&self) -> (r: Remainder<S>)
        ensures
            r is Nothing <==> *self is Closest,
            r matches Remainder::Beyond(at) ==> at == self.travel(),
    {
        match *self {
            MarchResult::Hit(at, _) => Remainder::Beyond(at),
            MarchResult::Closest(_, _) => Remainder::Nothing,
        }
    }
}

/// The state of a march between two samples of the field.
#[derive(Clone, Copy, Debug)]
pub struct March<S> {
    /// The distance travelled so far.
    pub traveled: S,
    /// The travel at which the march came closest so far.
    pub closest_at: S,
    /// The field distance sampled there.
    pub closest: S,
}

/// What one sample of the field does to a march.
#[derive(Clone, Copy, Debug)]
pub enum MarchStep<S> {
    /// The march ends here.
    Done(MarchResult<S>),
    /// The march goes on from this state.
    Advance(March<S>),
}

/// What a probe of the field finds at the current travel of a march.
#[derive(Clone, Copy, Debug)]
pub struct Probe<S> {
    /// The field distance sampled there.
    pub distance: S,
    /// The distance is within the radius.
    pub touches: bool,
    /// The distance is below the closest distance so far.
    pub closer: bool,
    /// The travel after the step that the distance allows.
    pub next: S,
}

impl<S: Copy> March<S> {
    /// What a probe does to the march. A touching probe ends it in a hit at
    /// the current travel. Any other probe moves it to `next`, and replaces
    /// the closest approach if it is closer.
    pub open spec fn sampled(self, found: Probe<S>) -> MarchStep<S> {
        if found.touches {
            MarchStep::Done(MarchResult::Hit(TimeOfImpact(self.traveled), found.distance))
        } else if found.closer {
            MarchStep::Advance(
                March { traveled: found.next, closest_at: self.traveled, closest: found.distance },
            )
        } else {
            MarchStep::Advance(
                March { traveled: found.next, closest_at: self.closest_at, closest: self.closest },
            )
        }
    }

    /// The result of a march that ends here without a hit: the closest
    /// approach seen.
    pub open spec fn finished(self) -> MarchResult<S> {
        MarchResult::Closest(TimeOfImpact(self.closest_at), self.closest)
    }

    /// A march that has not moved. `origin` is the travel at the start and
    /// `unreached` a distance that no sample exceeds.
    pub fn start(origin: S, unreached: S) -> (r: Self)
        ensures
            r == (March { traveled: origin, closest_at: origin, closest: unreached }),
    {
        March { traveled: origin, closest_at: origin, closest: unreached }
    }

    /// Takes in what a probe at the current travel found.
    pub fn sample(self, found: Probe<S>) -> (r: MarchStep<S>)
        ensures
            r == self.sampled(found),
    {
        if found.touches {
            MarchStep::Done(MarchResult::Hit(TimeOfImpact(self.traveled), found.distance))
        } else if found.closer {
            MarchStep::Advance(
                March { traveled: found.next, closest_at: self.traveled, closest: found.distance },
            )
        } else {
            MarchStep::Advance(
                March { traveled: found.next, closest_at: self.closest_at, closest: self.closest },
            )
        }
    }

    /// Ends a march that reached its bound without a hit.
    pub fn finish(self) -> (r: MarchResult<S>)
        ensures
            r == self.finished(),
    {
        MarchResult::Closest(TimeOfImpact(self.closest_at), self.closest)
    }
}

/// `result` is how a march may end that stands at `from` and may take
/// `samples` more probes, where `short` relates a travel to whether it is
/// short of the length, and `finds` a march to what a probe at its travel
/// finds.
///
/// The march ends in its closest approach when no probe is left, or when
/// its travel is not short of the length. Else the field is probed: a
/// touching probe ends the march in a hit, and any other moves it on, with
/// one probe less to take.
pub open spec fn runs<S: Copy>(
    from: March<S>,
    samples: nat,
    short: spec_fn(S, bool) -> bool,
    finds: spec_fn(March<S>, Probe<S>) -> bool,
    result: MarchResult<S>,
) -> bool
    decreases samples,
{
    if samples == 0 {
        result == from.finished()
    } else {
        ||| short(from.traveled, false) && result == from.finished()
        ||| short(from.traveled, true) && exists|found: Probe<S>|
            #[trigger] finds(from, found) && match from.sampled(found) {
                MarchStep::Done(hit) => result == hit,
                MarchStep::Advance(next) => runs(next, (samples - 1) as nat, short, finds, result),
            }
    }
}

/// `result` is how a march may end that stands at `from` and may take
/// `samples` more probes, with `under_way` to tell of a travel whether it
/// is short of the length and `probe` to sample the field.
pub open spec fn marches<S: Copy, W: Fn(&S) -> bool, D: Fn(&March<S>) -> Probe<S>>(
    from: March<S>,
    samples: nat,
    under_way: W,
    probe: D,
    result: MarchResult<S>,
) -> bool {
    runs(
        from,
        samples,
        |travel: S, answer: bool| call_ensures(under_way, (&travel,), answer),
        |at: March<S>, found: Probe<S>| call_ensures(probe, (&at,), found),
        result,
    )
}

/// Marches through a distance field until it comes within the radius, the
/// length has been walked, or `max_samples` probes have been taken.
///
/// `origin` and `unreached` are as for `March::start`. `under_way` tells of
/// a travel whether it is short of the length, and `probe` samples the
/// field at the travel of the march it is given.
///
/// The march always ends, after `max_samples` probes at the latest. A
/// closest approach is an estimate: a single pass can step over a sign
/// change of a field that was made by subtraction or intersection.
pub fn march_edge<S: Copy, W: Fn(&S) -> bool, D: Fn(&March<S>) -> Probe<S>>(
    origin: S,
    unreached: S,
    max_samples: usize,
    under_way: W,
    probe: D,
) -> (r: MarchResult<S>)
    requires
        forall|travel: S| call_requires(under_way, (&travel,)),
        forall|at: March<S>| call_requires(probe, (&at,)),
    ensures
        marches(
            March { traveled: origin, closest_at: origin, closest: unreached },
            max_samples as nat,
            under_way,
            probe,
            r,
        ),
{
    let ghost first = March { traveled: origin, closest_at: origin, closest: unreached };
    let ghost short = |travel: S, answer: bool| call_ensures(under_way, (&travel,), answer);
    let ghost finds = |at: March<S>, found: Probe<S>| call_ensures(probe, (&at,), found);
    let mut march = March::start(origin, unreached);
    let mut left: usize = max_samples;
    while left > 0
        invariant
            first == (March { traveled: origin, closest_at: origin, closest: unreached }),
            short == |travel: S, answer: bool| call_ensures(under_way, (&travel,), answer),
            finds == |at: March<S>, found: Probe<S>| call_ensures(probe, (&at,), found),
            forall|travel: S| call_requires(under_way, (&travel,)),
            forall|at: March<S>| call_requires(probe, (&at,)),
            forall|result: MarchResult<S>| #[trigger]
                runs(march, left as nat, short, finds, result) ==> runs(
                    first,
                    max_samples as nat,
                    short,
                    finds,
                    result,
                ),
        decreases left,
    {
        if !under_way(&march.traveled) {
            let result = march.finish();
            assert(short(march.traveled, false));
            assert(runs(march, left as nat, short, finds, result));
            return result;
        }
        assert(short(march.traveled, true));
        let found = probe(&march);
        let ghost here = march;
        assert(finds(here, found));
        match march.sample(found) {
            MarchStep::Done(result) => {
                assert(runs(here, left as nat, short, finds, result));
                return result;
            },
            MarchStep::Advance(next) => {
                let ghost taken = left as nat;
                left = left - 1;
                assert forall|result: MarchResult<S>| #[trigger]
                    runs(next, left as nat, short, finds, result) implies runs(
                    first,
                    max_samples as nat,
                    short,
                    finds,
                    result,
                ) by {
                    assert(here.sampled(found) == MarchStep::Advance(next));
                    assert(left as nat == (taken - 1) as nat);
                    assert(runs(here, taken, short, finds, result));
                }
                march = next;
            },
        }
    }
    let result = march.finish();
    assert(runs(march, 0, short, finds, result));
    result
}

} // verus!
