//! The case analysis of the closest points of two segments.

use vstd::prelude::*;

verus! {

/// How the closest-point solver obtains `s`, the parameter on the first
/// segment. Each formula is over the usual quantities of two segments
/// `(o1, d1)` and `(o2, d2)` with `r = o1 - o2`: `a = d1·d1`, `e = d2·d2`,
/// `b = d1·d2`, `c = d1·r`, `f = d2·r`. Every quotient is clamped to [0, 1].
#[derive(Clone, Copy, Debug, PartialEq, Eq, Structural)]
pub enum FirstParameter {
    /// `s = 0`.
    Start,
    /// `s = (b·f - c·e) / (a·e - b²)`, the unconstrained optimum.
    Optimum,
    /// `s = -c / a`, the projection of the second segment's start.
    ProjectStart,
    /// `s = (b - c) / a`, the projection of the second segment's end.
    ProjectEnd,
}

/// How the closest-point solver obtains `t`, the parameter on the second
/// segment.
#[derive(Clone, Copy, Debug, PartialEq, Eq, Structural)]
pub enum SecondParameter {
    /// `t = 0`.
    Start,
    /// `t = 1`.
    End,
    /// `t = f / e` clamped to [0, 1]: the projection of the first segment's start.
    Project,
    /// `t = (b·s + f) / e` for the `s` already chosen, not clamped: it is
    /// looked at once more by `reproject`.
    Follow,
}

/// The formulas for the two parameters.
#[derive(Clone, Copy, Debug, PartialEq, Eq, Structural)]
pub struct Recipe {
    pub first: FirstParameter,
    pub second: SecondParameter,
}

/// Chooses the formulas for the closest points of two segments.
///
/// `first_is_point` and `second_is_point` say that a segment's squared
/// length is within the tolerance; `determinant_clear` that `a·e - b²`
/// exceeds the tolerance, and `products_agree` that `a·e` and `b²` are equal
/// within units in the last place. The last two are looked at only where
/// both segments have length.
///
/// A segment that is a point has parameter 0, and the other segment's
/// parameter is the projection of that point. Two segments with length that
/// are close to parallel have a near-singular system: `s` is pinned to 0
/// and `t` follows from it.
pub fn choose_recipe(
    first_is_point: bool,
    second_is_point: bool,
    determinant_clear: bool,
    products_agree: bool,
) -> (r: Recipe)
    ensures
        first_is_point ==> r.first is Start,
        second_is_point ==> r.second is Start,
        first_is_point && !second_is_point ==> r.second is Project,
        !first_is_point && second_is_point ==> r.first is ProjectStart,
        !first_is_point && !second_is_point ==> {
            &&& r.second is Follow
            &&& r.first is Optimum <==> determinant_clear && !products_agree
            &&& r.first is Start <==> !(determinant_clear && !products_agree)
        },
{
    if first_is_point && second_is_point {
        Recipe { first: FirstParameter::Start, second: SecondParameter::Start }
    } else if first_is_point {
        Recipe { first: FirstParameter::Start, second: SecondParameter::Project }
    } else if second_is_point {
        Recipe { first: FirstParameter::ProjectStart, second: SecondParameter::Start }
    } else if determinant_clear && !products_agree {
        Recipe { first: FirstParameter::Optimum, second: SecondParameter::Follow }
    } else {
        Recipe { first: FirstParameter::Start, second: SecondParameter::Follow }
    }
}

/// Whether the second parameter of a recipe is looked at once more: only a
/// `t` that followed from `s` can lie outside the segment.
pub fn reprojects(recipe: Recipe) -> (r: bool)
    ensures
        r == (recipe.second is Follow),
{
    match recipe.second {
        SecondParameter::Follow => true,
        _ => false,
    }
}

/// Brings a `t` that followed from `s` back into [0, 1].
///
/// `before_start` says that `t < 0` and `past_end` that `t > 1`. A `t`
/// outside the segment is clamped to the end it overshot, and `s` is
/// replaced by the projection of that end. Inside the segment both
/// parameters stand, and the result is `None`.
pub fn reproject(before_start: bool, past_end: bool) -> (r: Option<Recipe>)
    ensures
        r is None <==> !before_start && !past_end,
        before_start ==> r == Some(
            Recipe { first: FirstParameter::ProjectStart, second: SecondParameter::Start },
        ),
        !before_start && past_end ==> r == Some(
            Recipe { first: FirstParameter::ProjectEnd, second: SecondParameter::End },
        ),
{
    if before_start {
        Some(Recipe { first: FirstParameter::ProjectStart, second: SecondParameter::Start })
    } else if past_end {
        Some(Recipe { first: FirstParameter::ProjectEnd, second: SecondParameter::End })
    } else {
        None
    }
}

} // verus!
