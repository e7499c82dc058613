//! The decisions of the analytic ray queries against a sphere and a
//! capsule: whether a ray hits, and at which crossing of the boundary.

use vstd::prelude::*;

verus! {

/// One of the two crossings of a ray's line with a boundary.
#[derive(Clone, Copy, Debug, PartialEq, Eq, Structural)]
pub enum Root {
    /// The crossing with the smaller travel.
    Near,
    /// The crossing with the larger travel.
    Far,
}

/// What a ray does to a shape.
#[derive(Clone, Copy, Debug, PartialEq, Eq, Structural)]
pub enum RayOutcome {
    /// No intersection.
    Miss,
    /// The ray starts inside a solid shape: the travel is 0.
    AtOrigin,
    /// The ray meets the boundary at this crossing.
    At(Root),
}

/// Where, measured along a capsule's axis, a ray meets the capsule's
/// infinite cylinder.
#[derive(Clone, Copy, Debug, PartialEq, Eq, Structural)]
pub enum Axial {
    /// At or below the centre of the bottom cap.
    Below,
    /// Strictly between the centres of the two caps.
    Within,
    /// Anywhere else.
    Above,
}

/// One of the two hemispherical caps of a capsule.
#[derive(Clone, Copy, Debug, PartialEq, Eq, Structural)]
pub enum Cap {
    Bottom,
    Top,
}

/// What the cylindrical band of a capsule does to a ray.
#[derive(Clone, Copy, Debug, PartialEq, Eq, Structural)]
pub enum BandOutcome {
    /// The ray meets the band within reach.
    Hit,
    /// The ray meets the band beyond its maximum travel.
    Miss,
    /// The ray does not meet the band ahead of it: this cap decides.
    Cap(Cap),
}

/// Ray against sphere, in the sphere's local frame.
///
/// `outside` says that the origin lies outside the sphere, `receding` that
/// the direction points away from its centre, and `no_crossing` that the
/// ray's line does not meet the sphere at all. From outside, a ray that
/// recedes or whose line passes the sphere by misses; any other meets the
/// near crossing. From inside, a solid sphere is met at the origin and a
/// hollow one at the far crossing.
pub fn sphere_ray(outside: bool, receding: bool, no_crossing: bool, solid: bool) -> (r: RayOutcome)
    ensures
        r is Miss <==> outside && (receding || no_crossing),
        r is AtOrigin <==> !outside && solid,
        r matches RayOutcome::At(root) ==> (root is Near <==> outside),
{
    if outside {
        if receding || no_crossing {
            RayOutcome::Miss
        } else {
            RayOutcome::At(Root::Near)
        }
    } else if solid {
        RayOutcome::AtOrigin
    } else {
        RayOutcome::At(Root::Far)
    }
}

/// Whether a point lies inside a capsule.
///
/// `inside_radius` says that the point is within the radius of the axis
/// line, `between_caps` that its height is strictly between the cap
/// centres, `within_cap` that it is within the radius of a cap centre, by
/// the capsule's own test.
pub fn capsule_contains(inside_radius: bool, between_caps: bool, within_cap: bool) -> (r: bool)
    ensures
        r == (inside_radius && (between_caps || within_cap)),
{
    inside_radius && (within_cap || between_caps)
}

/// Ray against capsule, first step: the infinite cylinder round the axis.
///
/// `crosses` says that the ray's line meets the cylinder at all. A line
/// that does not misses the capsule. A solid capsule is met at an origin
/// inside it. Otherwise a crossing of the cylinder is looked at next: the
/// near one from outside, the far one from inside.
pub fn capsule_ray_entry(crosses: bool, origin_inside: bool, solid: bool) -> (r: RayOutcome)
    ensures
        r is Miss <==> !crosses,
        r is AtOrigin <==> crosses && origin_inside && solid,
        r matches RayOutcome::At(root) ==> (root is Far <==> origin_inside),
{
    if !crosses {
        RayOutcome::Miss
    } else if solid && origin_inside {
        RayOutcome::AtOrigin
    } else if origin_inside {
        RayOutcome::At(Root::Far)
    } else {
        RayOutcome::At(Root::Near)
    }
}

/// Ray against capsule, second step: is the chosen crossing of the cylinder
/// on the band between the caps?
///
/// `forward` says that the crossing has positive travel, `beyond_reach`
/// that its travel exceeds the ray's maximum. A forward crossing on the
/// band settles the query: a hit within reach, a miss beyond. Any other
/// crossing hands over to a cap: the bottom one where the crossing is at
/// or below its centre, the top one otherwise.
pub fn capsule_band(axial: Axial, forward: bool, beyond_reach: bool) -> (r: BandOutcome)
    ensures
        r is Hit <==> axial is Within && forward && !beyond_reach,
        r is Miss <==> axial is Within && forward && beyond_reach,
        r matches BandOutcome::Cap(cap) ==> (cap is Bottom <==> axial is Below),
{
    let on_band = match axial {
        Axial::Within => true,
        _ => false,
    };
    if on_band && forward {
        if beyond_reach {
            BandOutcome::Miss
        } else {
            BandOutcome::Hit
        }
    } else {
        match axial {
            Axial::Below => BandOutcome::Cap(Cap::Bottom),
            _ => BandOutcome::Cap(Cap::Top),
        }
    }
}

/// Ray against capsule, last step: the sphere of the cap that decides.
///
/// `outside` and `receding` are as for `sphere_ray`, of the cap's sphere;
/// `no_crossing` says that the ray's line does not meet that sphere. The
/// preferred crossing is the far one for an origin inside the capsule and
/// the near one otherwise; `preferred_forward` says that its travel is
/// positive, `preferred_in_reach` that it is within the ray's maximum
/// travel, and `far_beyond_reach` that the far crossing exceeds it.
///
/// The ray misses where it recedes from outside the sphere or its line
/// passes the sphere by. Otherwise the preferred crossing is met where it
/// is ahead and in reach; failing that the far crossing, unless it is out
/// of reach.
pub fn capsule_cap(
    outside: bool,
    receding: bool,
    no_crossing: bool,
    origin_inside: bool,
    preferred_forward: bool,
    preferred_in_reach: bool,
    far_beyond_reach: bool,
) -> (r: RayOutcome)
    ensures
        r !is AtOrigin,
        (outside && receding) || no_crossing ==> r is Miss,
        !(outside && receding) && !no_crossing ==> {
            &&& preferred_forward && preferred_in_reach ==> r == RayOutcome::At(
                if origin_inside {
                    Root::Far
                } else {
                    Root::Near
                },
            )
            &&& !(preferred_forward && preferred_in_reach) && far_beyond_reach ==> r is Miss
            &&& !(preferred_forward && preferred_in_reach) && !far_beyond_reach ==> r
                == RayOutcome::At(Root::Far)
        },
{
    if outside && receding {
        RayOutcome::Miss
    } else if no_crossing {
        RayOutcome::Miss
    } else if preferred_forward && preferred_in_reach {
        if origin_inside {
            RayOutcome::At(Root::Far)
        } else {
            RayOutcome::At(Root::Near)
        }
    } else if far_beyond_reach {
        RayOutcome::Miss
    } else {
        RayOutcome::At(Root::Far)
    }
}

} // verus!
