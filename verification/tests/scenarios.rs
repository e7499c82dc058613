//! The library's decisions at work in the routines that use them, with the
//! arithmetic of each routine written out in single precision.

use approx::{AbsDiffEq, UlpsEq};
use bevy_math::{Vec3, Vec3A};
use sdf_peck::adder::{Contact, ManifoldAdder, Manifolds};
use sdf_peck::narrow_phase::{sphere_contact, NormalRule};
use sdf_peck::ray::{sphere_ray, RayOutcome, Root};
use sdf_peck::segments::{
    choose_recipe, reproject, reprojects, FirstParameter, Recipe, SecondParameter,
};

type Manifold = Vec<Contact<Vec3A, f32>>;

/// The contact of two spheres round `c1` and `c2`.
fn contact_of_spheres(c1: Vec3A, r1: f32, c2: Vec3A, r2: f32, pred_dist: f32, flipped: bool) -> Manifold {
    let mut contacts = Manifold::new();
    let manifolds = Manifolds(&mut contacts);
    let mut adder = if flipped { ManifoldAdder::flipped(manifolds) } else { ManifoldAdder::normal(manifolds) };
    let offset = c1.distance(c2);
    let dist = offset - r1 - r2;
    if let Some(rule) = sphere_contact(dist > pred_dist, offset == 0.0) {
        let normal = match rule {
            NormalRule::Along => (c2 - c1) / offset,
            NormalRule::Fallback => Vec3A::Y,
        };
        let anchor1 = normal * (r1 + dist * 0.5);
        let point = c1 + anchor1;
        adder.push(point, anchor1, point - c2, normal, -dist);
    }
    contacts
}

struct Terms {
    a: f32,
    e: f32,
    b: f32,
    c: f32,
    f: f32,
}

fn evaluate(terms: &Terms, recipe: Recipe) -> (f32, f32) {
    let Terms { a, e, b, c, f } = *terms;
    let s = match recipe.first {
        FirstParameter::Start => 0.0,
        FirstParameter::Optimum => ((b * f - c * e) / (a * e - b * b)).clamp(0.0, 1.0),
        FirstParameter::ProjectStart => (-c / a).clamp(0.0, 1.0),
        FirstParameter::ProjectEnd => ((b - c) / a).clamp(0.0, 1.0),
    };
    let t = match recipe.second {
        SecondParameter::Start => 0.0,
        SecondParameter::End => 1.0,
        SecondParameter::Project => (f / e).clamp(0.0, 1.0),
        SecondParameter::Follow => (b * s + f) / e,
    };
    (s, t)
}

/// The parameters of the closest points of two segments.
fn closest_points(o1: Vec3, d1: Vec3, o2: Vec3, d2: Vec3) -> (f32, f32) {
    let r = o1 - o2;
    let terms = Terms { a: d1.length_squared(), e: d2.length_squared(), b: d1.dot(d2), c: d1.dot(r), f: d2.dot(r) };
    let (ae, bb) = (terms.a * terms.e, terms.b * terms.b);
    let eps = f32::EPSILON;
    let agree = ae.ulps_eq(&bb, f32::default_epsilon(), f32::default_max_ulps());
    let recipe = choose_recipe(terms.a <= eps, terms.e <= eps, ae - bb > eps, agree);
    let (s, t) = evaluate(&terms, recipe);
    if !reprojects(recipe) {
        return (s, t);
    }
    match reproject(t < 0.0, t > 1.0) {
        Some(clamped) => evaluate(&terms, clamped),
        None => (s, t),
    }
}

/// The travel of a ray to a sphere round the origin.
fn ray_to_sphere(radius: f32, origin: Vec3, direction: Vec3, solid: bool) -> Option<f32> {
    let c = origin.length_squared() - radius * radius;
    let b = origin.dot(direction);
    let d = b * b - c;
    match sphere_ray(c > 0.0, b > 0.0, d < 0.0, solid) {
        RayOutcome::Miss => None,
        RayOutcome::AtOrigin => Some(0.0),
        RayOutcome::At(Root::Near) => Some(-b - d.sqrt()),
        RayOutcome::At(Root::Far) => Some(-b + d.sqrt()),
    }
}

#[test]
fn two_unit_spheres_one_and_a_half_apart() {
    let contacts = contact_of_spheres(Vec3A::ZERO, 1.0, Vec3A::new(1.5, 0.0, 0.0), 1.0, 0.0, false);
    assert_eq!(contacts.len(), 1);
    assert_eq!(contacts[0].normal, Vec3A::X);
    assert_eq!(contacts[0].penetration, 0.5);
    assert_eq!(contacts[0].point, Vec3A::new(0.75, 0.0, 0.0));
    assert_eq!(contacts[0].anchor1, Vec3A::new(0.75, 0.0, 0.0));
    assert_eq!(contacts[0].anchor2, Vec3A::new(-0.75, 0.0, 0.0));
}

#[test]
fn spheres_apart_by_more_than_the_margin_have_no_contact() {
    let far = Vec3A::new(2.5, 0.0, 0.0);
    assert!(contact_of_spheres(Vec3A::ZERO, 1.0, far, 1.0, 0.25, false).is_empty());
    let near = contact_of_spheres(Vec3A::ZERO, 1.0, far, 1.0, 0.5, false);
    assert_eq!(near.len(), 1);
    assert_eq!(near[0].penetration, -0.5);
}

#[test]
fn coincident_spheres_give_the_up_axis_and_no_nan() {
    let centre = Vec3A::new(0.3, -2.0, 5.0);
    let contacts = contact_of_spheres(centre, 1.0, centre, 0.5, 0.0, false);
    assert_eq!(contacts.len(), 1);
    let contact = &contacts[0];
    assert_eq!(contact.normal, Vec3A::Y);
    assert_eq!(contact.penetration, 1.5);
    assert!(!contact.point.is_nan());
    assert!(!contact.anchor1.is_nan());
    assert!(!contact.anchor2.is_nan());
}

#[test]
fn a_wider_margin_keeps_every_contact_and_its_normal() {
    let c2 = Vec3A::new(0.0, 0.0, 2.25);
    let mut normal = None;
    for margin in [0.0f32, 0.1, 0.25, 0.5, 2.0] {
        let contacts = contact_of_spheres(Vec3A::ZERO, 1.0, c2, 1.0, margin, false);
        if let Some(seen) = normal {
            assert_eq!(contacts.len(), 1);
            assert_eq!(contacts[0].normal, seen);
        }
        if let Some(contact) = contacts.first() {
            normal = Some(contact.normal);
        }
    }
    assert_eq!(normal, Some(Vec3A::Z));
}

#[test]
fn the_flipped_path_gives_the_contact_of_the_exchanged_pair() {
    let (c1, r1) = (Vec3A::new(-1.0, 0.5, 0.0), 1.25);
    let (c2, r2) = (Vec3A::new(1.0, 0.5, 0.0), 1.0);
    let direct = contact_of_spheres(c1, r1, c2, r2, 0.0, false);
    let flipped = contact_of_spheres(c1, r1, c2, r2, 0.0, true);
    assert_eq!(direct.len(), 1);
    assert_eq!(flipped.len(), 1);
    assert_eq!(flipped[0].point, direct[0].point);
    assert_eq!(flipped[0].anchor1, direct[0].anchor2);
    assert_eq!(flipped[0].anchor2, direct[0].anchor1);
    assert_eq!(flipped[0].normal, -direct[0].normal);
    assert_eq!(flipped[0].penetration, direct[0].penetration);
    assert_eq!(direct[0].normal, Vec3A::X);
}

#[test]
fn parallel_capsules_touch_by_the_radius_sum_less_the_offset() {
    // Two upright capsules of half length 1, the second 0.4 to the side.
    let (radius1, radius2, half_length) = (0.25f32, 0.25f32, 1.0f32);
    let bottom1 = Vec3::new(0.0, -half_length, 0.0);
    let bottom2 = Vec3::new(0.4, -half_length, 0.0);
    let to_end = Vec3::new(0.0, 2.0 * half_length, 0.0);
    let (s, t) = closest_points(bottom1, to_end, bottom2, to_end);
    assert_eq!((s, t), (0.0, 0.0));

    let closest1 = Vec3A::from(bottom1 + to_end * s);
    let closest2 = Vec3A::from(bottom2 + to_end * t);
    let contacts = contact_of_spheres(closest1, radius1, closest2, radius2, 0.0, false);
    assert_eq!(contacts.len(), 1);
    assert_eq!(contacts[0].normal, Vec3A::X);
    assert_eq!(contacts[0].penetration, (radius1 + radius2) - 0.4);
}

#[test]
fn crossing_segments_meet_in_their_middles() {
    let (s, t) = closest_points(
        Vec3::new(-1.0, 0.0, 0.0),
        Vec3::new(2.0, 0.0, 0.0),
        Vec3::new(0.0, -1.0, 0.5),
        Vec3::new(0.0, 2.0, 0.0),
    );
    assert_eq!((s, t), (0.5, 0.5));
}

#[test]
fn a_segment_past_the_end_of_another_is_clamped() {
    let (s, t) = closest_points(
        Vec3::new(0.0, 0.0, 0.0),
        Vec3::new(1.0, 0.0, 0.0),
        Vec3::new(3.0, 1.0, 0.0),
        Vec3::new(2.0, 1.0, 0.0),
    );
    assert_eq!((s, t), (1.0, 0.0));
}

#[test]
fn a_point_is_projected_on_a_segment() {
    let (s, t) = closest_points(
        Vec3::new(0.25, 1.0, 0.0),
        Vec3::ZERO,
        Vec3::new(0.0, 0.0, 0.0),
        Vec3::new(1.0, 0.0, 0.0),
    );
    assert_eq!((s, t), (0.0, 0.25));
}

#[test]
fn a_ray_at_a_sphere_centre_hits_at_the_distance_less_the_radius() {
    let origin = Vec3::new(0.0, 0.0, -5.0);
    assert_eq!(ray_to_sphere(1.5, origin, Vec3::Z, true), Some(3.5));
    assert_eq!(ray_to_sphere(1.5, origin, Vec3::Z, false), Some(3.5));
}

#[test]
fn a_ray_away_from_a_sphere_misses_it() {
    let origin = Vec3::new(0.0, 0.0, -5.0);
    assert_eq!(ray_to_sphere(1.5, origin, Vec3::NEG_Z, true), None);
    assert_eq!(ray_to_sphere(1.5, origin, Vec3::NEG_Z, false), None);
}

#[test]
fn a_ray_from_inside_a_sphere() {
    let origin = Vec3::new(0.5, 0.0, 0.0);
    assert_eq!(ray_to_sphere(2.0, origin, Vec3::X, true), Some(0.0));
    assert_eq!(ray_to_sphere(2.0, origin, Vec3::X, false), Some(1.5));
    assert_eq!(ray_to_sphere(2.0, origin, Vec3::NEG_X, false), Some(2.5));
}

#[test]
fn a_ray_that_passes_a_sphere_by_misses_it() {
    let origin = Vec3::new(0.0, 5.0, -5.0);
    assert_eq!(ray_to_sphere(1.0, origin, Vec3::Z, true), None);
    assert_eq!(ray_to_sphere(1.0, origin, Vec3::Z, false), None);
}

#[test]
fn a_ray_that_grazes_a_sphere_touches_it() {
    let origin = Vec3::new(0.0, 1.0, -5.0);
    assert_eq!(ray_to_sphere(1.0, origin, Vec3::Z, true), Some(5.0));
}
