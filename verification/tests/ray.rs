use sdf_peck::ray::{
    capsule_band, capsule_cap, capsule_contains, capsule_ray_entry, sphere_ray, Axial, BandOutcome,
    Cap, RayOutcome, Root,
};

const BOOLS: [bool; 2] = [false, true];

#[test]
fn a_ray_that_recedes_from_outside_a_sphere_misses() {
    for no_crossing in BOOLS {
        assert_eq!(sphere_ray(true, true, no_crossing, true), RayOutcome::Miss);
        assert_eq!(sphere_ray(true, true, no_crossing, false), RayOutcome::Miss);
    }
}

#[test]
fn a_ray_whose_line_passes_a_sphere_by_misses() {
    assert_eq!(sphere_ray(true, false, true, true), RayOutcome::Miss);
    assert_eq!(sphere_ray(true, false, true, false), RayOutcome::Miss);
}

#[test]
fn a_ray_toward_a_sphere_meets_the_near_crossing() {
    assert_eq!(sphere_ray(true, false, false, true), RayOutcome::At(Root::Near));
    assert_eq!(sphere_ray(true, false, false, false), RayOutcome::At(Root::Near));
}

#[test]
fn a_ray_from_inside_a_solid_sphere_hits_at_once() {
    for receding in BOOLS {
        for no_crossing in BOOLS {
            assert_eq!(sphere_ray(false, receding, no_crossing, true), RayOutcome::AtOrigin);
        }
    }
}

#[test]
fn a_ray_from_inside_a_hollow_sphere_meets_the_far_crossing() {
    for receding in BOOLS {
        for no_crossing in BOOLS {
            assert_eq!(sphere_ray(false, receding, no_crossing, false), RayOutcome::At(Root::Far));
        }
    }
}

#[test]
fn a_point_is_inside_a_capsule_within_the_radius_and_between_or_near_the_caps() {
    for inside_radius in BOOLS {
        for between_caps in BOOLS {
            for within_cap in BOOLS {
                assert_eq!(
                    capsule_contains(inside_radius, between_caps, within_cap),
                    inside_radius && (between_caps || within_cap)
                );
            }
        }
    }
}

#[test]
fn a_line_that_passes_the_cylinder_by_misses_the_capsule() {
    for inside in BOOLS {
        for solid in BOOLS {
            assert_eq!(capsule_ray_entry(false, inside, solid), RayOutcome::Miss);
        }
    }
}

#[test]
fn a_solid_capsule_is_hit_at_an_origin_inside_it() {
    assert_eq!(capsule_ray_entry(true, true, true), RayOutcome::AtOrigin);
}

#[test]
fn the_cylinder_crossing_depends_on_the_side_of_the_origin() {
    assert_eq!(capsule_ray_entry(true, true, false), RayOutcome::At(Root::Far));
    assert_eq!(capsule_ray_entry(true, false, false), RayOutcome::At(Root::Near));
    assert_eq!(capsule_ray_entry(true, false, true), RayOutcome::At(Root::Near));
}

#[test]
fn a_forward_crossing_on_the_band_settles_the_query() {
    assert_eq!(capsule_band(Axial::Within, true, false), BandOutcome::Hit);
    assert_eq!(capsule_band(Axial::Within, true, true), BandOutcome::Miss);
}

#[test]
fn a_crossing_off_the_band_goes_to_the_cap_on_its_side() {
    for forward in BOOLS {
        for beyond in BOOLS {
            assert_eq!(capsule_band(Axial::Below, forward, beyond), BandOutcome::Cap(Cap::Bottom));
            assert_eq!(capsule_band(Axial::Above, forward, beyond), BandOutcome::Cap(Cap::Top));
        }
    }
}

#[test]
fn a_crossing_behind_the_origin_goes_to_the_top_cap() {
    for beyond in BOOLS {
        assert_eq!(capsule_band(Axial::Within, false, beyond), BandOutcome::Cap(Cap::Top));
    }
}

fn expected_cap(
    outside: bool,
    receding: bool,
    no_crossing: bool,
    origin_inside: bool,
    preferred_forward: bool,
    preferred_in_reach: bool,
    far_beyond_reach: bool,
) -> RayOutcome {
    if (outside && receding) || no_crossing {
        return RayOutcome::Miss;
    }
    if preferred_forward && preferred_in_reach {
        return RayOutcome::At(if origin_inside { Root::Far } else { Root::Near });
    }
    if far_beyond_reach {
        return RayOutcome::Miss;
    }
    RayOutcome::At(Root::Far)
}

#[test]
fn the_cap_decides_as_its_sphere_does_within_reach() {
    for bits in 0u32..128 {
        let flag = |k: u32| bits & (1 << k) != 0;
        let args = (flag(0), flag(1), flag(2), flag(3), flag(4), flag(5), flag(6));
        assert_eq!(
            capsule_cap(args.0, args.1, args.2, args.3, args.4, args.5, args.6),
            expected_cap(args.0, args.1, args.2, args.3, args.4, args.5, args.6)
        );
    }
}

#[test]
fn a_cap_that_the_ray_recedes_from_is_missed() {
    assert_eq!(capsule_cap(true, true, false, false, true, true, false), RayOutcome::Miss);
}

#[test]
fn a_cap_that_the_line_passes_by_is_missed() {
    assert_eq!(capsule_cap(true, false, true, false, true, true, false), RayOutcome::Miss);
}

#[test]
fn a_cap_ahead_is_met_at_the_near_crossing() {
    assert_eq!(capsule_cap(true, false, false, false, true, true, false), RayOutcome::At(Root::Near));
}

#[test]
fn a_cap_out_of_reach_is_missed() {
    assert_eq!(capsule_cap(true, false, false, false, true, false, true), RayOutcome::Miss);
}

#[test]
fn the_far_crossing_stands_in_where_the_preferred_one_is_behind() {
    assert_eq!(capsule_cap(false, false, false, false, false, true, false), RayOutcome::At(Root::Far));
}
