use sdf_peck::segments::{
    choose_recipe, reproject, reprojects, FirstParameter, Recipe, SecondParameter,
};

const BOOLS: [bool; 2] = [false, true];

#[test]
fn two_points_have_both_parameters_at_the_start() {
    for clear in BOOLS {
        for agree in BOOLS {
            assert_eq!(
                choose_recipe(true, true, clear, agree),
                Recipe { first: FirstParameter::Start, second: SecondParameter::Start }
            );
        }
    }
}

#[test]
fn a_point_is_projected_on_the_second_segment() {
    for clear in BOOLS {
        for agree in BOOLS {
            assert_eq!(
                choose_recipe(true, false, clear, agree),
                Recipe { first: FirstParameter::Start, second: SecondParameter::Project }
            );
        }
    }
}

#[test]
fn a_point_is_projected_on_the_first_segment() {
    for clear in BOOLS {
        for agree in BOOLS {
            assert_eq!(
                choose_recipe(false, true, clear, agree),
                Recipe { first: FirstParameter::ProjectStart, second: SecondParameter::Start }
            );
        }
    }
}

#[test]
fn skew_segments_take_the_optimum() {
    assert_eq!(
        choose_recipe(false, false, true, false),
        Recipe { first: FirstParameter::Optimum, second: SecondParameter::Follow }
    );
}

#[test]
fn near_parallel_segments_pin_the_first_parameter() {
    let pinned = Recipe { first: FirstParameter::Start, second: SecondParameter::Follow };
    assert_eq!(choose_recipe(false, false, false, false), pinned);
    assert_eq!(choose_recipe(false, false, false, true), pinned);
    assert_eq!(choose_recipe(false, false, true, true), pinned);
}

#[test]
fn a_parameter_inside_the_segment_stands() {
    assert_eq!(reproject(false, false), None);
}

#[test]
fn a_parameter_before_the_start_is_clamped_to_it() {
    let clamped = Recipe { first: FirstParameter::ProjectStart, second: SecondParameter::Start };
    assert_eq!(reproject(true, false), Some(clamped));
    assert_eq!(reproject(true, true), Some(clamped));
}

#[test]
fn a_parameter_past_the_end_is_clamped_to_it() {
    assert_eq!(
        reproject(false, true),
        Some(Recipe { first: FirstParameter::ProjectEnd, second: SecondParameter::End })
    );
}

#[test]
fn only_a_parameter_that_follows_is_looked_at_again() {
    let firsts = [
        FirstParameter::Start,
        FirstParameter::Optimum,
        FirstParameter::ProjectStart,
        FirstParameter::ProjectEnd,
    ];
    for first in firsts {
        assert!(reprojects(Recipe { first, second: SecondParameter::Follow }));
        assert!(!reprojects(Recipe { first, second: SecondParameter::Start }));
        assert!(!reprojects(Recipe { first, second: SecondParameter::End }));
        assert!(!reprojects(Recipe { first, second: SecondParameter::Project }));
    }
}
