use rosu_pp::legacy_score::{calculate_spinner_score, GradualNestedScorePerObject, NestedScorePerObject};
use rosu_pp::legacy_score_simulator::{GradualLegacyScoreSimulator, HitResult, OsuLegacyScoreSimulator};
use rosu_pp::object::{NestedSliderObject, NestedSliderObjectKind, OsuObject, OsuObjectKind, OsuSlider, Spinner};
use rosu_pp::object::NestedSliderObjectKind::{Repeat, Tail, Tick};

fn nested(kinds: &[NestedSliderObjectKind]) -> OsuSlider {
    OsuSlider { nested_objects: kinds.iter().map(|&kind| NestedSliderObject { kind }).collect() }
}

/// A circle, a slider with tick, repeat, tick and tail, and a spinner of ten
/// half spins that needs three.
fn objects() -> Vec<OsuObject> {
    vec![
        OsuObject { kind: OsuObjectKind::Circle },
        OsuObject { kind: OsuObjectKind::Slider(nested(&[Tick, Repeat, Tick, Tail])) },
        OsuObject {
            kind: OsuObjectKind::Spinner(Spinner {
                total_half_spins_possible: 10,
                half_spins_required_for_completion: 3,
            }),
        },
    ]
}

#[test]
fn spinner_score_full_and_bonus_spins() {
    let spinner = Spinner { total_half_spins_possible: 100, half_spins_required_for_completion: 30 };
    assert_eq!(calculate_spinner_score(spinner), 13000);
}

#[test]
fn spinner_score_rounds_toward_zero() {
    let spinner = Spinner { total_half_spins_possible: -5, half_spins_required_for_completion: -10 };
    assert_eq!(calculate_spinner_score(spinner), 1800);
}

#[test]
fn spinner_score_without_bonus() {
    let spinner = Spinner { total_half_spins_possible: 10, half_spins_required_for_completion: 3 };
    assert_eq!(calculate_spinner_score(spinner), 500);
}

#[test]
fn nested_score_per_object() {
    let objects = objects();
    assert_eq!(NestedScorePerObject::calculate(&objects, usize::MAX), (610, 3));
    assert_eq!(NestedScorePerObject::calculate(&objects, 2), (110, 2));
    assert_eq!(NestedScorePerObject::calculate(&objects, 0), (0, 0));
}

#[test]
fn gradual_nested_score_matches_batch() {
    let objects = objects();
    let mut gradual = GradualNestedScorePerObject::new();

    for (i, h) in objects.iter().enumerate() {
        let next = gradual.calculate_next(h);
        assert_eq!(next, NestedScorePerObject::calculate(&objects, i + 1));
    }
}

#[test]
fn simulate_legacy_score() {
    let objects = objects();
    let mut simulator = OsuLegacyScoreSimulator::new(&objects, objects.len(), 4);
    let attrs = simulator.simulate();

    assert_eq!(attrs.accuracy_score, 1010);
    assert_eq!(attrs.combo_score, 480);
    assert_eq!(attrs.bonus_score, 2500);
    assert_eq!(attrs.standardised_bonus_score, 130);
    assert_eq!(attrs.max_combo, 7);
}

#[test]
fn simulate_legacy_score_partial() {
    let objects = objects();
    let mut simulator = OsuLegacyScoreSimulator::new(&objects, 2, 4);
    let attrs = simulator.simulate();

    assert_eq!(attrs.accuracy_score, 710);
    assert_eq!(attrs.combo_score, 240);
    assert_eq!(attrs.bonus_score, 0);
    assert_eq!(attrs.max_combo, 6);
}

#[test]
fn simulate_legacy_score_saturates_each_term() {
    let objects: Vec<OsuObject> =
        (0..4).map(|_| OsuObject { kind: OsuObjectKind::Circle }).collect();
    let mut simulator = OsuLegacyScoreSimulator::new(&objects, 4, i32::MAX);
    let attrs = simulator.simulate();

    // Factors 0, 0, 12 and 24: each nonzero product saturates at `i32::MAX`.
    assert_eq!(attrs.combo_score, 2 * i64::from(i32::MAX));
}

#[test]
fn gradual_simulation_matches_batch() {
    let objects = objects();
    let mut gradual = GradualLegacyScoreSimulator::new();
    assert_eq!(gradual.prev_score_multiplier(), None);

    for (i, h) in objects.iter().enumerate() {
        let next = gradual.simulate_next(h, 4);
        let batch = OsuLegacyScoreSimulator::new(&objects, i + 1, 4).simulate();
        assert_eq!(next, batch);
    }

    assert_eq!(gradual.prev_score_multiplier(), Some(4));
}

#[test]
fn gradual_simulation_saturates_the_sum() {
    let objects: Vec<OsuObject> =
        (0..3).map(|_| OsuObject { kind: OsuObjectKind::Circle }).collect();
    let mut gradual = GradualLegacyScoreSimulator::new();
    let mut last = None;
    for h in &objects {
        last = Some(gradual.simulate_next(h, i32::MAX));
    }

    assert_eq!(last.unwrap().combo_score, i64::from(i32::MAX));
}

#[test]
fn hit_result_base_scores() {
    assert_eq!(HitResult::Nothing.base_score(), 0);
    assert_eq!(HitResult::SmallBonus.base_score(), 10);
    assert_eq!(HitResult::LargeBonus.base_score(), 50);
}

#[test]
fn gradual_nested_score_counts_each_prefix() {
    let objects = objects();
    let mut gradual = GradualNestedScorePerObject::new();
    assert_eq!(gradual.calculate_next(&objects[0]), (0, 1));
    // Head, tail and repeat are big ticks worth 30, the two ticks 10 each.
    assert_eq!(gradual.calculate_next(&objects[1]), (110, 2));
    // The spinner of ten half spins adds 500.
    assert_eq!(gradual.calculate_next(&objects[2]), (610, 3));
}
