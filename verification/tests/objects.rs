use rosu_pp::attributes::OsuDifficultyAttributes;
use rosu_pp::object::{NestedSliderObject, NestedSliderObjectKind, OsuObject, OsuObjectKind, OsuSlider, Spinner};
use rosu_pp::score_state::{total_successful_hits, OsuHitResults, OsuScoreOrigin, OsuScoreState};
use rosu_pp::Osu;
use rosu_pp::object::NestedSliderObjectKind::{Repeat, Tail, Tick};

fn slider(kinds: &[NestedSliderObjectKind]) -> OsuSlider {
    OsuSlider { nested_objects: kinds.iter().map(|&kind| NestedSliderObject { kind }).collect() }
}

fn objects() -> Vec<OsuObject> {
    vec![
        OsuObject { kind: OsuObjectKind::Circle },
        OsuObject { kind: OsuObjectKind::Slider(slider(&[Tick, Repeat, Tick, Tail])) },
        OsuObject {
            kind: OsuObjectKind::Spinner(Spinner {
                total_half_spins_possible: 10,
                half_spins_required_for_completion: 3,
            }),
        },
    ]
}

#[test]
fn slider_counts() {
    let slider = slider(&[Tick, Repeat, Tick, Tail, Repeat, Tick]);
    assert_eq!(slider.repeat_count(), 2);
    assert_eq!(slider.tick_count(), 3);
    assert_eq!(slider.large_tick_count(), 5);
    assert!(slider.tail().is_some_and(|tail| matches!(tail.kind, Tail)));
    assert!(slider.nested_objects[1].is_repeat());
    assert!(slider.nested_objects[0].is_tick());
    assert!(!slider.nested_objects[3].is_tick());
}

#[test]
fn slider_without_tail() {
    assert!(slider(&[Tick, Repeat]).tail().is_none());
    assert!(slider(&[]).tail().is_none());
}

#[test]
fn object_kinds() {
    let objects = objects();
    assert!(objects[0].is_circle() && !objects[0].is_slider() && !objects[0].is_spinner());
    assert!(objects[1].is_slider() && !objects[1].is_circle());
    assert!(objects[2].is_spinner() && !objects[2].is_slider());
}

#[test]
fn increment_combo_counts_one_object() {
    let objects = objects();
    let mut attrs = OsuDifficultyAttributes::default();

    for h in &objects {
        OsuDifficultyAttributes::increment_combo(h, &mut attrs);
    }

    assert_eq!(
        attrs,
        OsuDifficultyAttributes { n_circles: 1, n_sliders: 1, n_large_ticks: 3, n_spinners: 1, max_combo: 7 }
    );
    assert_eq!(attrs.n_objects(), 3);
    assert_eq!(attrs.max_combo(), 7);
}

#[test]
fn count_objects_takes_a_prefix() {
    let objects = objects();

    let mut attrs = OsuDifficultyAttributes::default();
    OsuDifficultyAttributes::count_objects(&objects, 2, &mut attrs);
    assert_eq!(
        attrs,
        OsuDifficultyAttributes { n_circles: 1, n_sliders: 1, n_large_ticks: 3, n_spinners: 0, max_combo: 6 }
    );

    let mut all = OsuDifficultyAttributes::default();
    OsuDifficultyAttributes::count_objects(&objects, usize::MAX, &mut all);
    assert_eq!(all.max_combo, 7);
    assert_eq!(all.n_spinners, 1);
}

#[test]
fn gradual_counts_match_prefix_counts() {
    let objects = objects();
    let mut gradual = OsuDifficultyAttributes::default();

    for (i, h) in objects.iter().enumerate() {
        OsuDifficultyAttributes::increment_combo(h, &mut gradual);
        let mut prefix = OsuDifficultyAttributes::default();
        OsuDifficultyAttributes::count_objects(&objects, i + 1, &mut prefix);
        assert_eq!(gradual, prefix);
    }
}

#[test]
fn hitresults_new_and_totals() {
    let empty = OsuHitResults::new();
    assert_eq!(empty.total_hits(), 0);
    assert_eq!(empty, OsuHitResults::default());

    let h = OsuHitResults { large_tick_hits: 4, small_tick_hits: 0, slider_end_hits: 3, n300: 10, n100: 5, n50: 2, misses: 3 };
    assert_eq!(h.total_hits(), 20);
    assert_eq!(total_successful_hits(&h), 17);
}

#[test]
fn score_state_new() {
    let state = OsuScoreState::new();
    assert_eq!(state.max_combo, 0);
    assert_eq!(state.hitresults, OsuHitResults::new());
    assert_eq!(state.legacy_total_score, None);
    assert_eq!(state, OsuScoreState::default());
    let _ = Osu;
}

#[test]
fn accuracy_fraction_stable() {
    let h = OsuHitResults { large_tick_hits: 4, small_tick_hits: 0, slider_end_hits: 3, n300: 10, n100: 5, n50: 2, misses: 3 };
    assert_eq!(h.accuracy_fraction(OsuScoreOrigin::Stable), (360, 600));
}

#[test]
fn accuracy_fraction_lazer() {
    let h = OsuHitResults { large_tick_hits: 4, small_tick_hits: 7, slider_end_hits: 9, n300: 10, n100: 5, n50: 2, misses: 3 };
    let with = OsuScoreOrigin::WithSliderAcc { max_large_ticks: 10, max_slider_ends: 5 };
    // Slider end hits are capped at 5.
    assert_eq!(h.accuracy_fraction(with), (360 + 75 + 12, 600 + 75 + 30));
    let without = OsuScoreOrigin::WithoutSliderAcc { max_large_ticks: 2, max_small_ticks: 8 };
    // Large tick hits are capped at 2.
    assert_eq!(h.accuracy_fraction(without), (360 + 6 + 7, 600 + 6 + 8));
}

#[test]
fn accuracy_fraction_empty() {
    assert_eq!(OsuHitResults::new().accuracy_fraction(OsuScoreOrigin::Stable), (0, 0));
}

#[test]
fn tick_scores_match_accuracy_formula() {
    let h = OsuHitResults { large_tick_hits: 4, small_tick_hits: 0, slider_end_hits: 3, n300: 10, n100: 5, n50: 2, misses: 3 };
    let origin = OsuScoreOrigin::WithSliderAcc { max_large_ticks: 10, max_slider_ends: 5 };
    let (tick_score, tick_max) = origin.tick_scores(h.large_tick_hits, h.small_tick_hits, h.slider_end_hits);
    assert_eq!((tick_score, tick_max), (570, 1050));
    let (num, den) = h.accuracy_fraction(origin);
    assert_eq!(10 * num, u64::from(300 * h.n300 + 100 * h.n100 + 50 * h.n50 + tick_score));
    assert_eq!(10 * den, u64::from(300 * h.total_hits() + tick_max));
    assert_eq!(OsuScoreOrigin::Stable.tick_scores(1, 2, 3), (0, 0));
    let without = OsuScoreOrigin::WithoutSliderAcc { max_large_ticks: 6, max_small_ticks: 2 };
    assert_eq!(without.tick_scores(5, 1, 0), (160, 200));
}
