use rosu_pp::attributes::OsuDifficultyAttributes;
use rosu_pp::hitresult_generator::HitResultPriority;
use rosu_pp::performance::OsuPerformance;
use rosu_pp::score_state::{OsuHitResults, OsuScoreState};

const N_SLIDERS: u32 = 293;
const N_SLIDER_TICKS: u32 = 15;

/// The object counts of the map the performance tests were written for:
/// 307 circles, 293 sliders and 1 spinner.
fn attrs() -> OsuDifficultyAttributes {
    OsuDifficultyAttributes {
        n_circles: 307,
        n_sliders: N_SLIDERS,
        n_large_ticks: N_SLIDER_TICKS,
        n_spinners: 1,
        max_combo: 909,
    }
}

#[test]
fn hitresults_n300_n100_misses_best() {
    let mut perf = OsuPerformance::new()
        .combo(500)
        .lazer(true)
        .n300(300)
        .n100(20)
        .misses(2)
        .hitresult_priority(HitResultPriority::BestCase);
    let state = perf.generate_state(attrs(), None);

    let expected = OsuHitResults {
        large_tick_hits: N_SLIDER_TICKS,
        small_tick_hits: 0,
        slider_end_hits: N_SLIDERS,
        n300: 300,
        n100: 20,
        n50: 279,
        misses: 2,
    };

    assert_eq!(state.hitresults, expected);
}

#[test]
fn hitresults_n300_n50_misses_best() {
    let mut perf = OsuPerformance::new()
        .lazer(false)
        .combo(500)
        .n300(300)
        .n50(10)
        .misses(2)
        .hitresult_priority(HitResultPriority::BestCase);
    let state = perf.generate_state(attrs(), None);

    let expected = OsuHitResults {
        large_tick_hits: 0,
        small_tick_hits: 0,
        slider_end_hits: 0,
        n300: 300,
        n100: 289,
        n50: 10,
        misses: 2,
    };

    assert_eq!(state.hitresults, expected);
}

#[test]
fn hitresults_n50_misses_worst() {
    let mut perf = OsuPerformance::new()
        .lazer(true)
        .combo(500)
        .n50(10)
        .misses(2)
        .hitresult_priority(HitResultPriority::WorstCase);
    let state = perf.generate_state(attrs(), None);

    let expected = OsuHitResults {
        large_tick_hits: N_SLIDER_TICKS,
        small_tick_hits: 0,
        slider_end_hits: N_SLIDERS,
        n300: 0,
        n100: 589,
        n50: 10,
        misses: 2,
    };

    assert_eq!(state.hitresults, expected);
}

#[test]
fn hitresults_n300_n100_n50_misses_worst() {
    let mut perf = OsuPerformance::new()
        .lazer(false)
        .combo(500)
        .n300(300)
        .n100(50)
        .n50(10)
        .misses(2)
        .hitresult_priority(HitResultPriority::WorstCase);
    let state = perf.generate_state(attrs(), None);

    let expected = OsuHitResults {
        large_tick_hits: 0,
        small_tick_hits: 0,
        slider_end_hits: 0,
        n300: 300,
        n100: 50,
        n50: 249,
        misses: 2,
    };

    assert_eq!(state.hitresults, expected);
}

#[test]
fn generate_state_caps_combo_and_fixes_settings() {
    let mut perf = OsuPerformance::new().combo(2000).misses(9);
    let state = perf.generate_state(attrs(), None);

    // The combo is capped at the maximum combo minus the misses.
    assert_eq!(state.max_combo, 900);
    assert_eq!(perf.combo, Some(900));
    assert_eq!(perf.n300, Some(state.hitresults.n300));
    assert_eq!(perf.misses, Some(9));
    assert_eq!(state.hitresults.total_hits(), 601);
}

#[test]
fn generate_state_is_idempotent() {
    let mut perf = OsuPerformance::new().n100(40).misses(3).passed_objects(300);
    let first = perf.generate_state(attrs(), Some(1700));
    let second = perf.generate_state(attrs(), Some(1700));

    assert_eq!(first, second);
    assert_eq!(first.hitresults.total_hits(), 300);
}

#[test]
fn generate_state_with_fills_priority_kind() {
    let mut perf = OsuPerformance::new().lazer(false).n300(100).n50(5).hitresult_priority(
        HitResultPriority::WorstCase,
    );
    let generated = OsuHitResults {
        large_tick_hits: 0,
        small_tick_hits: 0,
        slider_end_hits: 0,
        n300: 100,
        n100: 0,
        n50: 5,
        misses: 0,
    };
    let state = perf.generate_state_with(attrs(), generated);

    // The 100s are the first unspecified kind in worst-case order.
    assert_eq!(state.hitresults.n100, 496);
    assert_eq!(state.max_combo, 909);
}

#[test]
fn builder_state_sets_everything() {
    let hitresults = OsuHitResults {
        large_tick_hits: 1,
        small_tick_hits: 2,
        slider_end_hits: 3,
        n300: 4,
        n100: 5,
        n50: 6,
        misses: 7,
    };
    let state = rosu_pp::score_state::OsuScoreState {
        max_combo: 8,
        hitresults,
        legacy_total_score: Some(9),
    };
    let perf = OsuPerformance::new().state(state);

    assert_eq!(perf.combo, Some(8));
    assert_eq!(perf.large_tick_hits, Some(1));
    assert_eq!(perf.small_tick_hits, Some(2));
    assert_eq!(perf.slider_end_hits, Some(3));
    assert_eq!(perf.n300, Some(4));
    assert_eq!(perf.n100, Some(5));
    assert_eq!(perf.n50, Some(6));
    assert_eq!(perf.misses, Some(7));
    assert_eq!(perf.legacy_total_score, Some(9));
}

#[test]
fn complete_state_comes_back_unchanged() {
    let state = OsuScoreState {
        max_combo: 700,
        hitresults: OsuHitResults {
            large_tick_hits: 10,
            small_tick_hits: 0,
            slider_end_hits: 280,
            n300: 550,
            n100: 40,
            n50: 6,
            misses: 5,
        },
        legacy_total_score: Some(1_000_000),
    };

    for target in [None, Some(3000)] {
        let mut perf = OsuPerformance::new().state(state.clone());
        assert_eq!(perf.generate_state(attrs(), target), state);
        // A second generation changes nothing either.
        assert_eq!(perf.generate_state(attrs(), target), state);
    }
}

#[test]
fn no_accuracy_needs_no_tick_score() {
    // Tick maxima whose tick score would not fit `u32` do not matter
    // without an accuracy.
    let attrs = OsuDifficultyAttributes {
        n_circles: 10,
        n_sliders: 1,
        n_large_ticks: u32::MAX - 1,
        n_spinners: 0,
        max_combo: 20,
    };
    let mut perf = OsuPerformance::new().n300(5);
    let state = perf.generate_state(attrs, None);
    assert_eq!(state.hitresults.n300 + state.hitresults.n100 + state.hitresults.n50, 11);
}
