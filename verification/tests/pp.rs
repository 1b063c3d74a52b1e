use rosu_pp::hitresult_generator::HitResultPriority;
use rosu_pp::pp::{OsuPP, OsuPpScoreState};

const N_OBJECTS: usize = 601;
const MAX_COMBO: usize = 909;

/// `round(acc * 6 * n_objects)` for an accuracy given in percent.
fn target(acc: f64, n_objects: usize) -> Option<usize> {
    Some(((acc / 100.0) * (n_objects * 6) as f64).round() as usize)
}

/// Accuracy of an old-style score state in percent.
fn accuracy(state: &OsuPpScoreState) -> f64 {
    let numerator = (6 * state.n300 + 2 * state.n100 + state.n50) as f64;
    let denominator = (6 * state.total_hits()) as f64;
    100.0 * numerator / denominator
}

#[test]
fn hitresults_n300_n100_n_misses_best() {
    let state = OsuPP::new(N_OBJECTS)
        .combo(500)
        .n300(300)
        .n100(20)
        .n_misses(2)
        .hitresult_priority(HitResultPriority::BestCase)
        .generate_hitresults(MAX_COMBO, None);

    let expected = OsuPpScoreState { max_combo: 500, n300: 300, n100: 20, n50: 279, n_misses: 2 };

    assert_eq!(state, expected);
}

#[test]
fn hitresults_n300_n50_n_misses_best() {
    let state = OsuPP::new(N_OBJECTS)
        .combo(500)
        .n300(300)
        .n50(10)
        .n_misses(2)
        .hitresult_priority(HitResultPriority::BestCase)
        .generate_hitresults(MAX_COMBO, None);

    let expected = OsuPpScoreState { max_combo: 500, n300: 300, n100: 289, n50: 10, n_misses: 2 };

    assert_eq!(state, expected);
}

#[test]
fn hitresults_n50_n_misses_worst() {
    let state = OsuPP::new(N_OBJECTS)
        .combo(500)
        .n50(10)
        .n_misses(2)
        .hitresult_priority(HitResultPriority::WorstCase)
        .generate_hitresults(MAX_COMBO, None);

    let expected = OsuPpScoreState { max_combo: 500, n300: 0, n100: 589, n50: 10, n_misses: 2 };

    assert_eq!(state, expected);
}

#[test]
fn hitresults_n300_n100_n50_n_misses_worst() {
    let state = OsuPP::new(N_OBJECTS)
        .combo(500)
        .n300(300)
        .n100(50)
        .n50(10)
        .n_misses(2)
        .hitresult_priority(HitResultPriority::WorstCase)
        .generate_hitresults(MAX_COMBO, None);

    let expected = OsuPpScoreState { max_combo: 500, n300: 300, n100: 50, n50: 249, n_misses: 2 };

    assert_eq!(state, expected);
}

#[test]
fn hitresults_acc_n_misses_best() {
    let state = OsuPP::new(N_OBJECTS)
        .combo(500)
        .n_misses(2)
        .hitresult_priority(HitResultPriority::BestCase)
        .generate_hitresults(MAX_COMBO, target(98.0, N_OBJECTS));

    let expected = OsuPpScoreState { max_combo: 500, n300: 584, n100: 15, n50: 0, n_misses: 2 };

    assert_eq!(state, expected, "{}% vs {}%", accuracy(&state), accuracy(&expected));
}

#[test]
fn hitresults_acc_n100_n_misses_best() {
    let state = OsuPP::new(N_OBJECTS)
        .combo(500)
        .n100(15)
        .n_misses(2)
        .hitresult_priority(HitResultPriority::BestCase)
        .generate_hitresults(MAX_COMBO, target(95.0, N_OBJECTS));

    let expected = OsuPpScoreState { max_combo: 500, n300: 562, n100: 15, n50: 22, n_misses: 2 };

    assert_eq!(state, expected, "{}% vs {}%", accuracy(&state), accuracy(&expected));
}

#[test]
fn hitresults_acc_n50_n_misses_best() {
    let state = OsuPP::new(N_OBJECTS)
        .combo(500)
        .n50(10)
        .n_misses(2)
        .hitresult_priority(HitResultPriority::BestCase)
        .generate_hitresults(MAX_COMBO, target(95.0, N_OBJECTS));

    let expected = OsuPpScoreState { max_combo: 500, n300: 560, n100: 29, n50: 10, n_misses: 2 };

    assert_eq!(state, expected, "{}% vs {}%", accuracy(&state), accuracy(&expected));
}

#[test]
fn hitresults_acc_best() {
    let state = OsuPP::new(N_OBJECTS)
        .combo(500)
        .hitresult_priority(HitResultPriority::BestCase)
        .generate_hitresults(MAX_COMBO, target(90.0, N_OBJECTS));

    let expected = OsuPpScoreState { max_combo: 500, n300: 511, n100: 89, n50: 1, n_misses: 0 };

    assert_eq!(state, expected, "{}% vs {}%", accuracy(&state), accuracy(&expected));
}

#[test]
fn hitresults_acc_worst() {
    let state = OsuPP::new(N_OBJECTS)
        .combo(500)
        .hitresult_priority(HitResultPriority::WorstCase)
        .generate_hitresults(MAX_COMBO, target(90.0, N_OBJECTS));

    let expected = OsuPpScoreState { max_combo: 500, n300: 528, n100: 4, n50: 69, n_misses: 0 };

    assert_eq!(state, expected, "{}% vs {}%", accuracy(&state), accuracy(&expected));
}

#[test]
fn pp_given_300_with_accuracy() {
    // 98%: target 3534; 300s given.
    let state = OsuPP::new(N_OBJECTS)
        .n300(580)
        .n_misses(1)
        .generate_hitresults(MAX_COMBO, target(98.0, N_OBJECTS));

    assert_eq!(state.n300, 580);
    assert_eq!(state.n300 + state.n100 + state.n50 + state.n_misses, N_OBJECTS);
    assert_eq!(state.max_combo, MAX_COMBO);
}

#[test]
fn pp_passed_objects_limit_objects() {
    let state = OsuPP::new(N_OBJECTS).passed_objects(100).n_misses(4).generate_hitresults(
        MAX_COMBO,
        None,
    );

    assert_eq!(state, OsuPpScoreState { max_combo: MAX_COMBO, n300: 96, n100: 0, n50: 0, n_misses: 4 });
}

#[test]
fn generation_fits_checks_the_arithmetic() {
    let pp = OsuPP::new(100);
    assert!(pp.generation_fits(Some(50)));
    assert!(pp.generation_fits(Some(100)));
    assert!(pp.generation_fits(Some(540)));
    assert!(pp.generation_fits(None));

    let pp = OsuPP::new(100).n300(usize::MAX);
    assert!(!pp.generation_fits(None));

    // More 50s and misses than objects leave too many to take from the 300s.
    let pp = OsuPP::new(10).n50(8).n_misses(5);
    assert!(!pp.generation_fits(Some(20)));
}

#[test]
fn low_accuracy_gives_fifties() {
    // 10% on 10 objects: the target lies below all 50s, which it gives.
    let pp = OsuPP::new(20).passed_objects(10);
    let target = target(10.0, 10);
    assert!(pp.generation_fits(target));
    let state = pp.generate_hitresults(MAX_COMBO, target);
    assert_eq!((state.n300, state.n100, state.n50, state.n_misses), (0, 0, 10, 0));

    let state = OsuPP::new(10).n300(2).generate_hitresults(MAX_COMBO, target);
    assert_eq!((state.n300, state.n100, state.n50), (2, 0, 8));

    let state = OsuPP::new(10).n100(3).generate_hitresults(MAX_COMBO, target);
    assert_eq!((state.n300, state.n100, state.n50), (0, 3, 7));

    let state = OsuPP::new(10).n50(4).generate_hitresults(MAX_COMBO, target);
    assert_eq!(state.n300 + state.n100 + state.n50, 10);
    assert_eq!(state.n50, 4);
}

#[test]
fn pp_meets_reachable_target() {
    // 90% on 100 objects asks for 540 points: 88 300s and 12 50s.
    let state = OsuPP::new(100).generate_hitresults(MAX_COMBO, Some(540));
    assert_eq!(6 * state.n300 + 2 * state.n100 + state.n50, 540);
    assert_eq!(state.n300 + state.n100 + state.n50, 100);
}
