use rosu_pp::attributes::OsuDifficultyAttributes;
use rosu_pp::hitresult_generator::{HitResultPriority, IgnoreAccuracy, InspectOsuPerformance};

#[test]
fn all_specified_exact() {
    const N_CIRCLES: u32 = 100;

    let inspect = InspectOsuPerformance {
        attrs: OsuDifficultyAttributes {
            n_circles: N_CIRCLES,
            ..Default::default()
        },
        passed_objects: None,
        lazer: true,
        using_classic_slider_acc: false,
        combo: None,
        large_tick_hits: None,
        small_tick_hits: None,
        slider_end_hits: None,
        n300: Some(40),
        n100: Some(30),
        n50: Some(20),
        misses: Some(10),
        hitresult_priority: HitResultPriority::BestCase,
    };

    let result =
        IgnoreAccuracy::generate_hitresults(inspect.clone());

    assert_eq!(result.n300, inspect.n300.unwrap());
    assert_eq!(result.n100, inspect.n100.unwrap());
    assert_eq!(result.n50, inspect.n50.unwrap());
    assert_eq!(result.misses, inspect.misses.unwrap());
}
#[test]
fn all_specified_too_few_best() {
    const N_CIRCLES: u32 = 100;

    let inspect = InspectOsuPerformance {
        attrs: OsuDifficultyAttributes {
            n_circles: N_CIRCLES,
            ..Default::default()
        },
        passed_objects: None,
        lazer: true,
        using_classic_slider_acc: false,
        combo: None,
        large_tick_hits: None,
        small_tick_hits: None,
        slider_end_hits: None,
        n300: Some(40),
        n100: Some(30),
        n50: Some(10),
        misses: Some(10),
        hitresult_priority: HitResultPriority::BestCase,
    };

    let result =
        IgnoreAccuracy::generate_hitresults(inspect.clone());

    assert_eq!(
        result.n300,
        N_CIRCLES - inspect.n100.unwrap() - inspect.n50.unwrap() - inspect.misses.unwrap()
    );
    assert_eq!(result.n100, inspect.n100.unwrap());
    assert_eq!(result.n50, inspect.n50.unwrap());
    assert_eq!(result.misses, inspect.misses.unwrap());
}
#[test]
fn all_specified_too_few_worst() {
    const N_CIRCLES: u32 = 100;

    let inspect = InspectOsuPerformance {
        attrs: OsuDifficultyAttributes {
            n_circles: N_CIRCLES,
            ..Default::default()
        },
        passed_objects: None,
        lazer: true,
        using_classic_slider_acc: false,
        combo: None,
        large_tick_hits: None,
        small_tick_hits: None,
        slider_end_hits: None,
        n300: Some(40),
        n100: Some(30),
        n50: Some(10),
        misses: Some(10),
        hitresult_priority: HitResultPriority::WorstCase,
    };

    let result =
        IgnoreAccuracy::generate_hitresults(inspect.clone());

    assert_eq!(result.n300, inspect.n300.unwrap());
    assert_eq!(result.n100, inspect.n100.unwrap());
    assert_eq!(
        result.n50,
        N_CIRCLES - inspect.n300.unwrap() - inspect.n100.unwrap() - inspect.misses.unwrap()
    );
    assert_eq!(result.misses, inspect.misses.unwrap());
}
#[test]
fn all_specified_too_many_best() {
    const N_CIRCLES: u32 = 100;

    let inspect = InspectOsuPerformance {
        attrs: OsuDifficultyAttributes {
            n_circles: N_CIRCLES,
            ..Default::default()
        },
        passed_objects: None,
        lazer: true,
        using_classic_slider_acc: false,
        combo: None,
        large_tick_hits: None,
        small_tick_hits: None,
        slider_end_hits: None,
        n300: Some(40),
        n100: Some(30),
        n50: Some(30),
        misses: Some(10),
        hitresult_priority: HitResultPriority::BestCase,
    };

    let result =
        IgnoreAccuracy::generate_hitresults(inspect.clone());

    assert_eq!(result.n300, inspect.n300.unwrap());
    assert_eq!(result.n100, inspect.n100.unwrap());
    assert_eq!(result.n50, 20); // Best case so we subtract from n50s
    assert_eq!(result.misses, inspect.misses.unwrap());
}
#[test]
fn all_specified_too_many_worst() {
    const N_CIRCLES: u32 = 100;

    let inspect = InspectOsuPerformance {
        attrs: OsuDifficultyAttributes {
            n_circles: N_CIRCLES,
            ..Default::default()
        },
        passed_objects: None,
        lazer: true,
        using_classic_slider_acc: false,
        combo: None,
        large_tick_hits: None,
        small_tick_hits: None,
        slider_end_hits: None,
        n300: Some(40),
        n100: Some(30),
        n50: Some(30),
        misses: Some(10),
        hitresult_priority: HitResultPriority::WorstCase,
    };

    let result =
        IgnoreAccuracy::generate_hitresults(inspect.clone());

    assert_eq!(result.n300, 30); // Worst case so we subtract from n300s
    assert_eq!(result.n100, inspect.n100.unwrap());
    assert_eq!(result.n50, inspect.n50.unwrap());
    assert_eq!(result.misses, inspect.misses.unwrap());
}
#[test]
fn none_specified_best() {
    const N_CIRCLES: u32 = 100;

    let inspect = InspectOsuPerformance {
        attrs: OsuDifficultyAttributes {
            n_circles: N_CIRCLES,
            ..Default::default()
        },
        passed_objects: None,
        lazer: true,
        using_classic_slider_acc: false,
        combo: None,
        large_tick_hits: None,
        small_tick_hits: None,
        slider_end_hits: None,
        n300: None,
        n100: None,
        n50: None,
        misses: Some(10),
        hitresult_priority: HitResultPriority::BestCase,
    };

    let result =
        IgnoreAccuracy::generate_hitresults(inspect.clone());

    assert_eq!(result.n300, 90);
    assert_eq!(result.n100, 0);
    assert_eq!(result.n50, 0);
    assert_eq!(result.misses, inspect.misses.unwrap());
}
#[test]
fn none_specified_worst() {
    const N_CIRCLES: u32 = 100;

    let inspect = InspectOsuPerformance {
        attrs: OsuDifficultyAttributes {
            n_circles: N_CIRCLES,
            ..Default::default()
        },
        passed_objects: None,
        lazer: true,
        using_classic_slider_acc: false,
        combo: None,
        large_tick_hits: None,
        small_tick_hits: None,
        slider_end_hits: None,
        n300: None,
        n100: None,
        n50: None,
        misses: Some(10),
        hitresult_priority: HitResultPriority::WorstCase,
    };

    let result =
        IgnoreAccuracy::generate_hitresults(inspect.clone());

    assert_eq!(result.n300, 0);
    assert_eq!(result.n100, 0);
    assert_eq!(result.n50, 90);
    assert_eq!(result.misses, inspect.misses.unwrap());
}
#[test]
fn only_n300_specified_best() {
    const N_CIRCLES: u32 = 100;

    let inspect = InspectOsuPerformance {
        attrs: OsuDifficultyAttributes {
            n_circles: N_CIRCLES,
            ..Default::default()
        },
        passed_objects: None,
        lazer: true,
        using_classic_slider_acc: false,
        combo: None,
        large_tick_hits: None,
        small_tick_hits: None,
        slider_end_hits: None,
        n300: Some(50),
        n100: None,
        n50: None,
        misses: Some(10),
        hitresult_priority: HitResultPriority::BestCase,
    };

    let result =
        IgnoreAccuracy::generate_hitresults(inspect.clone());

    assert_eq!(result.n300, inspect.n300.unwrap());
    assert_eq!(
        result.n100,
        N_CIRCLES - inspect.n300.unwrap() - inspect.misses.unwrap()
    );
    assert_eq!(result.n50, 0);
    assert_eq!(result.misses, inspect.misses.unwrap());
}
#[test]
fn only_n300_specified_worst() {
    const N_CIRCLES: u32 = 100;

    let inspect = InspectOsuPerformance {
        attrs: OsuDifficultyAttributes {
            n_circles: N_CIRCLES,
            ..Default::default()
        },
        passed_objects: None,
        lazer: true,
        using_classic_slider_acc: false,
        combo: None,
        large_tick_hits: None,
        small_tick_hits: None,
        slider_end_hits: None,
        n300: Some(50),
        n100: None,
        n50: None,
        misses: Some(10),
        hitresult_priority: HitResultPriority::WorstCase,
    };

    let result =
        IgnoreAccuracy::generate_hitresults(inspect.clone());

    assert_eq!(result.n300, inspect.n300.unwrap());
    assert_eq!(result.n100, 0);
    assert_eq!(
        result.n50,
        N_CIRCLES - inspect.n300.unwrap() - inspect.misses.unwrap()
    );
    assert_eq!(result.misses, inspect.misses.unwrap());
}
#[test]
fn only_n100_specified_best() {
    const N_CIRCLES: u32 = 100;

    let inspect = InspectOsuPerformance {
        attrs: OsuDifficultyAttributes {
            n_circles: N_CIRCLES,
            ..Default::default()
        },
        passed_objects: None,
        lazer: true,
        using_classic_slider_acc: false,
        combo: None,
        large_tick_hits: None,
        small_tick_hits: None,
        slider_end_hits: None,
        n300: None,
        n100: Some(30),
        n50: None,
        misses: Some(10),
        hitresult_priority: HitResultPriority::BestCase,
    };

    let result =
        IgnoreAccuracy::generate_hitresults(inspect.clone());

    assert_eq!(
        result.n300,
        N_CIRCLES - inspect.n100.unwrap() - inspect.misses.unwrap()
    );
    assert_eq!(result.n100, inspect.n100.unwrap());
    assert_eq!(result.n50, 0);
    assert_eq!(result.misses, inspect.misses.unwrap());
}
#[test]
fn only_n100_specified_worst() {
    const N_CIRCLES: u32 = 100;

    let inspect = InspectOsuPerformance {
        attrs: OsuDifficultyAttributes {
            n_circles: N_CIRCLES,
            ..Default::default()
        },
        passed_objects: None,
        lazer: true,
        using_classic_slider_acc: false,
        combo: None,
        large_tick_hits: None,
        small_tick_hits: None,
        slider_end_hits: None,
        n300: None,
        n100: Some(30),
        n50: None,
        misses: Some(10),
        hitresult_priority: HitResultPriority::WorstCase,
    };

    let result =
        IgnoreAccuracy::generate_hitresults(inspect.clone());

    assert_eq!(result.n300, 0);
    assert_eq!(result.n100, inspect.n100.unwrap());
    assert_eq!(
        result.n50,
        N_CIRCLES - inspect.n100.unwrap() - inspect.misses.unwrap()
    );
    assert_eq!(result.misses, inspect.misses.unwrap());
}
#[test]
fn only_n50_specified_best() {
    const N_CIRCLES: u32 = 100;

    let inspect = InspectOsuPerformance {
        attrs: OsuDifficultyAttributes {
            n_circles: N_CIRCLES,
            ..Default::default()
        },
        passed_objects: None,
        lazer: true,
        using_classic_slider_acc: false,
        combo: None,
        large_tick_hits: None,
        small_tick_hits: None,
        slider_end_hits: None,
        n300: None,
        n100: None,
        n50: Some(20),
        misses: Some(10),
        hitresult_priority: HitResultPriority::BestCase,
    };

    let result =
        IgnoreAccuracy::generate_hitresults(inspect.clone());

    assert_eq!(
        result.n300,
        N_CIRCLES - inspect.n50.unwrap() - inspect.misses.unwrap()
    );
    assert_eq!(result.n100, 0);
    assert_eq!(result.n50, inspect.n50.unwrap());
    assert_eq!(result.misses, inspect.misses.unwrap());
}
#[test]
fn only_n50_specified_worst() {
    const N_CIRCLES: u32 = 100;

    let inspect = InspectOsuPerformance {
        attrs: OsuDifficultyAttributes {
            n_circles: N_CIRCLES,
            ..Default::default()
        },
        passed_objects: None,
        lazer: true,
        using_classic_slider_acc: false,
        combo: None,
        large_tick_hits: None,
        small_tick_hits: None,
        slider_end_hits: None,
        n300: None,
        n100: None,
        n50: Some(20),
        misses: Some(10),
        hitresult_priority: HitResultPriority::WorstCase,
    };

    let result =
        IgnoreAccuracy::generate_hitresults(inspect.clone());

    assert_eq!(result.n300, 0);
    assert_eq!(
        result.n100,
        N_CIRCLES - inspect.n50.unwrap() - inspect.misses.unwrap()
    );
    assert_eq!(result.n50, inspect.n50.unwrap());
    assert_eq!(result.misses, inspect.misses.unwrap());
}
#[test]
fn n300_and_n100_specified_best() {
    const N_CIRCLES: u32 = 100;

    let inspect = InspectOsuPerformance {
        attrs: OsuDifficultyAttributes {
            n_circles: N_CIRCLES,
            ..Default::default()
        },
        passed_objects: None,
        lazer: true,
        using_classic_slider_acc: false,
        combo: None,
        large_tick_hits: None,
        small_tick_hits: None,
        slider_end_hits: None,
        n300: Some(50),
        n100: Some(20),
        n50: None,
        misses: Some(10),
        hitresult_priority: HitResultPriority::BestCase,
    };

    let result =
        IgnoreAccuracy::generate_hitresults(inspect.clone());

    assert_eq!(result.n300, inspect.n300.unwrap());
    assert_eq!(result.n100, inspect.n100.unwrap());
    assert_eq!(
        result.n50,
        N_CIRCLES - inspect.n300.unwrap() - inspect.n100.unwrap() - inspect.misses.unwrap()
    );
    assert_eq!(result.misses, inspect.misses.unwrap());
}
#[test]
fn n300_and_n50_specified_best() {
    const N_CIRCLES: u32 = 100;

    let inspect = InspectOsuPerformance {
        attrs: OsuDifficultyAttributes {
            n_circles: N_CIRCLES,
            ..Default::default()
        },
        passed_objects: None,
        lazer: true,
        using_classic_slider_acc: false,
        combo: None,
        large_tick_hits: None,
        small_tick_hits: None,
        slider_end_hits: None,
        n300: Some(50),
        n100: None,
        n50: Some(20),
        misses: Some(10),
        hitresult_priority: HitResultPriority::BestCase,
    };

    let result =
        IgnoreAccuracy::generate_hitresults(inspect.clone());

    assert_eq!(result.n300, inspect.n300.unwrap());
    assert_eq!(
        result.n100,
        N_CIRCLES - inspect.n300.unwrap() - inspect.n50.unwrap() - inspect.misses.unwrap()
    );
    assert_eq!(result.n50, inspect.n50.unwrap());
    assert_eq!(result.misses, inspect.misses.unwrap());
}
#[test]
fn n100_and_n50_specified_worst() {
    const N_CIRCLES: u32 = 100;

    let inspect = InspectOsuPerformance {
        attrs: OsuDifficultyAttributes {
            n_circles: N_CIRCLES,
            ..Default::default()
        },
        passed_objects: None,
        lazer: true,
        using_classic_slider_acc: false,
        combo: None,
        large_tick_hits: None,
        small_tick_hits: None,
        slider_end_hits: None,
        n300: None,
        n100: Some(20),
        n50: Some(30),
        misses: Some(10),
        hitresult_priority: HitResultPriority::WorstCase,
    };

    let result =
        IgnoreAccuracy::generate_hitresults(inspect.clone());

    assert_eq!(
        result.n300,
        N_CIRCLES - inspect.n100.unwrap() - inspect.n50.unwrap() - inspect.misses.unwrap()
    );
    assert_eq!(result.n100, inspect.n100.unwrap());
    assert_eq!(result.n50, inspect.n50.unwrap());
    assert_eq!(result.misses, inspect.misses.unwrap());
}
#[test]
fn specified_value_exceeds_total_best() {
    const N_CIRCLES: u32 = 100;

    let inspect = InspectOsuPerformance {
        attrs: OsuDifficultyAttributes {
            n_circles: N_CIRCLES,
            ..Default::default()
        },
        passed_objects: None,
        lazer: true,
        using_classic_slider_acc: false,
        combo: None,
        large_tick_hits: None,
        small_tick_hits: None,
        slider_end_hits: None,
        n300: Some(150),
        n100: None,
        n50: None,
        misses: Some(10),
        hitresult_priority: HitResultPriority::BestCase,
    };

    let result =
        IgnoreAccuracy::generate_hitresults(inspect.clone());

    assert_eq!(result.n300, N_CIRCLES - inspect.misses.unwrap());
    assert_eq!(result.n100, 0);
    assert_eq!(result.n50, 0);
    assert_eq!(result.misses, inspect.misses.unwrap());
}
#[test]
fn multiple_specified_exceed_total() {
    const N_CIRCLES: u32 = 100;

    let inspect = InspectOsuPerformance {
        attrs: OsuDifficultyAttributes {
            n_circles: N_CIRCLES,
            ..Default::default()
        },
        passed_objects: None,
        lazer: true,
        using_classic_slider_acc: false,
        combo: None,
        large_tick_hits: None,
        small_tick_hits: None,
        slider_end_hits: None,
        n300: Some(60),
        n100: Some(50),
        n50: None,
        misses: Some(10),
        hitresult_priority: HitResultPriority::BestCase,
    };

    let result =
        IgnoreAccuracy::generate_hitresults(inspect.clone());

    assert_eq!(result.n300, inspect.n300.unwrap());
    assert_eq!(
        result.n100,
        N_CIRCLES - inspect.n300.unwrap() - inspect.misses.unwrap()
    );
    assert_eq!(result.n50, 0);
    assert_eq!(result.misses, inspect.misses.unwrap());
}
#[test]
fn no_misses() {
    const N_CIRCLES: u32 = 100;

    let inspect = InspectOsuPerformance {
        attrs: OsuDifficultyAttributes {
            n_circles: N_CIRCLES,
            ..Default::default()
        },
        passed_objects: None,
        lazer: true,
        using_classic_slider_acc: false,
        combo: None,
        large_tick_hits: None,
        small_tick_hits: None,
        slider_end_hits: None,
        n300: Some(80),
        n100: None,
        n50: None,
        misses: None,
        hitresult_priority: HitResultPriority::BestCase,
    };

    let result =
        IgnoreAccuracy::generate_hitresults(inspect.clone());

    assert_eq!(result.n300, inspect.n300.unwrap());
    assert_eq!(result.n100, N_CIRCLES - inspect.n300.unwrap());
    assert_eq!(result.n50, 0);
    assert_eq!(result.misses, 0);
}
#[test]
fn ignore_acc_all_misses() {
    const N_CIRCLES: u32 = 100;

    let inspect = InspectOsuPerformance {
        attrs: OsuDifficultyAttributes {
            n_circles: N_CIRCLES,
            ..Default::default()
        },
        passed_objects: None,
        lazer: true,
        using_classic_slider_acc: false,
        combo: None,
        large_tick_hits: None,
        small_tick_hits: None,
        slider_end_hits: None,
        n300: None,
        n100: None,
        n50: None,
        misses: Some(100),
        hitresult_priority: HitResultPriority::BestCase,
    };

    let result = IgnoreAccuracy::generate_hitresults(inspect);

    assert_eq!(result.n300, 0);
    assert_eq!(result.n100, 0);
    assert_eq!(result.n50, 0);
    assert_eq!(result.misses, 100);
}

#[test]
fn best_case_has_more_300s_and_fewer_50s_than_worst_case() {
    let specified = [None, Some(10), Some(45), Some(120)];

    for n300 in specified {
        for n100 in specified {
            for n50 in specified {
                let best = InspectOsuPerformance {
                    attrs: OsuDifficultyAttributes {
                        n_circles: 100,
                        ..Default::default()
                    },
                    passed_objects: None,
                    lazer: false,
                    using_classic_slider_acc: false,
                    combo: None,
                    large_tick_hits: None,
                    small_tick_hits: None,
                    slider_end_hits: None,
                    n300,
                    n100,
                    n50,
                    misses: Some(5),
                    hitresult_priority: HitResultPriority::BestCase,
                };
                let worst = InspectOsuPerformance {
                    hitresult_priority: HitResultPriority::WorstCase,
                    ..best
                };

                let best = IgnoreAccuracy::generate_hitresults(best);
                let worst = IgnoreAccuracy::generate_hitresults(worst);

                assert!(best.n300 >= worst.n300, "{n300:?} {n100:?} {n50:?}");
                assert!(best.n50 <= worst.n50, "{n300:?} {n100:?} {n50:?}");
                assert_eq!(best.n300 + best.n100 + best.n50, 95);
                assert_eq!(worst.n300 + worst.n100 + worst.n50, 95);
            }
        }
    }
}
