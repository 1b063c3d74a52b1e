use rosu_pp::attributes::OsuDifficultyAttributes;
use rosu_pp::gradual::OsuGradualDifficulty;
use rosu_pp::object::NestedSliderObjectKind::{Repeat, Tail, Tick};
use rosu_pp::object::{NestedSliderObject, NestedSliderObjectKind, OsuObject, OsuObjectKind, OsuSlider, Spinner};

fn slider(kinds: &[NestedSliderObjectKind]) -> OsuObject {
    OsuObject {
        kind: OsuObjectKind::Slider(OsuSlider {
            nested_objects: kinds.iter().map(|&kind| NestedSliderObject { kind }).collect(),
        }),
    }
}

fn circle() -> OsuObject {
    OsuObject { kind: OsuObjectKind::Circle }
}

/// A circle, a slider with tick, repeat, tick and tail, a spinner and
/// another circle.
fn objects() -> Vec<OsuObject> {
    vec![
        circle(),
        slider(&[Tick, Repeat, Tick, Tail]),
        OsuObject {
            kind: OsuObjectKind::Spinner(Spinner {
                total_half_spins_possible: 10,
                half_spins_required_for_completion: 3,
            }),
        },
        circle(),
    ]
}

#[test]
fn empty() {
    let mut gradual = OsuGradualDifficulty::new(Vec::new(), Vec::new());
    assert!(gradual.next().is_none());
}

#[test]
fn len_counts_the_steps_left() {
    let mut gradual = OsuGradualDifficulty::new(Vec::new(), Vec::new());
    assert_eq!(gradual.len(), 0);
    assert!(gradual.nth(5).is_none());

    let mut gradual = OsuGradualDifficulty::new(objects(), vec![4; 4]);
    for left in (1..=4).rev() {
        assert_eq!(gradual.len(), left);
        assert!(gradual.next().is_some());
    }
    assert_eq!(gradual.len(), 0);
    assert!(gradual.next().is_none());
}

#[test]
fn gradual_counts_each_object() {
    let mut gradual = OsuGradualDifficulty::new(objects(), vec![4; 4]);
    assert_eq!(gradual.len(), 4);

    let first = gradual.next().unwrap();
    assert_eq!((first.skills_from, first.skills_to), (0, 0));
    assert_eq!(first.passed_objects, 1);
    assert_eq!(
        first.attrs,
        OsuDifficultyAttributes { n_circles: 1, max_combo: 1, ..Default::default() }
    );

    let second = gradual.next().unwrap();
    assert_eq!((second.skills_from, second.skills_to), (0, 1));
    assert_eq!(
        second.attrs,
        OsuDifficultyAttributes {
            n_circles: 1,
            n_sliders: 1,
            n_large_ticks: 3,
            max_combo: 6,
            ..Default::default()
        }
    );
    assert_eq!(gradual.len(), 2);

    let _ = gradual.next().unwrap();
    let last = gradual.next().unwrap();
    assert_eq!((last.skills_from, last.skills_to), (2, 3));
    assert_eq!(last.passed_objects, 4);
    assert_eq!(last.attrs.n_spinners, 1);
    assert_eq!(last.attrs.n_circles, 2);
    assert_eq!(last.attrs.max_combo, 8);

    assert_eq!(gradual.len(), 0);
    assert!(gradual.next().is_none());
    assert!(gradual.nth(3).is_none());
}

#[test]
fn nth_matches_repeated_next() {
    for step in 1..=3usize {
        let mut one_by_one = OsuGradualDifficulty::new(objects(), vec![4; 4]);
        let mut skipping = OsuGradualDifficulty::new(objects(), vec![4; 4]);

        for i in 1..=4usize {
            let next = one_by_one.next().unwrap();

            if i % step == 0 {
                let nth = skipping.nth(step - 1).unwrap();
                assert_eq!(nth.attrs, next.attrs);
                assert_eq!(nth.maximum_legacy_combo_score, next.maximum_legacy_combo_score);
                assert_eq!(nth.passed_objects, next.passed_objects);
                assert_eq!(nth.skills_to, next.skills_to);
            }
        }

        assert!(one_by_one.next().is_none());
    }
}

#[test]
fn nth_skips_to_the_end() {
    let mut gradual = OsuGradualDifficulty::new(objects(), vec![4; 4]);
    let first = gradual.next().unwrap();
    assert_eq!(first.passed_objects, 1);

    let rest = gradual.nth(usize::MAX).unwrap();
    assert_eq!((rest.skills_from, rest.skills_to), (0, 3));
    assert_eq!(rest.passed_objects, 4);
    assert!(gradual.next().is_none());
}

#[test]
fn legacy_combo_score_uses_latest_multiplier() {
    let circles = vec![circle(); 3];
    let mut gradual = OsuGradualDifficulty::new(circles, vec![1, 2, 5]);
    assert_eq!(gradual.next().unwrap().maximum_legacy_combo_score, 0);
    assert_eq!(gradual.next().unwrap().maximum_legacy_combo_score, 0);
    // Factors 0, 0 and 12, all weighed with the latest multiplier 5.
    assert_eq!(gradual.next().unwrap().maximum_legacy_combo_score, 60);
}

#[test]
fn gradual_counts_match_count_objects() {
    let objects = objects();
    let mut gradual = OsuGradualDifficulty::new(objects.clone(), vec![4; 4]);

    for take in 1..=objects.len() {
        let step = gradual.next().unwrap();
        let mut batch = OsuDifficultyAttributes::default();
        OsuDifficultyAttributes::count_objects(&objects, take, &mut batch);
        assert_eq!(step.attrs, batch);
    }
}
