use vstd::prelude::*;

use crate::attributes::{
    combo_weight, lemma_one_by_one_is_prefix, lemma_tally_step, one_by_one, tally, Count,
};
use crate::object::{
    big_nested_kind, count_where, tick_kind, NestedSliderObjectKind, OsuObject, OsuObjectKind,
    Spinner,
};

verus! {

/// The hit results that legacy score simulation awards.
#[derive(Copy, Clone, Debug, PartialEq, Eq, Structural)]
pub enum HitResult {
    Nothing,
    SmallBonus,
    LargeBonus,
}

impl HitResult {
    /// The standardised base score of the result in osu!standard.
    pub open spec fn spec_base_score(self) -> int {
        match self {
            HitResult::Nothing => 0,
            HitResult::SmallBonus => 10,
            HitResult::LargeBonus => 50,
        }
    }

    /// The standardised base score of the result in osu!standard.
    pub fn base_score(self) -> (res: i32)
        ensures
            res == self.spec_base_score(),
    {
        match self {
            HitResult::Nothing => 0,
            HitResult::SmallBonus => 10,
            HitResult::LargeBonus => 50,
        }
    }
}

/// Half spin `i` of a spinner awards a large bonus: it lies past the half
/// spins required before bonus, at an even distance from them.
pub open spec fn is_large_bonus_spin(spinner: Spinner, i: int) -> bool {
    let before_bonus = spinner.half_spins_required_for_completion + 3;
    i > before_bonus && (i - before_bonus) % 2 == 0
}

/// Half spin `i` of a spinner awards a small bonus: it is an even half spin
/// past the first full spin that awards no large bonus.
pub open spec fn is_small_bonus_spin(spinner: Spinner, i: int) -> bool {
    !is_large_bonus_spin(spinner, i) && i > 1 && i % 2 == 0
}

/// The amount of half spins among `0..n` that award a large bonus
/// (`large == true`) or a small bonus.
pub open spec fn bonus_spins_below(spinner: Spinner, n: int, large: bool) -> nat
    decreases n,
{
    if n <= 0 {
        0
    } else {
        bonus_spins_below(spinner, n - 1, large) + if (large && is_large_bonus_spin(
            spinner,
            n - 1,
        )) || (!large && is_small_bonus_spin(spinner, n - 1)) {
            1nat
        } else {
            0nat
        }
    }
}

/// The amount of large bonus spins of a spinner, over all its half spins.
pub open spec fn large_bonus_spins(spinner: Spinner) -> nat {
    bonus_spins_below(spinner, spinner.total_half_spins_possible + 1, true)
}

/// The amount of small bonus spins of a spinner, over all its half spins.
pub open spec fn small_bonus_spins(spinner: Spinner) -> nat {
    bonus_spins_below(spinner, spinner.total_half_spins_possible + 1, false)
}

/// Accuracy score of one object: 300 for a circle or spinner; for a slider
/// 30 for the head, 30 per repeat and tail, 10 per tick and 300 for the end.
pub open spec fn accuracy_score_weight(h: OsuObject) -> nat {
    match h.kind {
        OsuObjectKind::Slider(slider) => 330 + 30 * count_where(
            slider.nested_objects@,
            big_nested_kind(),
        ) + 10 * count_where(slider.nested_objects@, tick_kind()),
        _ => 300,
    }
}

/// Legacy bonus score of one object: 1100 per large and 100 per small bonus
/// spin of a spinner.
pub open spec fn legacy_bonus_weight(h: OsuObject) -> nat {
    match h.kind {
        OsuObjectKind::Spinner(spinner) => 1100 * large_bonus_spins(spinner) + 100
            * small_bonus_spins(spinner),
        _ => 0,
    }
}

/// Standardised bonus score of one object: the base scores of the bonus
/// results of a spinner.
pub open spec fn standardised_bonus_weight(h: OsuObject) -> nat {
    match h.kind {
        OsuObjectKind::Spinner(spinner) => 50 * large_bonus_spins(spinner) + 10
            * small_bonus_spins(spinner),
        _ => 0,
    }
}

/// The combo an object adds before its combo-multiplied score is taken: the
/// head and nested objects of a slider.
pub open spec fn combo_before_end(h: OsuObject) -> int {
    match h.kind {
        OsuObjectKind::Slider(slider) => 1 + slider.nested_objects@.len() as int,
        _ => 0,
    }
}

/// The combo score factor of object `h` played at combo `combo`:
/// `(combo - 1) * 12`, never negative, with the combo at the moment the
/// object's 300 is scored (after a slider's head and nested objects).
pub open spec fn factor_at(combo: int, h: OsuObject) -> int {
    let c = combo + combo_before_end(h);
    12 * if c >= 1 {
        c - 1
    } else {
        0
    }
}

/// The value clamped to the range of `i32`, as a saturating conversion to
/// `i32` gives it.
pub open spec fn saturate_i32(x: int) -> int {
    if x > i32::MAX {
        i32::MAX as int
    } else if x < i32::MIN {
        i32::MIN as int
    } else {
        x
    }
}

/// The sum of the combo score factors of the objects `s`, played from combo
/// `combo`.
pub open spec fn factor_total(combo: int, s: Seq<OsuObject>) -> int
    decreases s.len(),
{
    if s.len() == 0 {
        0
    } else {
        factor_total(combo, s.drop_last()) + factor_at(
            combo + tally(s.drop_last(), Count::Combo),
            s.last(),
        )
    }
}

/// The combo score of simulating the objects `s` at once from combo
/// `combo`: each factor times the score multiplier, converted to `i32` one
/// by one, summed.
pub open spec fn combo_score_total(combo: int, s: Seq<OsuObject>, multiplier: int) -> int
    decreases s.len(),
{
    if s.len() == 0 {
        0
    } else {
        combo_score_total(combo, s.drop_last(), multiplier) + saturate_i32(
            factor_at(combo + tally(s.drop_last(), Count::Combo), s.last()) * multiplier,
        )
    }
}

/// `new` is the state after simulating the objects `s` from `old`.
pub open spec fn simulated(
    old: LegacyScoreSimulatorInner,
    old_accuracy_score: int,
    new: LegacyScoreSimulatorInner,
    new_accuracy_score: int,
    s: Seq<OsuObject>,
) -> bool {
    &&& new.combo == old.combo + tally(s, Count::Combo)
    &&& new.legacy_bonus_score == old.legacy_bonus_score + tally(s, Count::LegacyBonus)
    &&& new.standardised_bonus_score == old.standardised_bonus_score + tally(
        s,
        Count::StandardisedBonus,
    )
    &&& new_accuracy_score == old_accuracy_score + tally(s, Count::AccuracyScore)
}

/// The spinner's half spin arithmetic stays within `i32`.
pub open spec fn spinner_spins_fit(spinner: Spinner) -> bool {
    let before_bonus = spinner.half_spins_required_for_completion + 3;
    &&& before_bonus <= i32::MAX
    &&& spinner.total_half_spins_possible > before_bonus ==> spinner.total_half_spins_possible
        - before_bonus <= i32::MAX
}

/// Simulating `h` from the counters `inner` and accuracy score
/// `accuracy_score` keeps every counter within its type.
pub open spec fn hit_fits(
    combo: int,
    legacy_bonus_score: int,
    standardised_bonus_score: int,
    accuracy_score: int,
    h: OsuObject,
) -> bool {
    &&& combo + combo_weight(h) <= u32::MAX
    &&& accuracy_score + accuracy_score_weight(h) <= i32::MAX
    &&& legacy_bonus_score + legacy_bonus_weight(h) <= i32::MAX
    &&& standardised_bonus_score + standardised_bonus_weight(h) <= i32::MAX
    &&& (h.kind matches OsuObjectKind::Spinner(spinner) ==> spinner_spins_fit(spinner))
}

/// Whether a legacy score event multiplies its score by the combo.
#[derive(Copy, Clone, Debug, PartialEq, Eq, Structural)]
pub enum AddScoreComboMultiplier {
    Yes,
    No,
}

/// Whether a legacy score event is bonus.
#[derive(Copy, Clone, Debug, PartialEq, Eq, Structural)]
pub enum IsBonus {
    Yes,
    No,
}

/// Whether a legacy score event increases the combo.
#[derive(Copy, Clone, Debug, PartialEq, Eq, Structural)]
pub enum IncreaseCombo {
    Yes,
    No,
}

/// The attributes of a simulated legacy score. The bonus score ratio is
/// `standardised_bonus_score / bonus_score`, or `0` without bonus score.
#[derive(Copy, Clone, Debug, Default, PartialEq, Eq, Structural)]
pub struct LegacyScoreAttributes {
    pub accuracy_score: i32,
    pub combo_score: i64,
    pub standardised_bonus_score: i32,
    pub bonus_score: i32,
    pub max_combo: u32,
}

/// The counters that legacy score simulation keeps between events.
#[derive(Copy, Clone, Debug, Default, PartialEq, Eq, Structural)]
pub struct LegacyScoreSimulatorInner {
    pub legacy_bonus_score: i32,
    pub standardised_bonus_score: i32,
    pub combo: u32,
}

impl LegacyScoreSimulatorInner {
    /// The counters before any event.
    pub open spec fn spec_default() -> Self {
        LegacyScoreSimulatorInner { legacy_bonus_score: 0, standardised_bonus_score: 0, combo: 0 }
    }

    /// Score one event; returns the combo factor if the event is multiplied
    /// by the combo.
    fn unrolled_recursion(
        &mut self,
        attrs: &mut LegacyScoreAttributes,
        add_score_combo_multiplier: AddScoreComboMultiplier,
        is_bonus: IsBonus,
        increase_combo: IncreaseCombo,
        score_increase: i32,
        bonus_result: HitResult,
    ) -> (res: Option<i64>)
        requires
            0 <= score_increase <= 1100,
            is_bonus is Yes ==> old(self).legacy_bonus_score + score_increase <= i32::MAX,
            is_bonus is Yes ==> old(self).standardised_bonus_score
                + bonus_result.spec_base_score() <= i32::MAX,
            is_bonus is No ==> old(attrs).accuracy_score + score_increase <= i32::MAX,
            increase_combo is Yes ==> old(self).combo + 1 <= u32::MAX,
        ensures
            add_score_combo_multiplier is Yes ==> (res matches Some(f) && f == (if old(self).combo
                >= 1 {
                old(self).combo - 1
            } else {
                0
            }) * (score_increase / 25)),
            add_score_combo_multiplier is No ==> res is None,
            final(self).legacy_bonus_score == old(self).legacy_bonus_score + if is_bonus is Yes {
                score_increase as int
            } else {
                0
            },
            final(self).standardised_bonus_score == old(self).standardised_bonus_score
                + if is_bonus is Yes {
                bonus_result.spec_base_score()
            } else {
                0
            },
            final(attrs).accuracy_score == old(attrs).accuracy_score + if is_bonus is No {
                score_increase as int
            } else {
                0
            },
            final(self).combo == old(self).combo + if increase_combo is Yes {
                1int
            } else {
                0
            },
            final(attrs).combo_score == old(attrs).combo_score,
            final(attrs).bonus_score == old(attrs).bonus_score,
            final(attrs).standardised_bonus_score == old(attrs).standardised_bonus_score,
            final(attrs).max_combo == old(attrs).max_combo,
    {
        let mut factor = None;
        if let AddScoreComboMultiplier::Yes = add_score_combo_multiplier {
            let combo = if self.combo >= 1 {
                self.combo - 1
            } else {
                0
            };
            let per_combo = score_increase / 25;
            assert(combo as i64 * per_combo as i64 <= 44 * u32::MAX) by (nonlinear_arith)
                requires
                    combo <= u32::MAX,
                    0 <= per_combo <= 44,
            ;
            factor = Some(combo as i64 * per_combo as i64);
        }
        if let IsBonus::Yes = is_bonus {
            self.legacy_bonus_score = self.legacy_bonus_score + score_increase;
            self.standardised_bonus_score = self.standardised_bonus_score
                + bonus_result.base_score();
        } else {
            attrs.accuracy_score = attrs.accuracy_score + score_increase;
        }
        if let IncreaseCombo::Yes = increase_combo {
            self.combo = self.combo + 1;
        }
        factor
    }

    /// Score every event of `h`; returns the object's combo factor.
    fn simulate_hit(&mut self, attrs: &mut LegacyScoreAttributes, h: &OsuObject) -> (factor: i64)
        requires
            hit_fits(
                old(self).combo as int,
                old(self).legacy_bonus_score as int,
                old(self).standardised_bonus_score as int,
                old(attrs).accuracy_score as int,
                *h,
            ),
        ensures
            final(self).combo == old(self).combo + combo_weight(*h),
            final(self).legacy_bonus_score == old(self).legacy_bonus_score + legacy_bonus_weight(*h),
            final(self).standardised_bonus_score == old(self).standardised_bonus_score
                + standardised_bonus_weight(*h),
            final(attrs).accuracy_score == old(attrs).accuracy_score + accuracy_score_weight(*h),
            factor == factor_at(old(self).combo as int, *h),
            final(attrs).combo_score == old(attrs).combo_score,
            final(attrs).bonus_score == old(attrs).bonus_score,
            final(attrs).standardised_bonus_score == old(attrs).standardised_bonus_score,
            final(attrs).max_combo == old(attrs).max_combo,
    {
        match &h.kind {
            OsuObjectKind::Circle => {
                let f = self.unrolled_recursion(
                    attrs,
                    AddScoreComboMultiplier::Yes,
                    IsBonus::No,
                    IncreaseCombo::Yes,
                    300,
                    HitResult::Nothing,
                );
                f.unwrap()
            },
            OsuObjectKind::Slider(slider) => {
                self.unrolled_recursion(
                    attrs,
                    AddScoreComboMultiplier::No,
                    IsBonus::No,
                    IncreaseCombo::Yes,
                    30,
                    HitResult::Nothing,
                );
                let ghost nested = slider.nested_objects@;
                let ghost combo0 = self.combo;
                let ghost acc0 = attrs.accuracy_score;
                proof {
                    assert(nested.take(0) =~= Seq::<crate::object::NestedSliderObject>::empty());
                    crate::object::lemma_count_where_le_len(nested, big_nested_kind());
                    crate::object::lemma_count_where_le_len(nested, tick_kind());
                }
                let n = slider.nested_objects.len();
                let mut i: usize = 0;
                while i < n
                    invariant
                        n == nested.len(),
                        nested == slider.nested_objects@,
                        i <= n,
                        self.combo == combo0 + i,
                        attrs.accuracy_score == acc0 + 30 * count_where(
                            nested.take(i as int),
                            big_nested_kind(),
                        ) + 10 * count_where(nested.take(i as int), tick_kind()),
                        combo0 + n + 0 <= u32::MAX,
                        acc0 + 30 * count_where(nested, big_nested_kind()) + 10 * count_where(
                            nested,
                            tick_kind(),
                        ) + 300 <= i32::MAX,
                        self.legacy_bonus_score == old(self).legacy_bonus_score,
                        self.standardised_bonus_score == old(self).standardised_bonus_score,
                        attrs.combo_score == old(attrs).combo_score,
                        attrs.bonus_score == old(attrs).bonus_score,
                        attrs.standardised_bonus_score == old(attrs).standardised_bonus_score,
                        attrs.max_combo == old(attrs).max_combo,
                    decreases n - i,
                {
                    proof {
                        assert(nested.take(i + 1).drop_last() =~= nested.take(i as int));
                        lemma_count_prefix_le(nested, big_nested_kind(), i + 1);
                        lemma_count_prefix_le(nested, tick_kind(), i + 1);
                    }
                    match slider.nested_objects[i].kind {
                        NestedSliderObjectKind::Repeat | NestedSliderObjectKind::Tail => {
                            self.unrolled_recursion(
                                attrs,
                                AddScoreComboMultiplier::No,
                                IsBonus::No,
                                IncreaseCombo::Yes,
                                30,
                                HitResult::Nothing,
                            );
                        },
                        NestedSliderObjectKind::Tick => {
                            self.unrolled_recursion(
                                attrs,
                                AddScoreComboMultiplier::No,
                                IsBonus::No,
                                IncreaseCombo::Yes,
                                10,
                                HitResult::Nothing,
                            );
                        },
                    }
                    i = i + 1;
                }
                proof {
                    assert(nested.take(n as int) =~= nested);
                }
                let f = self.unrolled_recursion(
                    attrs,
                    AddScoreComboMultiplier::Yes,
                    IsBonus::No,
                    IncreaseCombo::No,
                    300,
                    HitResult::Nothing,
                );
                f.unwrap()
            },
            OsuObjectKind::Spinner(spinner) => {
                let total_half_spins_possible = spinner.total_half_spins_possible;
                let half_spins_required_before_bonus = spinner.half_spins_required_for_completion
                    + 3;
                let ghost legacy0 = self.legacy_bonus_score;
                let ghost standardised0 = self.standardised_bonus_score;
                let mut i: i64 = 0;
                while i <= total_half_spins_possible as i64
                    invariant
                        0 <= i,
                        i <= total_half_spins_possible + 1 || i == 0,
                        total_half_spins_possible == spinner.total_half_spins_possible,
                        half_spins_required_before_bonus
                            == spinner.half_spins_required_for_completion + 3,
                        spinner_spins_fit(*spinner),
                        self.legacy_bonus_score == legacy0 + 1100 * bonus_spins_below(
                            *spinner,
                            i as int,
                            true,
                        ) + 100 * bonus_spins_below(*spinner, i as int, false),
                        self.standardised_bonus_score == standardised0 + 50 * bonus_spins_below(
                            *spinner,
                            i as int,
                            true,
                        ) + 10 * bonus_spins_below(*spinner, i as int, false),
                        legacy0 + 1100 * large_bonus_spins(*spinner) + 100 * small_bonus_spins(
                            *spinner,
                        ) <= i32::MAX,
                        standardised0 + 50 * large_bonus_spins(*spinner) + 10 * small_bonus_spins(
                            *spinner,
                        ) <= i32::MAX,
                        self.combo == old(self).combo,
                        attrs.accuracy_score == old(attrs).accuracy_score,
                        attrs.combo_score == old(attrs).combo_score,
                        attrs.bonus_score == old(attrs).bonus_score,
                        attrs.standardised_bonus_score == old(attrs).standardised_bonus_score,
                        attrs.max_combo == old(attrs).max_combo,
                    decreases total_half_spins_possible + 1 - i,
                {
                    proof {
                        lemma_bonus_spins_monotone(
                            *spinner,
                            i + 1,
                            total_half_spins_possible + 1,
                            true,
                        );
                        lemma_bonus_spins_monotone(
                            *spinner,
                            i + 1,
                            total_half_spins_possible + 1,
                            false,
                        );
                    }
                    let ii = i as i32;
                    if ii > half_spins_required_before_bonus && (ii
                        - half_spins_required_before_bonus) % 2 == 0 {
                        self.unrolled_recursion(
                            attrs,
                            AddScoreComboMultiplier::No,
                            IsBonus::Yes,
                            IncreaseCombo::No,
                            1100,
                            HitResult::LargeBonus,
                        );
                    } else if ii > 1 && ii % 2 == 0 {
                        self.unrolled_recursion(
                            attrs,
                            AddScoreComboMultiplier::No,
                            IsBonus::Yes,
                            IncreaseCombo::No,
                            100,
                            HitResult::SmallBonus,
                        );
                    }
                    i = i + 1;
                }
                let f = self.unrolled_recursion(
                    attrs,
                    AddScoreComboMultiplier::Yes,
                    IsBonus::No,
                    IncreaseCombo::Yes,
                    300,
                    HitResult::Nothing,
                );
                f.unwrap()
            },
        }
    }

    /// Copy the bonus score and maximum combo into the attributes.
    fn finalize(&self, attrs: &mut LegacyScoreAttributes)
        ensures
            final(attrs).bonus_score == self.legacy_bonus_score,
            final(attrs).standardised_bonus_score == self.standardised_bonus_score,
            final(attrs).max_combo == self.combo,
            final(attrs).accuracy_score == old(attrs).accuracy_score,
            final(attrs).combo_score == old(attrs).combo_score,
    {
        attrs.standardised_bonus_score = self.standardised_bonus_score;
        attrs.bonus_score = self.legacy_bonus_score;
        attrs.max_combo = self.combo;
    }
}

/// Whether simulating object `k` of `s`, after the objects before it, from
/// the counters `start` keeps every counter within its type.
pub open spec fn hit_fits_after(start: LegacyScoreSimulatorInner, s: Seq<OsuObject>, k: int) -> bool {
    let prefix = s.take(k);
    hit_fits(
        start.combo + tally(prefix, Count::Combo),
        start.legacy_bonus_score + tally(prefix, Count::LegacyBonus),
        start.standardised_bonus_score + tally(prefix, Count::StandardisedBonus),
        tally(prefix, Count::AccuracyScore) as int,
        s[k],
    )
}

/// Simulating all of `s` from `start` with the given multiplier never
/// overflows a counter or the combo score.
pub open spec fn run_fits(start: LegacyScoreSimulatorInner, s: Seq<OsuObject>, multiplier: int) -> bool {
    &&& forall|k: int| 0 <= k < s.len() ==> #[trigger] hit_fits_after(start, s, k)
    &&& forall|k: int|
        0 <= k <= s.len() ==> i64::MIN <= #[trigger] combo_score_total(
            start.combo as int,
            s.take(k),
            multiplier,
        ) <= i64::MAX
}

/// The combo score term of one object: its factor times the multiplier,
/// saturated to `i32`.
fn combo_term(factor: i64, multiplier: i32) -> (res: i32)
    requires
        0 <= factor <= 44 * u32::MAX,
    ensures
        res == saturate_i32(factor * multiplier),
{
    assert(-(44 * u32::MAX * 0x8000_0000) <= factor as i128 * multiplier as i128 <= 44 * u32::MAX
        * 0x8000_0000) by (nonlinear_arith)
        requires
            0 <= factor <= 44 * u32::MAX,
            -0x8000_0000 <= multiplier <= 0x7fff_ffff,
    ;
    let product = factor as i128 * multiplier as i128;
    if product > i32::MAX as i128 {
        i32::MAX
    } else if product < i32::MIN as i128 {
        i32::MIN
    } else {
        product as i32
    }
}

/// Legacy score simulation over the first `passed_objects` objects of a map.
pub struct OsuLegacyScoreSimulator<'a> {
    osu_objects: &'a [OsuObject],
    passed_objects: usize,
    inner: LegacyScoreSimulatorInner,
    score_multiplier: i32,
}

impl<'a> OsuLegacyScoreSimulator<'a> {
    /// The objects that will be simulated.
    pub closed spec fn simulated_objects(&self) -> Seq<OsuObject> {
        self.osu_objects@.take(
            if self.passed_objects <= self.osu_objects@.len() {
                self.passed_objects as int
            } else {
                self.osu_objects@.len() as int
            },
        )
    }

    /// The counters carried over from earlier simulations.
    pub closed spec fn counters(&self) -> LegacyScoreSimulatorInner {
        self.inner
    }

    /// The score multiplier of the map.
    pub closed spec fn multiplier(&self) -> int {
        self.score_multiplier as int
    }

    /// A simulator for the first `passed_objects` objects with the map's
    /// score multiplier (its difficulty in "peppy stars").
    pub fn new(osu_objects: &'a [OsuObject], passed_objects: usize, score_multiplier: i32) -> (res:
        Self)
        ensures
            res.simulated_objects() == osu_objects@.take(
                if passed_objects <= osu_objects@.len() {
                    passed_objects as int
                } else {
                    osu_objects@.len() as int
                },
            ),
            res.counters() == LegacyScoreSimulatorInner::spec_default(),
            res.multiplier() == score_multiplier,
    {
        OsuLegacyScoreSimulator {
            osu_objects,
            passed_objects,
            inner: LegacyScoreSimulatorInner {
                legacy_bonus_score: 0,
                standardised_bonus_score: 0,
                combo: 0,
            },
            score_multiplier,
        }
    }

    /// Simulate the legacy score of the objects.
    pub fn simulate(&mut self) -> (res: LegacyScoreAttributes)
        requires
            run_fits(old(self).counters(), old(self).simulated_objects(), old(self).multiplier()),
        ensures
            ({
                let s = old(self).simulated_objects();
                let start = old(self).counters();
                &&& simulated(start, 0, final(self).counters(), res.accuracy_score as int, s)
                &&& res.combo_score == combo_score_total(start.combo as int, s, old(self).multiplier())
                &&& res.bonus_score == final(self).counters().legacy_bonus_score
                &&& res.standardised_bonus_score == final(self).counters().standardised_bonus_score
                &&& res.max_combo == final(self).counters().combo
            }),
            final(self).simulated_objects() == old(self).simulated_objects(),
            final(self).multiplier() == old(self).multiplier(),
    {
        let ghost start = self.inner;
        let ghost s = self.simulated_objects();
        let n = if self.passed_objects <= self.osu_objects.len() {
            self.passed_objects
        } else {
            self.osu_objects.len()
        };
        let mut attrs = LegacyScoreAttributes {
            accuracy_score: 0,
            combo_score: 0,
            standardised_bonus_score: 0,
            bonus_score: 0,
            max_combo: 0,
        };
        proof {
            assert(s.take(0) =~= Seq::<OsuObject>::empty());
        }
        let mut i: usize = 0;
        while i < n
            invariant
                s == self.osu_objects@.take(n as int),
                n <= self.osu_objects@.len(),
                i <= n,
                s == old(self).simulated_objects(),
                start == old(self).counters(),
                self.score_multiplier == old(self).multiplier(),
                self.osu_objects == old(self).osu_objects,
                self.passed_objects == old(self).passed_objects,
                run_fits(start, s, self.score_multiplier as int),
                simulated(start, 0, self.inner, attrs.accuracy_score as int, s.take(i as int)),
                attrs.combo_score == combo_score_total(
                    start.combo as int,
                    s.take(i as int),
                    self.score_multiplier as int,
                ),
            decreases n - i,
        {
            let ghost prefix = s.take(i as int);
            proof {
                assert(hit_fits_after(start, s, i as int));
                assert(s.take(i + 1).drop_last() =~= prefix);
                assert(s[i as int] == self.osu_objects@[i as int]);
                lemma_tally_step(s, i as int, Count::Combo);
                lemma_tally_step(s, i as int, Count::LegacyBonus);
                lemma_tally_step(s, i as int, Count::StandardisedBonus);
                lemma_tally_step(s, i as int, Count::AccuracyScore);
                assert(i64::MIN <= combo_score_total(
                    start.combo as int,
                    s.take(i + 1),
                    self.score_multiplier as int,
                ) <= i64::MAX);
            }
            let factor = self.inner.simulate_hit(&mut attrs, &self.osu_objects[i]);
            let term = combo_term(factor, self.score_multiplier);
            attrs.combo_score = attrs.combo_score + term as i64;
            i = i + 1;
        }
        proof {
            assert(s.take(n as int) =~= s);
        }
        self.inner.finalize(&mut attrs);
        attrs
    }
}

/// The factors of objects played from combo zero sum to at most twelve
/// times the square of the combo they build.
proof fn lemma_factor_total_bound(s: Seq<OsuObject>)
    ensures
        0 <= factor_total(0, s) <= 12 * tally(s, Count::Combo) * tally(s, Count::Combo),
    decreases s.len(),
{
    if s.len() > 0 {
        let prev = s.drop_last();
        let h = s.last();
        lemma_factor_total_bound(prev);
        assert(s =~= prev.push(h));
        assert(s.take(prev.len() as int) =~= prev);
        assert(s.take(prev.len() as int + 1) =~= s);
        lemma_tally_step(s, prev.len() as int, Count::Combo);
        let c = tally(prev, Count::Combo) as int;
        let w = combo_weight(h) as int;
        assert(combo_before_end(h) <= w) by {
            match h.kind {
                OsuObjectKind::Slider(slider) => {},
                _ => {},
            }
        }
        let f = factor_at(c, h);
        assert(0 <= f <= 12 * (c + w - 1));
        let ft = factor_total(0, prev);
        assert(ft + f <= 12 * (c + w) * (c + w)) by (nonlinear_arith)
            requires
                0 <= ft <= 12 * c * c,
                f <= 12 * (c + w - 1),
                c >= 0,
                w >= 1,
        ;
    }
}

/// Legacy score simulation that processes one object at a time.
pub struct GradualLegacyScoreSimulator {
    attrs: LegacyScoreAttributes,
    inner: LegacyScoreSimulatorInner,
    /// The sum of the combo score factors of the processed objects.
    factor_sum: i128,
    processed: Ghost<Seq<OsuObject>>,
    /// The score multiplier of the latest step.
    prev_score_multiplier: Option<i32>,
}

impl GradualLegacyScoreSimulator {
    /// The objects processed so far.
    pub closed spec fn processed(&self) -> Seq<OsuObject> {
        self.processed@
    }

    /// The score multiplier of the latest step.
    pub closed spec fn spec_prev_score_multiplier(&self) -> Option<i32> {
        self.prev_score_multiplier
    }

    /// The score multiplier of the latest step.
    pub fn prev_score_multiplier(&self) -> (res: Option<i32>)
        ensures
            res == self.spec_prev_score_multiplier(),
    {
        self.prev_score_multiplier
    }

    /// The counters hold the totals of the processed objects.
    pub closed spec fn wf(&self) -> bool {
        let p = self.processed@;
        &&& simulated(
            LegacyScoreSimulatorInner::spec_default(),
            0,
            self.inner,
            self.attrs.accuracy_score as int,
            p,
        )
        &&& self.factor_sum == factor_total(0, p)
    }

    /// A simulator that has processed no object yet.
    pub fn new() -> (res: Self)
        ensures
            res.wf(),
            res.processed() == Seq::<OsuObject>::empty(),
            res.spec_prev_score_multiplier() is None,
    {
        let res = GradualLegacyScoreSimulator {
            attrs: LegacyScoreAttributes {
                accuracy_score: 0,
                combo_score: 0,
                standardised_bonus_score: 0,
                bonus_score: 0,
                max_combo: 0,
            },
            inner: LegacyScoreSimulatorInner {
                legacy_bonus_score: 0,
                standardised_bonus_score: 0,
                combo: 0,
            },
            factor_sum: 0,
            processed: Ghost(Seq::empty()),
            prev_score_multiplier: None,
        };
        res
    }

    /// Simulate the next object with the score multiplier of the objects so
    /// far, and return the attributes of everything simulated.
    pub fn simulate_next(&mut self, obj: &OsuObject, score_multiplier: i32) -> (res:
        LegacyScoreAttributes)
        requires
            old(self).wf(),
            hit_fits(
                tally(old(self).processed(), Count::Combo) as int,
                tally(old(self).processed(), Count::LegacyBonus) as int,
                tally(old(self).processed(), Count::StandardisedBonus) as int,
                tally(old(self).processed(), Count::AccuracyScore) as int,
                *obj,
            ),
        ensures
            final(self).wf(),
            final(self).processed() == old(self).processed().push(*obj),
            final(self).spec_prev_score_multiplier() == Some(score_multiplier),
            ({
                let p = final(self).processed();
                &&& res.accuracy_score == tally(p, Count::AccuracyScore)
                &&& res.combo_score == saturate_i32(score_multiplier * factor_total(0, p))
                &&& res.bonus_score == tally(p, Count::LegacyBonus)
                &&& res.standardised_bonus_score == tally(p, Count::StandardisedBonus)
                &&& res.max_combo == tally(p, Count::Combo)
            }),
    {
        let ghost p = self.processed@;
        let ghost q = p.push(*obj);
        proof {
            assert(q.take(p.len() as int) =~= p);
            assert(q.take(p.len() as int + 1) =~= q);
            assert(q.drop_last() =~= p);
            lemma_tally_step(q, p.len() as int, Count::Combo);
            lemma_tally_step(q, p.len() as int, Count::LegacyBonus);
            lemma_tally_step(q, p.len() as int, Count::StandardisedBonus);
            lemma_tally_step(q, p.len() as int, Count::AccuracyScore);
            lemma_factor_total_bound(q);
            assert(12 * tally(q, Count::Combo) * tally(q, Count::Combo) <= 12 * (u32::MAX as int)
                * (u32::MAX as int)) by (nonlinear_arith)
                requires
                    0 <= tally(q, Count::Combo) <= u32::MAX,
            ;
        }
        self.prev_score_multiplier = Some(score_multiplier);
        let factor = self.inner.simulate_hit(&mut self.attrs, obj);
        self.factor_sum = self.factor_sum + factor as i128;
        self.processed = Ghost(q);
        let total = self.factor_sum;
        assert(-(12 * (u32::MAX as int) * (u32::MAX as int) * 0x8000_0000) <= total
            * score_multiplier <= 12 * (u32::MAX as int) * (u32::MAX as int) * 0x8000_0000)
            by (nonlinear_arith)
            requires
                0 <= total <= 12 * (u32::MAX as int) * (u32::MAX as int),
                -0x8000_0000 <= score_multiplier <= 0x7fff_ffff,
        ;
        let product = total * score_multiplier as i128;
        let combo_score: i32 = if product > i32::MAX as i128 {
            i32::MAX
        } else if product < i32::MIN as i128 {
            i32::MIN
        } else {
            product as i32
        };
        self.attrs.combo_score = combo_score as i64;
        self.inner.finalize(&mut self.attrs);
        self.attrs
    }
}

/// The combo score terms of `s`, played from combo zero, each lie within
/// `i32`, so that none saturates.
pub open spec fn terms_in_range(s: Seq<OsuObject>, multiplier: int) -> bool
    decreases s.len(),
{
    if s.len() == 0 {
        true
    } else {
        &&& terms_in_range(s.drop_last(), multiplier)
        &&& i32::MIN <= factor_at(tally(s.drop_last(), Count::Combo) as int, s.last())
            * multiplier <= i32::MAX
    }
}

/// Simulating a map one object at a time and simulating its first objects
/// at once give the same combo score, as long as no combo score term and
/// not the total leave the `i32` range (where the one-by-one conversion and
/// the conversion of the sum saturate differently).
pub proof fn lemma_gradual_combo_score_matches(s: Seq<OsuObject>, multiplier: int)
    requires
        terms_in_range(s, multiplier),
        i32::MIN <= multiplier * factor_total(0, s) <= i32::MAX,
    ensures
        combo_score_total(0, s, multiplier) == saturate_i32(multiplier * factor_total(0, s)),
{
    lemma_combo_score_is_product(s, multiplier);
}

/// Without saturation, the combo score is the multiplier times the factors.
proof fn lemma_combo_score_is_product(s: Seq<OsuObject>, multiplier: int)
    requires
        terms_in_range(s, multiplier),
    ensures
        combo_score_total(0, s, multiplier) == multiplier * factor_total(0, s),
    decreases s.len(),
{
    if s.len() > 0 {
        let prev = s.drop_last();
        lemma_combo_score_is_product(prev, multiplier);
        let f = factor_at(tally(prev, Count::Combo) as int, s.last());
        let ft = factor_total(0, prev);
        assert(multiplier * ft + f * multiplier == multiplier * (ft + f)) by (nonlinear_arith);
    }
}

/// Counting over a longer prefix never gives less.
proof fn lemma_count_prefix_le(
    s: Seq<crate::object::NestedSliderObject>,
    f: spec_fn(NestedSliderObjectKind) -> bool,
    i: int,
)
    requires
        0 <= i <= s.len(),
    ensures
        count_where(s.take(i), f) <= count_where(s, f),
    decreases s.len() - i,
{
    if i < s.len() {
        lemma_count_prefix_le(s, f, i + 1);
        assert(s.take(i + 1).drop_last() =~= s.take(i));
    } else {
        assert(s.take(i) =~= s);
    }
}

/// Bonus spin counts grow with the range of half spins.
proof fn lemma_bonus_spins_monotone(spinner: Spinner, i: int, j: int, large: bool)
    requires
        i <= j,
    ensures
        bonus_spins_below(spinner, i, large) <= bonus_spins_below(spinner, j, large),
    decreases j - i,
{
    if i < j {
        lemma_bonus_spins_monotone(spinner, i, j - 1, large);
    }
}

/// Simulating the first `n` objects one at a time and at once give the same
/// accuracy score, legacy bonus score, standardised bonus score and maximum
/// combo (and so the same bonus ratio): after `n` calls of
/// [`GradualLegacyScoreSimulator::simulate_next`] on the first `n` objects
/// in order, starting from [`GradualLegacyScoreSimulator::new`], the
/// processed objects are `one_by_one(objects, n)`, whose totals the step
/// reports, and [`OsuLegacyScoreSimulator::simulate`] over the same objects
/// ends with the counters `counters` and the accuracy score
/// `accuracy_score` that hold the same totals.
pub proof fn lemma_gradual_simulation_matches_batch(
    objects: Seq<OsuObject>,
    n: nat,
    counters: LegacyScoreSimulatorInner,
    accuracy_score: int,
)
    requires
        n <= objects.len(),
        simulated(
            LegacyScoreSimulatorInner::spec_default(),
            0,
            counters,
            accuracy_score,
            objects.take(n as int),
        ),
    ensures
        accuracy_score == tally(one_by_one(objects, n), Count::AccuracyScore),
        counters.legacy_bonus_score == tally(one_by_one(objects, n), Count::LegacyBonus),
        counters.standardised_bonus_score == tally(one_by_one(objects, n), Count::StandardisedBonus),
        counters.combo == tally(one_by_one(objects, n), Count::Combo),
{
    lemma_one_by_one_is_prefix(objects, n);
}

/// The amount of half spins among `0..n` past `before` at an even distance
/// from it: the large bonus spins below `n` when `before` half spins come
/// before bonus.
pub open spec fn spins_past(before: int, n: int) -> int {
    if n - 1 > before {
        (n - 1 - before) / 2
    } else {
        0
    }
}

/// The amount of even half spins among `2..n`.
pub open spec fn even_spins_from_two(n: int) -> int {
    if n >= 1 {
        (n - 1) / 2
    } else {
        0
    }
}

/// Counting half spins one at a time: among `0..n`, the large bonus spins
/// are those past the half spins required before bonus at an even distance
/// from them, and the small bonus spins are all even half spins from the
/// second one on, less those that are large.
proof fn lemma_bonus_spins_below(spinner: Spinner, n: int)
    requires
        spinner.half_spins_required_for_completion >= 0,
        n >= 0,
    ensures
        ({
            let before = spinner.half_spins_required_for_completion + 3;
            let even_large = if before % 2 == 0 {
                spins_past(before, n)
            } else {
                0
            };
            &&& bonus_spins_below(spinner, n, true) == spins_past(before, n)
            &&& bonus_spins_below(spinner, n, false) == even_spins_from_two(n) - even_large
        }),
    decreases n,
{
    let before = spinner.half_spins_required_for_completion + 3;
    if n > 0 {
        lemma_bonus_spins_below(spinner, n - 1);
        let i = n - 1;
        assert(spins_past(before, n) == spins_past(before, n - 1) + if is_large_bonus_spin(
            spinner,
            i,
        ) {
            1int
        } else {
            0int
        }) by {
            if i > before {
                let d = i - before;
                assert((d / 2) - ((d - 1) / 2) == if d % 2 == 0 {
                    1int
                } else {
                    0int
                }) by (nonlinear_arith)
                    requires
                        d >= 1,
                ;
            }
        }
        assert(even_spins_from_two(n) == even_spins_from_two(n - 1) + if i > 1 && i % 2 == 0 {
            1int
        } else {
            0int
        }) by {
            if i >= 1 {
                assert((i / 2) - ((i - 1) / 2) == if i % 2 == 0 {
                    1int
                } else {
                    0int
                }) by (nonlinear_arith)
                    requires
                        i >= 1,
                ;
            }
        }
        assert(is_large_bonus_spin(spinner, i) ==> (i % 2 == 0 <==> before % 2 == 0)) by {
            if is_large_bonus_spin(spinner, i) {
                let d = i - before;
                assert(d % 2 == 0);
                assert((i % 2 == 0 <==> before % 2 == 0)) by (nonlinear_arith)
                    requires
                        d == i - before,
                        d % 2 == 0,
                ;
            }
        }
        assert(is_large_bonus_spin(spinner, i) ==> i > 1);
    }
}

/// The bonus of a spinner in legacy score simulation: of its half spins
/// `0..=total`, each one past the half spins required before bonus (those
/// required for completion and three more) at an even distance from them is
/// a large bonus spin (1100 legacy, 50 standardised), and each other even
/// half spin from the second one on is a small bonus spin (100 legacy, 10
/// standardised), also past the half spins required before bonus.
pub proof fn lemma_spinner_bonus(spinner: Spinner)
    requires
        spinner.total_half_spins_possible >= 0,
        spinner.half_spins_required_for_completion >= 0,
    ensures
        ({
            let total = spinner.total_half_spins_possible as int;
            let before = spinner.half_spins_required_for_completion + 3;
            let large = if total > before {
                (total - before) / 2
            } else {
                0
            };
            let small = total / 2 - if before % 2 == 0 {
                large
            } else {
                0
            };
            let h = OsuObject { kind: OsuObjectKind::Spinner(spinner) };
            &&& large_bonus_spins(spinner) == large
            &&& small_bonus_spins(spinner) == small
            &&& legacy_bonus_weight(h) == 1100 * large + 100 * small
            &&& standardised_bonus_weight(h) == 50 * large + 10 * small
        }),
{
    lemma_bonus_spins_below(spinner, spinner.total_half_spins_possible + 1);
}

} // verus!
