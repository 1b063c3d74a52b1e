use vstd::prelude::*;

use crate::attributes::{
    lemma_one_by_one_is_prefix, lemma_tally_single, lemma_tally_step, one_by_one, tally, weight, Count,
};
use crate::legacy_score_simulator::{accuracy_score_weight, large_bonus_spins, lemma_spinner_bonus};
use crate::object::{
    big_nested_kind, count_where, repeat_kind, NestedSliderObject, NestedSliderObjectKind, OsuObject,
    OsuObjectKind, Spinner,
};

verus! {

/// Rust's division of integers, which rounds toward zero.
pub open spec fn trunc_div(a: int, b: int) -> int {
    if a >= 0 {
        a / b
    } else {
        -((-a) / b)
    }
}

/// The larger of two integers.
pub open spec fn max_int(a: int, b: int) -> int {
    if a >= b {
        a
    } else {
        b
    }
}

/// Full spins of a spinner: half the possible half spins.
pub open spec fn spinner_full_spins(spinner: Spinner) -> int {
    trunc_div(spinner.total_half_spins_possible as int, 2)
}

/// Bonus spins counted for a spinner: the spins after the one and a half
/// extra rotations that bonus requires, reduced by half the full spins to
/// represent the average rather than the best case, and never negative.
pub open spec fn spinner_bonus_spins(spinner: Spinner) -> int {
    let before_bonus = spinner.half_spins_required_for_completion + 3;
    max_int(
        trunc_div(spinner.total_half_spins_possible - before_bonus, 2) - trunc_div(
            spinner_full_spins(spinner),
            2,
        ),
        0,
    )
}

/// Legacy score of a spinner: 100 per full spin and 1000 per bonus spin.
pub open spec fn spinner_score(spinner: Spinner) -> int {
    100 * spinner_full_spins(spinner) + 1000 * spinner_bonus_spins(spinner)
}

/// Whether the `i32` arithmetic of the spinner score stays in range.
pub open spec fn spinner_score_fits(spinner: Spinner) -> bool {
    let before_bonus = spinner.half_spins_required_for_completion + 3;
    &&& before_bonus <= i32::MAX
    &&& i32::MIN <= spinner.total_half_spins_possible - before_bonus <= i32::MAX
    &&& i32::MIN <= 100 * spinner_full_spins(spinner) <= i32::MAX
    &&& 1000 * spinner_bonus_spins(spinner) <= i32::MAX
}

/// The legacy score of a spinner.
pub fn calculate_spinner_score(spinner: Spinner) -> (res: i64)
    requires
        spinner_score_fits(spinner),
    ensures
        res == spinner_score(spinner),
{
    let total_half_spins_possible = spinner.total_half_spins_possible;
    let half_spins_required_before_bonus = spinner.half_spins_required_for_completion + 3;
    let full_spins = total_half_spins_possible / 2;
    let mut score: i64 = (100 * full_spins) as i64;
    let mut bonus_spins = (total_half_spins_possible - half_spins_required_before_bonus) / 2;
    bonus_spins = bonus_spins - full_spins / 2;
    if bonus_spins < 0 {
        bonus_spins = 0;
    }
    score = score + (1000 * bonus_spins) as i64;
    score
}

/// The sum of the legacy scores of the spinners among `s`.
pub open spec fn spinner_score_total(s: Seq<OsuObject>) -> int
    decreases s.len(),
{
    if s.len() == 0 {
        0
    } else {
        spinner_score_total(s.drop_last()) + match s.last().kind {
            OsuObjectKind::Spinner(spinner) => spinner_score(spinner),
            _ => 0,
        }
    }
}

/// The nested score of the objects `s`: 30 per slider head, tail and repeat,
/// 10 per slider tick, plus the spinner scores.
pub open spec fn nested_score_total(s: Seq<OsuObject>) -> int {
    30 * (2 * tally(s, Count::Sliders) + tally(s, Count::Repeats)) + 10 * tally(s, Count::Ticks)
        + spinner_score_total(s)
}

/// Counters of nested score over the objects processed so far.
#[derive(Copy, Clone, Debug, Default)]
pub struct InnerNestedScorePerObject {
    pub n_sliders: usize,
    pub n_repeats: usize,
    pub amount_of_small_ticks: usize,
    pub spinner_score: i64,
    pub object_count: usize,
}

impl InnerNestedScorePerObject {
    /// The counters hold exactly the totals of the objects `s`.
    pub open spec fn counts(&self, s: Seq<OsuObject>) -> bool {
        &&& self.n_sliders == tally(s, Count::Sliders)
        &&& self.n_repeats == tally(s, Count::Repeats)
        &&& self.amount_of_small_ticks == tally(s, Count::Ticks)
        &&& self.spinner_score == spinner_score_total(s)
        &&& self.object_count == s.len()
    }

    /// Processing `h` on top of `s` stays within the counters' types.
    pub open spec fn fits(s: Seq<OsuObject>, h: OsuObject) -> bool {
        let t = s.push(h);
        &&& tally(t, Count::Sliders) <= usize::MAX
        &&& tally(t, Count::Repeats) <= usize::MAX
        &&& tally(t, Count::Ticks) <= usize::MAX
        &&& t.len() <= usize::MAX
        &&& i64::MIN <= spinner_score_total(t) <= i64::MAX
        &&& (h.kind matches OsuObjectKind::Spinner(spinner) ==> spinner_score_fits(spinner))
    }

    /// Add the next object to the counters.
    pub(crate) fn process_next(&mut self, h: &OsuObject, Ghost(s): Ghost<Seq<OsuObject>>)
        requires
            old(self).counts(s),
            Self::fits(s, *h),
        ensures
            final(self).counts(s.push(*h)),
    {
        let ghost t = s.push(*h);
        proof {
            assert(t.drop_last() =~= s);
            assert(t.take(s.len() as int) =~= s);
            assert(t.take(s.len() as int + 1) =~= t);
            lemma_tally_step(t, s.len() as int, Count::Sliders);
            lemma_tally_step(t, s.len() as int, Count::Repeats);
            lemma_tally_step(t, s.len() as int, Count::Ticks);
        }
        self.object_count = self.object_count + 1;
        match &h.kind {
            OsuObjectKind::Circle => {},
            OsuObjectKind::Slider(slider) => {
                self.n_sliders = self.n_sliders + 1;
                self.n_repeats = self.n_repeats + slider.repeat_count();
                self.amount_of_small_ticks = self.amount_of_small_ticks + slider.tick_count();
            },
            OsuObjectKind::Spinner(spinner) => {
                self.spinner_score = self.spinner_score + calculate_spinner_score(*spinner);
            },
        }
    }

    /// Whether the nested score of the counters fits an `i64`.
    pub open spec fn score_fits(&self) -> bool {
        i64::MIN <= 30 * (2 * self.n_sliders + self.n_repeats) + 10 * self.amount_of_small_ticks
            + self.spinner_score <= i64::MAX
    }

    /// The nested score per object as the fraction `(score, object_count)`.
    pub fn calculate(&self) -> (res: (i64, usize))
        requires
            self.score_fits(),
        ensures
            res.0 == 30 * (2 * self.n_sliders + self.n_repeats) + 10 * self.amount_of_small_ticks
                + self.spinner_score,
            res.1 == self.object_count,
    {
        let big_ticks = 2 * (self.n_sliders as i128) + self.n_repeats as i128;
        let score = 30 * big_ticks + 10 * (self.amount_of_small_ticks as i128) + (
        self.spinner_score as i128);
        (score as i64, self.object_count)
    }
}

/// The average nested score per object of a map.
pub struct NestedScorePerObject;

impl NestedScorePerObject {
    /// The nested score of the first `passed_objects` objects as the
    /// fraction `(score, object_count)`; the score per object is their
    /// quotient.
    pub fn calculate(objects: &[OsuObject], passed_objects: usize) -> (res: (i64, usize))
        requires
            forall|i: int|
                0 <= i < objects@.len() && i < passed_objects ==> #[trigger] InnerNestedScorePerObject::fits(
                    objects@.take(i),
                    objects@[i],
                ),
            i64::MIN <= nested_score_total(
                objects@.take(if passed_objects <= objects@.len() {
                    passed_objects as int
                } else {
                    objects@.len() as int
                }),
            ) <= i64::MAX,
        ensures
            ({
                let s = objects@.take(
                    if passed_objects <= objects@.len() {
                        passed_objects as int
                    } else {
                        objects@.len() as int
                    },
                );
                &&& res.0 == nested_score_total(s)
                &&& res.1 == s.len()
            }),
    {
        let n = if passed_objects <= objects.len() {
            passed_objects
        } else {
            objects.len()
        };
        let mut inner = InnerNestedScorePerObject {
            n_sliders: 0,
            n_repeats: 0,
            amount_of_small_ticks: 0,
            spinner_score: 0,
            object_count: 0,
        };
        proof {
            assert(objects@.take(0) =~= Seq::<OsuObject>::empty());
        }
        let mut i: usize = 0;
        while i < n
            invariant
                n <= objects@.len(),
                n <= passed_objects,
                i <= n,
                inner.counts(objects@.take(i as int)),
                forall|i: int|
                    0 <= i < objects@.len() && i < passed_objects ==> #[trigger] InnerNestedScorePerObject::fits(
                        objects@.take(i),
                        objects@[i],
                    ),
            decreases n - i,
        {
            proof {
                assert(objects@.take(i + 1) =~= objects@.take(i as int).push(objects@[i as int]));
            }
            inner.process_next(&objects[i], Ghost(objects@.take(i as int)));
            i = i + 1;
        }
        inner.calculate()
    }
}

/// Nested score per object, computed one object at a time.
pub struct GradualNestedScorePerObject {
    inner: InnerNestedScorePerObject,
    /// The objects processed so far.
    processed: Ghost<Seq<OsuObject>>,
}

impl GradualNestedScorePerObject {
    /// Whether the counters hold the totals of the processed objects.
    pub closed spec fn wf(&self) -> bool {
        self.inner.counts(self.processed@)
    }

    /// The objects processed so far.
    pub closed spec fn processed(&self) -> Seq<OsuObject> {
        self.processed@
    }

    /// Start with no object processed.
    pub fn new() -> (res: Self)
        ensures
            res.wf(),
            res.processed() == Seq::<OsuObject>::empty(),
    {
        let res = GradualNestedScorePerObject {
            inner: InnerNestedScorePerObject {
                n_sliders: 0,
                n_repeats: 0,
                amount_of_small_ticks: 0,
                spinner_score: 0,
                object_count: 0,
            },
            processed: Ghost(Seq::empty()),
        };
        proof {
            assert(res.processed@ =~= Seq::<OsuObject>::empty());
        }
        res
    }

    /// Process the next object and return the nested score of all objects
    /// processed so far as the fraction `(score, object_count)`.
    pub fn calculate_next(&mut self, h: &OsuObject) -> (res: (i64, usize))
        requires
            old(self).wf(),
            InnerNestedScorePerObject::fits(old(self).processed(), *h),
            i64::MIN <= nested_score_total(old(self).processed().push(*h)) <= i64::MAX,
        ensures
            final(self).wf(),
            final(self).processed() == old(self).processed().push(*h),
            res.0 == nested_score_total(final(self).processed()),
            res.1 == final(self).processed().len(),
    {
        let ghost s = self.processed@;
        self.inner.process_next(h, Ghost(s));
        self.processed = Ghost(s.push(*h));
        self.inner.calculate()
    }
}

/// Processing objects one at a time reports what computing a prefix at
/// once reports: after `n` calls of
/// [`GradualNestedScorePerObject::calculate_next`] on the first `n` objects
/// in order, starting from [`GradualNestedScorePerObject::new`], the
/// processed objects are `one_by_one(objects, n)`, whose nested score and
/// count are those that [`NestedScorePerObject::calculate`] returns for
/// `passed_objects == n`.
pub proof fn lemma_gradual_nested_matches_batch(objects: Seq<OsuObject>, n: nat)
    requires
        n <= objects.len(),
    ensures
        nested_score_total(one_by_one(objects, n)) == nested_score_total(objects.take(n as int)),
        one_by_one(objects, n).len() == objects.take(n as int).len(),
{
    lemma_one_by_one_is_prefix(objects, n);
}

/// The legacy score of a spinner counts its full spins, half its half spins
/// rounded down (`2 * full <= total < 2 * full + 2`), at 100 each, and as
/// bonus spins at 1000 each the large bonus spins of legacy score
/// simulation less a quarter of the half spins, rounded down, and never
/// fewer than none.
pub proof fn lemma_spinner_score_spins(spinner: Spinner)
    requires
        spinner.total_half_spins_possible >= 0,
        spinner.half_spins_required_for_completion >= 0,
    ensures
        ({
            let total = spinner.total_half_spins_possible as int;
            let full = spinner_full_spins(spinner);
            &&& 2 * full <= total < 2 * full + 2
            &&& spinner_score(spinner) == 100 * full + 1000 * max_int(
                large_bonus_spins(spinner) - total / 4,
                0,
            )
        }),
{
    lemma_spinner_bonus(spinner);
    let total = spinner.total_half_spins_possible as int;
    let before = spinner.half_spins_required_for_completion + 3;
    assert((total / 2) / 2 == total / 4) by (nonlinear_arith)
        requires
            total >= 0,
    ;
    if total < before {
        let d = total - before;
        assert(trunc_div(d, 2) <= 0);
    }
}

/// The tail objects among nested objects.
pub open spec fn tail_kind() -> spec_fn(NestedSliderObjectKind) -> bool {
    |k: NestedSliderObjectKind| k is Tail
}

/// Repeats and tails are counted apart.
proof fn lemma_big_nested_split(s: Seq<NestedSliderObject>)
    ensures
        count_where(s, big_nested_kind()) == count_where(s, repeat_kind()) + count_where(
            s,
            tail_kind(),
        ),
    decreases s.len(),
{
    if s.len() > 0 {
        lemma_big_nested_split(s.drop_last());
    }
}

/// Legacy scoring and nested score agree on a circle and on a slider with
/// one tail: the accuracy score of legacy score simulation is the 300 of
/// the object plus its nested score (30 per slider head, repeat and tail,
/// 10 per tick).
pub proof fn lemma_accuracy_score_is_300_plus_nested(h: OsuObject)
    requires
        h.kind is Circle || (h.kind matches OsuObjectKind::Slider(slider) && count_where(
            slider.nested_objects@,
            tail_kind(),
        ) == 1),
    ensures
        accuracy_score_weight(h) == 300 + nested_score_total(seq![h]),
{
    lemma_tally_single(h, Count::Sliders);
    lemma_tally_single(h, Count::Repeats);
    lemma_tally_single(h, Count::Ticks);
    assert(seq![h].drop_last() =~= Seq::<OsuObject>::empty());
    assert(spinner_score_total(Seq::<OsuObject>::empty()) == 0);
    assert(spinner_score_total(seq![h]) == 0);
    if let OsuObjectKind::Slider(slider) = h.kind {
        lemma_big_nested_split(slider.nested_objects@);
    }
}

} // verus!
