use vstd::prelude::*;

use crate::attributes::{
    counts_added, counts_fit, lemma_tally_prefix_monotone, lemma_tally_single_all, lemma_tally_step, tally,
    Count, OsuDifficultyAttributes,
};
use crate::legacy_score_simulator::{
    factor_total, hit_fits_after, saturate_i32, GradualLegacyScoreSimulator,
    LegacyScoreSimulatorInner,
};
use crate::object::OsuObject;

verus! {

/// The object counts of the objects `s`.
pub open spec fn counts_of(s: Seq<OsuObject>) -> OsuDifficultyAttributes {
    OsuDifficultyAttributes {
        n_circles: tally(s, Count::Circles) as u32,
        n_sliders: tally(s, Count::Sliders) as u32,
        n_large_ticks: tally(s, Count::LargeTicks) as u32,
        n_spinners: tally(s, Count::Spinners) as u32,
        max_combo: tally(s, Count::Combo) as u32,
    }
}

/// The object counts and the legacy score simulation of all of `s` stay
/// within their integer types.
pub open spec fn gradual_fits(s: Seq<OsuObject>) -> bool {
    &&& counts_fit(counts_of(Seq::empty()), s)
    &&& forall|k: int|
        0 <= k < s.len() ==> #[trigger] hit_fits_after(
            LegacyScoreSimulatorInner::spec_default(),
            s,
            k,
        )
}

/// What one step of gradual difficulty calculation yields.
#[derive(Copy, Clone, Debug, PartialEq, Eq, Structural)]
pub struct GradualStep {
    /// The strain skills process the difficulty objects from `skills_from`
    /// up to `skills_to`, exclusive, in this order. Difficulty object `i`
    /// belongs to hit object `i + 1`.
    pub skills_from: usize,
    /// The end of the difficulty objects to process, exclusive.
    pub skills_to: usize,
    /// The object counts of the processed hit objects.
    pub attrs: OsuDifficultyAttributes,
    /// The legacy combo score of the processed hit objects.
    pub maximum_legacy_combo_score: i64,
    /// The amount of processed hit objects.
    pub passed_objects: usize,
}

/// The step that takes gradual calculation over the hit objects `objects`
/// from `from` processed objects to `to`, with the score multipliers
/// `multipliers` of each object.
pub open spec fn step_between(
    objects: Seq<OsuObject>,
    multipliers: Seq<i32>,
    from: int,
    to: int,
) -> GradualStep {
    GradualStep {
        skills_from: (if from > 0 {
            from - 1
        } else {
            0
        }) as usize,
        skills_to: (to - 1) as usize,
        attrs: counts_of(objects.take(to)),
        maximum_legacy_combo_score: saturate_i32(multipliers[to - 1] * factor_total(0, objects.take(to))) as i64,
        passed_objects: to as usize,
    }
}

/// Gradual difficulty calculation of osu!standard, one hit object at a time:
/// which object and difficulty object come next, and the object counts and
/// legacy combo score of the objects so far. Each step names the difficulty
/// objects that the strain skills process for it.
pub struct OsuGradualDifficulty {
    idx: usize,
    objects: Vec<OsuObject>,
    score_multipliers: Vec<i32>,
    attrs: OsuDifficultyAttributes,
    score_simulator: GradualLegacyScoreSimulator,
}

impl OsuGradualDifficulty {
    /// The hit objects of the map.
    pub closed spec fn spec_objects(&self) -> Seq<OsuObject> {
        self.objects@
    }

    /// The legacy score multiplier of each hit object.
    pub closed spec fn spec_multipliers(&self) -> Seq<i32> {
        self.score_multipliers@
    }

    /// The amount of processed hit objects.
    pub closed spec fn spec_idx(&self) -> int {
        self.idx as int
    }

    /// The counts hold the processed objects (the first object is counted
    /// from the start), and the legacy simulation has simulated them.
    pub closed spec fn wf(&self) -> bool {
        let s = self.objects@;
        let counted = if self.idx == 0 && s.len() > 0 {
            1
        } else {
            self.idx as int
        };
        &&& s.len() == self.score_multipliers@.len()
        &&& gradual_fits(s)
        &&& self.idx <= s.len()
        &&& self.attrs == counts_of(s.take(counted))
        &&& self.score_simulator.wf()
        &&& self.score_simulator.processed() == s.take(self.idx as int)
    }

    /// Start gradual calculation over the hit objects `objects`, whose
    /// legacy score multipliers are `score_multipliers`.
    pub fn new(objects: Vec<OsuObject>, score_multipliers: Vec<i32>) -> (res: Self)
        requires
            objects@.len() == score_multipliers@.len(),
            gradual_fits(objects@),
        ensures
            res.wf(),
            res.spec_objects() == objects@,
            res.spec_multipliers() == score_multipliers@,
            res.spec_idx() == 0,
    {
        let mut attrs = OsuDifficultyAttributes {
            n_circles: 0,
            n_sliders: 0,
            n_large_ticks: 0,
            n_spinners: 0,
            max_combo: 0,
        };
        let ghost s = objects@;
        proof {
            assert(s.take(0) =~= Seq::<OsuObject>::empty());
        }
        if objects.len() > 0 {
            proof {
                Self::lemma_count_step(s, 0);
            }
            OsuDifficultyAttributes::increment_combo(&objects[0], &mut attrs);
        }
        OsuGradualDifficulty {
            idx: 0,
            objects,
            score_multipliers,
            attrs,
            score_simulator: GradualLegacyScoreSimulator::new(),
        }
    }

    /// Counting object `k` on top of the first `k` stays within `u32` and
    /// gives the counts of the first `k + 1`.
    proof fn lemma_count_step(s: Seq<OsuObject>, k: int)
        requires
            gradual_fits(s),
            0 <= k < s.len(),
        ensures
            counts_fit(counts_of(s.take(k)), seq![s[k]]),
            forall|a: OsuDifficultyAttributes|
                counts_added(counts_of(s.take(k)), a, seq![s[k]]) ==> a
                    == counts_of(s.take(k + 1)),
    {
        assert(s.take(s.len() as int) =~= s);
        lemma_tally_single_all(s[k]);
        lemma_tally_step(s, k, Count::Circles);
        lemma_tally_step(s, k, Count::Sliders);
        lemma_tally_step(s, k, Count::Spinners);
        lemma_tally_step(s, k, Count::LargeTicks);
        lemma_tally_step(s, k, Count::Combo);
        lemma_tally_prefix_monotone(s, Count::Circles, k + 1, s.len() as int);
        lemma_tally_prefix_monotone(s, Count::Sliders, k + 1, s.len() as int);
        lemma_tally_prefix_monotone(s, Count::Spinners, k + 1, s.len() as int);
        lemma_tally_prefix_monotone(s, Count::LargeTicks, k + 1, s.len() as int);
        lemma_tally_prefix_monotone(s, Count::Combo, k + 1, s.len() as int);
    }

    /// A well-formed calculation has processed no more objects than there
    /// are.
    pub proof fn lemma_wf_idx(&self)
        requires
            self.wf(),
        ensures
            0 <= self.spec_idx() <= self.spec_objects().len(),
    {
    }

    /// The amount of steps left: the hit objects not yet processed, which
    /// is how many more times [`Self::next`] returns a step.
    pub fn len(&self) -> (res: usize)
        requires
            self.wf(),
        ensures
            res == self.spec_objects().len() - self.spec_idx(),
    {
        self.objects.len() - self.idx
    }

    /// Simulate and count the next hit object, without taking a step.
    fn advance(&mut self)
        requires
            old(self).wf(),
            old(self).idx < old(self).objects@.len(),
        ensures
            final(self).wf(),
            final(self).objects@ == old(self).objects@,
            final(self).score_multipliers@ == old(self).score_multipliers@,
            final(self).idx == old(self).idx + 1,
    {
        let k = self.idx;
        let n = self.objects.len();
        assert(k < n);
        let next_idx = k + 1;
        let ghost s = self.objects@;
        proof {
            assert(s.take(k as int + 1).drop_last() =~= s.take(k as int));
            assert(hit_fits_after(LegacyScoreSimulatorInner::spec_default(), s, k as int));
        }
        let _ = self.score_simulator.simulate_next(&self.objects[k], self.score_multipliers[k]);
        if k > 0 {
            proof {
                Self::lemma_count_step(s, k as int);
            }
            OsuDifficultyAttributes::increment_combo(&self.objects[k], &mut self.attrs);
        }
        self.idx = next_idx;
        proof {
            assert(s.take(k as int).push(s[k as int]) =~= s.take(k as int + 1));
        }
    }

    /// Process the next hit object and return the step, or `None` once
    /// every object is processed.
    pub fn next(&mut self) -> (res: Option<GradualStep>)
        requires
            old(self).wf(),
        ensures
            final(self).wf(),
            final(self).spec_objects() == old(self).spec_objects(),
            final(self).spec_multipliers() == old(self).spec_multipliers(),
            old(self).spec_idx() < old(self).spec_objects().len() ==> {
                &&& final(self).spec_idx() == old(self).spec_idx() + 1
                &&& res == Some(
                    step_between(
                        old(self).spec_objects(),
                        old(self).spec_multipliers(),
                        old(self).spec_idx(),
                        old(self).spec_idx() + 1,
                    ),
                )
            },
            old(self).spec_idx() >= old(self).spec_objects().len() ==> {
                &&& final(self).spec_idx() == old(self).spec_idx()
                &&& res is None
            },
    {
        if self.idx >= self.objects.len() {
            return None;
        }
        let k = self.idx;
        let next_idx = k + 1;
        let multiplier = self.score_multipliers[k];
        let ghost s = self.objects@;
        proof {
            assert(s.take(k as int + 1).drop_last() =~= s.take(k as int));
            assert(hit_fits_after(LegacyScoreSimulatorInner::spec_default(), s, k as int));
        }
        let legacy = self.score_simulator.simulate_next(&self.objects[k], multiplier);
        if k > 0 {
            proof {
                Self::lemma_count_step(s, k as int);
            }
            OsuDifficultyAttributes::increment_combo(&self.objects[k], &mut self.attrs);
        }
        self.idx = next_idx;
        proof {
            assert(s.take(k as int).push(s[k as int]) =~= s.take(k as int + 1));
        }
        Some(
            GradualStep {
                skills_from: if k > 0 {
                    k - 1
                } else {
                    0
                },
                skills_to: k,
                attrs: self.attrs,
                maximum_legacy_combo_score: legacy.combo_score,
                passed_objects: next_idx,
            },
        )
    }

    /// Process everything up to the next `n`th hit object, zero-based, and
    /// return the step over all of them, or `None` once every object is
    /// processed.
    pub fn nth(&mut self, n: usize) -> (res: Option<GradualStep>)
        requires
            old(self).wf(),
        ensures
            final(self).wf(),
            final(self).spec_objects() == old(self).spec_objects(),
            final(self).spec_multipliers() == old(self).spec_multipliers(),
            ({
                let len = old(self).spec_objects().len();
                let from = old(self).spec_idx();
                let to = if from + n + 1 <= len {
                    from + n + 1
                } else {
                    len as int
                };
                &&& from < len ==> {
                    &&& final(self).spec_idx() == to
                    &&& res == Some(
                        step_between(
                            old(self).spec_objects(),
                            old(self).spec_multipliers(),
                            from,
                            to,
                        ),
                    )
                }
                &&& from >= len ==> {
                    &&& final(self).spec_idx() == from
                    &&& res is None
                }
            }),
    {
        let skills_from = if self.idx > 0 {
            self.idx - 1
        } else {
            0
        };
        let len = self.len();
        let left = if len > 0 {
            len - 1
        } else {
            0
        };
        let mut take = if n <= left {
            n
        } else {
            left
        };
        if self.idx == 0 && take > 0 {
            self.advance();
            take = take - 1;
        }
        let ghost start = self.idx;
        let mut i: usize = 0;
        while i < take
            invariant
                self.wf(),
                self.objects@ == old(self).objects@,
                self.score_multipliers@ == old(self).score_multipliers@,
                self.idx == start + i,
                i <= take,
                start + take < self.objects@.len() || take == 0,
            decreases take - i,
        {
            self.advance();
            i = i + 1;
        }
        match self.next() {
            Some(step) => Some(GradualStep { skills_from, ..step }),
            None => None,
        }
    }
}

/// Processing `n + 1` objects at once with `nth(n)` and one at a time with
/// `next` report the same: the counts and the legacy combo score of a step
/// depend only on how many objects are processed, not on where the step
/// started.
pub proof fn lemma_step_depends_on_processed(
    objects: Seq<OsuObject>,
    multipliers: Seq<i32>,
    from_a: int,
    from_b: int,
    to: int,
)
    ensures
        step_between(objects, multipliers, from_a, to).attrs == step_between(
            objects,
            multipliers,
            from_b,
            to,
        ).attrs,
        step_between(objects, multipliers, from_a, to).maximum_legacy_combo_score == step_between(
            objects,
            multipliers,
            from_b,
            to,
        ).maximum_legacy_combo_score,
        step_between(objects, multipliers, from_a, to).passed_objects == step_between(
            objects,
            multipliers,
            from_b,
            to,
        ).passed_objects,
{
}

/// A step of gradual calculation reports the counts that counting the
/// processed objects at once gives, as
/// [`OsuDifficultyAttributes::count_objects`] does from zero counts.
pub proof fn lemma_step_counts_match_batch(
    objects: Seq<OsuObject>,
    multipliers: Seq<i32>,
    from: int,
    to: int,
    batch: OsuDifficultyAttributes,
)
    requires
        counts_added(counts_of(Seq::empty()), batch, objects.take(to)),
    ensures
        step_between(objects, multipliers, from, to).attrs == batch,
{
}

/// The steps left that [`OsuGradualDifficulty::len`] reports are exactly
/// the steps that [`OsuGradualDifficulty::next`] still returns: `next`
/// returns a step while objects are left (and `len` then drops by one), and
/// `None` once `len` is zero, on every map, the empty one included.
pub proof fn lemma_len_counts_steps(g: OsuGradualDifficulty)
    requires
        g.wf(),
    ensures
        g.spec_objects().len() - g.spec_idx() >= 0,
        g.spec_idx() < g.spec_objects().len() <==> g.spec_objects().len() - g.spec_idx() > 0,
{
    g.lemma_wf_idx();
}

} // verus!
