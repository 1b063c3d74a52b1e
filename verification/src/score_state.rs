use vstd::prelude::*;

verus! {

/// osu!standard hitresults.
#[derive(Clone, Debug, PartialEq, Eq, Structural)]
pub struct OsuHitResults {
    /// "Large tick" hits (slider ticks and repeats, plus heads for lazer
    /// scores without slider accuracy). Only relevant for osu!lazer.
    pub large_tick_hits: u32,
    /// "Small tick" hits: slider end hits for lazer scores without slider
    /// accuracy. Only relevant for osu!lazer.
    pub small_tick_hits: u32,
    /// Amount of successfully hit slider ends. Only relevant for osu!lazer.
    pub slider_end_hits: u32,
    /// Amount of 300s.
    pub n300: u32,
    /// Amount of 100s.
    pub n100: u32,
    /// Amount of 50s.
    pub n50: u32,
    /// Amount of misses.
    pub misses: u32,
}

impl OsuHitResults {
    /// The total amount of hits, as a mathematical integer.
    pub open spec fn spec_total_hits(&self) -> int {
        self.n300 + self.n100 + self.n50 + self.misses
    }

    /// Create new empty hitresults.
    pub fn new() -> (res: Self)
        ensures
            res.large_tick_hits == 0,
            res.small_tick_hits == 0,
            res.slider_end_hits == 0,
            res.n300 == 0,
            res.n100 == 0,
            res.n50 == 0,
            res.misses == 0,
    {
        OsuHitResults {
            large_tick_hits: 0,
            small_tick_hits: 0,
            slider_end_hits: 0,
            n300: 0,
            n100: 0,
            n50: 0,
            misses: 0,
        }
    }

    /// Return the total amount of hits by adding everything up.
    pub fn total_hits(&self) -> (res: u32)
        requires
            self.spec_total_hits() <= u32::MAX,
        ensures
            res == self.spec_total_hits(),
    {
        self.n300 + self.n100 + self.n50 + self.misses
    }
}

impl Default for OsuHitResults {
    fn default() -> (res: Self)
        ensures
            res == OsuHitResults::new_spec(),
    {
        Self::new()
    }
}

impl OsuHitResults {
    /// The empty hitresults.
    pub open spec fn new_spec() -> Self {
        OsuHitResults {
            large_tick_hits: 0,
            small_tick_hits: 0,
            slider_end_hits: 0,
            n300: 0,
            n100: 0,
            n50: 0,
            misses: 0,
        }
    }

    /// Whether the amounts fit the `u32` arithmetic of the accuracy formula
    /// for the given origin.
    pub open spec fn accuracy_fits(&self, origin: OsuScoreOrigin) -> bool {
        &&& 6 * self.n300 + 2 * self.n100 + self.n50 <= u32::MAX
        &&& 6 * self.spec_total_hits() <= u32::MAX
        &&& match origin {
            OsuScoreOrigin::Stable => true,
            OsuScoreOrigin::WithSliderAcc { max_large_ticks, max_slider_ends } => {
                &&& 3 * min_u32(self.slider_end_hits, max_slider_ends) <= u32::MAX
                &&& 3 * max_slider_ends <= u32::MAX
            },
            OsuScoreOrigin::WithoutSliderAcc { .. } => true,
        }
    }

    /// Numerator of the accuracy, scaled by 5 so that it is an integer.
    ///
    /// Accuracy is `6*n300 + 2*n100 + n50` over `6 * total_hits`, plus, for
    /// lazer scores, `3` per slider end and `0.6` per large tick (with slider
    /// accuracy) or `0.6` per large tick and `0.2` per small tick (without),
    /// where hits are capped at their maximum.
    pub open spec fn accuracy_numerator(&self, origin: OsuScoreOrigin) -> int {
        5 * (6 * self.n300 + 2 * self.n100 + self.n50) + match origin {
            OsuScoreOrigin::Stable => 0,
            OsuScoreOrigin::WithSliderAcc { max_large_ticks, max_slider_ends } => 15 * min_u32(
                self.slider_end_hits,
                max_slider_ends,
            ) + 3 * min_u32(self.large_tick_hits, max_large_ticks),
            OsuScoreOrigin::WithoutSliderAcc { max_large_ticks, max_small_ticks } => 3 * min_u32(
                self.large_tick_hits,
                max_large_ticks,
            ) + min_u32(self.small_tick_hits, max_small_ticks),
        }
    }

    /// Denominator of the accuracy, scaled by 5 like the numerator.
    pub open spec fn accuracy_denominator(&self, origin: OsuScoreOrigin) -> int {
        30 * self.spec_total_hits() + match origin {
            OsuScoreOrigin::Stable => 0,
            OsuScoreOrigin::WithSliderAcc { max_large_ticks, max_slider_ends } => 15
                * max_slider_ends + 3 * max_large_ticks,
            OsuScoreOrigin::WithoutSliderAcc { max_large_ticks, max_small_ticks } => 3
                * max_large_ticks + max_small_ticks,
        }
    }

    /// The accuracy between `0` and `1` as the fraction
    /// `(numerator, denominator)`, both scaled by 5. A denominator of `0`
    /// means an accuracy of `0`.
    pub fn accuracy_fraction(&self, origin: OsuScoreOrigin) -> (res: (u64, u64))
        requires
            self.accuracy_fits(origin),
        ensures
            res.0 == self.accuracy_numerator(origin),
            res.1 == self.accuracy_denominator(origin),
            res.0 <= res.1,
    {
        let n300 = self.n300 as u64;
        let n100 = self.n100 as u64;
        let n50 = self.n50 as u64;
        let misses = self.misses as u64;
        let mut numerator: u64 = 5 * (6 * n300 + 2 * n100 + n50);
        let mut denominator: u64 = 30 * (n300 + n100 + n50 + misses);
        match origin {
            OsuScoreOrigin::Stable => {},
            OsuScoreOrigin::WithSliderAcc { max_large_ticks, max_slider_ends } => {
                let slider_end_hits = min_u32_exec(self.slider_end_hits, max_slider_ends) as u64;
                let large_tick_hits = min_u32_exec(self.large_tick_hits, max_large_ticks) as u64;
                numerator = numerator + 15 * slider_end_hits + 3 * large_tick_hits;
                denominator = denominator + 15 * (max_slider_ends as u64) + 3
                    * (max_large_ticks as u64);
            },
            OsuScoreOrigin::WithoutSliderAcc { max_large_ticks, max_small_ticks } => {
                let large_tick_hits = min_u32_exec(self.large_tick_hits, max_large_ticks) as u64;
                let small_tick_hits = min_u32_exec(self.small_tick_hits, max_small_ticks) as u64;
                numerator = numerator + 3 * large_tick_hits + small_tick_hits;
                denominator = denominator + 3 * (max_large_ticks as u64) + (
                max_small_ticks as u64);
            },
        }
        (numerator, denominator)
    }
}

/// The smaller of two amounts.
pub open spec fn min_u32(a: u32, b: u32) -> u32 {
    if a <= b {
        a
    } else {
        b
    }
}

/// The smaller of two amounts.
pub fn min_u32_exec(a: u32, b: u32) -> (res: u32)
    ensures
        res == min_u32(a, b),
{
    if a <= b {
        a
    } else {
        b
    }
}

/// Aggregation for a score's current state.
#[derive(Clone, Debug, PartialEq, Eq, Structural)]
pub struct OsuScoreState {
    /// Maximum combo that the score has had so far. **Not** the maximum
    /// possible combo of the map so far.
    pub max_combo: u32,
    /// Hitresults of a score.
    pub hitresults: OsuHitResults,
    /// Legacy total score. Only relevant for osu!stable.
    pub legacy_total_score: Option<u32>,
}

impl OsuScoreState {
    /// Create a new empty score state.
    pub fn new() -> (res: Self)
        ensures
            res.max_combo == 0,
            res.hitresults == OsuHitResults::new_spec(),
            res.legacy_total_score.is_none(),
    {
        OsuScoreState { max_combo: 0, hitresults: OsuHitResults::new(), legacy_total_score: None }
    }
}

impl Default for OsuScoreState {
    fn default() -> (res: Self)
        ensures
            res.max_combo == 0,
            res.hitresults == OsuHitResults::new_spec(),
            res.legacy_total_score.is_none(),
    {
        Self::new()
    }
}

/// The origin of a score, which decides how slider parts count for accuracy.
#[derive(Copy, Clone, Debug, PartialEq, Eq, Structural)]
pub enum OsuScoreOrigin {
    /// For scores set on osu!stable
    Stable,
    /// For scores set on osu!lazer with slider accuracy
    WithSliderAcc { max_large_ticks: u32, max_slider_ends: u32 },
    /// For scores set on osu!lazer without slider accuracy
    WithoutSliderAcc { max_large_ticks: u32, max_small_ticks: u32 },
}

impl OsuScoreOrigin {
    /// The tick score and tick maximum of the accuracy formula
    /// `acc = (300*n300 + 100*n100 + 50*n50 + tick_score) / (300*total_hits + tick_max)`.
    pub open spec fn spec_tick_scores(
        self,
        large_tick_hits: u32,
        small_tick_hits: u32,
        slider_end_hits: u32,
    ) -> (int, int) {
        match self {
            OsuScoreOrigin::Stable => (0, 0),
            OsuScoreOrigin::WithSliderAcc { max_large_ticks, max_slider_ends } => (
                150 * slider_end_hits + 30 * large_tick_hits,
                150 * max_slider_ends + 30 * max_large_ticks,
            ),
            OsuScoreOrigin::WithoutSliderAcc { max_large_ticks, max_small_ticks } => (
                30 * large_tick_hits + 10 * small_tick_hits,
                30 * max_large_ticks + 10 * max_small_ticks,
            ),
        }
    }

    /// The tick hits `(large, small, slider ends)` capped to the maxima that
    /// this origin counts, as the accuracy reads them; a kind that the
    /// origin does not count is left as it is.
    pub open spec fn spec_capped_tick_hits(
        self,
        large_tick_hits: u32,
        small_tick_hits: u32,
        slider_end_hits: u32,
    ) -> (u32, u32, u32) {
        match self {
            OsuScoreOrigin::Stable => (large_tick_hits, small_tick_hits, slider_end_hits),
            OsuScoreOrigin::WithSliderAcc { max_large_ticks, max_slider_ends } => (
                min_u32(large_tick_hits, max_large_ticks),
                small_tick_hits,
                min_u32(slider_end_hits, max_slider_ends),
            ),
            OsuScoreOrigin::WithoutSliderAcc { max_large_ticks, max_small_ticks } => (
                min_u32(large_tick_hits, max_large_ticks),
                min_u32(small_tick_hits, max_small_ticks),
                slider_end_hits,
            ),
        }
    }

    /// The tick hits `(large, small, slider ends)` capped to the maxima that
    /// this origin counts.
    pub fn capped_tick_hits(
        &self,
        large_tick_hits: u32,
        small_tick_hits: u32,
        slider_end_hits: u32,
    ) -> (res: (u32, u32, u32))
        ensures
            res == self.spec_capped_tick_hits(large_tick_hits, small_tick_hits, slider_end_hits),
    {
        match self {
            OsuScoreOrigin::Stable => (large_tick_hits, small_tick_hits, slider_end_hits),
            OsuScoreOrigin::WithSliderAcc { max_large_ticks, max_slider_ends } => (
                min_u32_exec(large_tick_hits, *max_large_ticks),
                small_tick_hits,
                min_u32_exec(slider_end_hits, *max_slider_ends),
            ),
            OsuScoreOrigin::WithoutSliderAcc { max_large_ticks, max_small_ticks } => (
                min_u32_exec(large_tick_hits, *max_large_ticks),
                min_u32_exec(small_tick_hits, *max_small_ticks),
                slider_end_hits,
            ),
        }
    }

    /// Whether [`Self::tick_scores`] fits its `u32` arithmetic.
    pub open spec fn tick_scores_fit(
        self,
        large_tick_hits: u32,
        small_tick_hits: u32,
        slider_end_hits: u32,
    ) -> bool {
        let (score, max) = self.spec_tick_scores(large_tick_hits, small_tick_hits, slider_end_hits);
        &&& score <= u32::MAX
        &&& max <= u32::MAX
    }

    /// Returns the tick score and tick max for this origin based on the
    /// accuracy formula
    /// `acc = (300*n300 + 100*n100 + 50*n50 + tick_score) / (300*total_hits + tick_max)`.
    pub fn tick_scores(&self, large_tick_hits: u32, small_tick_hits: u32, slider_end_hits: u32) -> (res: (
        u32,
        u32,
    ))
        requires
            self.tick_scores_fit(large_tick_hits, small_tick_hits, slider_end_hits),
        ensures
            res.0 == self.spec_tick_scores(large_tick_hits, small_tick_hits, slider_end_hits).0,
            res.1 == self.spec_tick_scores(large_tick_hits, small_tick_hits, slider_end_hits).1,
    {
        match self {
            OsuScoreOrigin::Stable => (0, 0),
            OsuScoreOrigin::WithSliderAcc { max_large_ticks, max_slider_ends } => (
                150 * slider_end_hits + 30 * large_tick_hits,
                150 * *max_slider_ends + 30 * *max_large_ticks,
            ),
            OsuScoreOrigin::WithoutSliderAcc { max_large_ticks, max_small_ticks } => (
                30 * large_tick_hits + 10 * small_tick_hits,
                30 * *max_large_ticks + 10 * *max_small_ticks,
            ),
        }
    }
}

/// The amount of hits that are not misses.
pub fn total_successful_hits(state: &OsuHitResults) -> (res: u32)
    requires
        state.n300 + state.n100 + state.n50 <= u32::MAX,
    ensures
        res == state.n300 + state.n100 + state.n50,
{
    state.n300 + state.n100 + state.n50
}

/// The accuracy fraction agrees with the formula behind
/// [`OsuScoreOrigin::tick_scores`]: for hit counts that do not exceed their
/// maxima, ten times the scaled numerator is
/// `300*n300 + 100*n100 + 50*n50 + tick_score` and ten times the scaled
/// denominator is `300*total_hits + tick_max`.
pub proof fn lemma_accuracy_matches_tick_scores(h: OsuHitResults, origin: OsuScoreOrigin)
    requires
        match origin {
            OsuScoreOrigin::Stable => true,
            OsuScoreOrigin::WithSliderAcc { max_large_ticks, max_slider_ends } => {
                &&& h.large_tick_hits <= max_large_ticks
                &&& h.slider_end_hits <= max_slider_ends
            },
            OsuScoreOrigin::WithoutSliderAcc { max_large_ticks, max_small_ticks } => {
                &&& h.large_tick_hits <= max_large_ticks
                &&& h.small_tick_hits <= max_small_ticks
            },
        },
    ensures
        ({
            let (tick_score, tick_max) = origin.spec_tick_scores(
                h.large_tick_hits,
                h.small_tick_hits,
                h.slider_end_hits,
            );
            &&& 10 * h.accuracy_numerator(origin) == 300 * h.n300 + 100 * h.n100 + 50 * h.n50
                + tick_score
            &&& 10 * h.accuracy_denominator(origin) == 300 * h.spec_total_hits() + tick_max
        }),
{
}

} // verus!
