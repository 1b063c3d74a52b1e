use vstd::prelude::*;

use crate::attributes::OsuDifficultyAttributes;
use crate::pp::{min_int, sat_sub};
use crate::score_state::{min_u32, min_u32_exec, OsuHitResults, OsuScoreOrigin};

verus! {

/// Which hitresults to favour when they have to be made up.
#[derive(Copy, Clone, Debug, PartialEq, Eq, Structural)]
pub enum HitResultPriority {
    /// Sacrifice 300s and 100s to reduce 50s.
    BestCase,
    /// Sacrifice 50s and 100s to reduce 300s.
    WorstCase,
}

impl Default for HitResultPriority {
    fn default() -> (res: Self)
        ensures
            res == HitResultPriority::BestCase,
    {
        HitResultPriority::BestCase
    }
}

/// Everything that hitresult generation reads of a performance calculation.
#[derive(Copy, Clone, Debug, PartialEq, Eq, Structural)]
pub struct InspectOsuPerformance {
    /// The object counts of the map.
    pub attrs: OsuDifficultyAttributes,
    /// Amount of passed objects for partial plays; `None` for all.
    pub passed_objects: Option<u32>,
    /// Whether the score was set on osu!lazer.
    pub lazer: bool,
    /// Whether the mods make the score use classic slider accuracy, i.e. no
    /// slider head accuracy.
    pub using_classic_slider_acc: bool,
    pub combo: Option<u32>,
    pub large_tick_hits: Option<u32>,
    pub small_tick_hits: Option<u32>,
    pub slider_end_hits: Option<u32>,
    pub n300: Option<u32>,
    pub n100: Option<u32>,
    pub n50: Option<u32>,
    pub misses: Option<u32>,
    pub hitresult_priority: HitResultPriority,
}

/// The value of an optional amount, capped at `cap`, or `default` if absent.
pub open spec fn capped_or(v: Option<u32>, cap: int, default: int) -> int {
    match v {
        Some(x) => if x <= cap {
            x as int
        } else {
            cap
        },
        None => default,
    }
}

impl InspectOsuPerformance {
    /// The object counts fit the `u32` arithmetic of inspection: the amount
    /// of objects, and for lazer scores with classic slider accuracy the
    /// sliders plus large ticks, which such scores count together.
    pub open spec fn counts_fit(&self) -> bool {
        &&& self.attrs.spec_n_objects() <= u32::MAX
        &&& (self.lazer && self.using_classic_slider_acc) ==> self.attrs.n_sliders
            + self.attrs.n_large_ticks <= u32::MAX
    }

    /// The amount of objects that are judged: the passed objects, capped at
    /// the map's objects.
    pub open spec fn spec_total_hits(&self) -> int {
        let n = self.attrs.spec_n_objects();
        match self.passed_objects {
            Some(passed) => if passed <= n {
                passed as int
            } else {
                n
            },
            None => n,
        }
    }

    /// The misses, capped at the total hits; none if unspecified.
    pub open spec fn spec_misses(&self) -> int {
        capped_or(self.misses, self.spec_total_hits(), 0)
    }

    /// The score origin that the settings describe.
    pub open spec fn spec_origin(&self) -> OsuScoreOrigin {
        if !self.lazer {
            OsuScoreOrigin::Stable
        } else if !self.using_classic_slider_acc {
            OsuScoreOrigin::WithSliderAcc {
                max_large_ticks: self.attrs.n_large_ticks,
                max_slider_ends: self.attrs.n_sliders,
            }
        } else {
            OsuScoreOrigin::WithoutSliderAcc {
                max_large_ticks: (self.attrs.n_sliders + self.attrs.n_large_ticks) as u32,
                max_small_ticks: self.attrs.n_sliders,
            }
        }
    }

    /// Slider end hits, large tick hits and small tick hits, each capped at
    /// its maximum and defaulting to it; all zero on osu!stable.
    pub open spec fn spec_tick_hits(&self) -> (int, int, int) {
        if !self.lazer {
            (0, 0, 0)
        } else if !self.using_classic_slider_acc {
            (
                capped_or(self.slider_end_hits, self.attrs.n_sliders as int, self.attrs.n_sliders as int),
                capped_or(
                    self.large_tick_hits,
                    self.attrs.n_large_ticks as int,
                    self.attrs.n_large_ticks as int,
                ),
                0,
            )
        } else {
            let max_large = self.attrs.n_sliders + self.attrs.n_large_ticks;
            (
                0,
                capped_or(self.large_tick_hits, max_large, max_large),
                capped_or(self.small_tick_hits, self.attrs.n_sliders as int, self.attrs.n_sliders as int),
            )
        }
    }

    /// The amount of objects that are judged.
    pub fn total_hits(&self) -> (res: u32)
        requires
            self.counts_fit(),
        ensures
            res == self.spec_total_hits(),
    {
        let n = self.attrs.n_objects();
        match self.passed_objects {
            Some(passed) => min_u32_exec(passed, n),
            None => n,
        }
    }

    /// The amount of misses, capped at the total hits.
    pub fn misses(&self) -> (res: u32)
        requires
            self.counts_fit(),
        ensures
            res == self.spec_misses(),
            res <= self.spec_total_hits(),
    {
        match self.misses {
            Some(n) => min_u32_exec(n, self.total_hits()),
            None => 0,
        }
    }

    /// Whether the score was set on osu!lazer.
    pub fn lazer(&self) -> (res: bool)
        ensures
            res == self.lazer,
    {
        self.lazer
    }

    /// Whether the score uses classic slider accuracy.
    pub fn using_classic_slider_acc(&self) -> (res: bool)
        ensures
            res == self.using_classic_slider_acc,
    {
        self.using_classic_slider_acc
    }

    /// The origin of the score, with the map's slider maxima.
    pub fn origin(&self) -> (res: OsuScoreOrigin)
        requires
            self.counts_fit(),
        ensures
            res == self.spec_origin(),
    {
        if !self.lazer {
            OsuScoreOrigin::Stable
        } else if !self.using_classic_slider_acc {
            OsuScoreOrigin::WithSliderAcc {
                max_large_ticks: self.attrs.n_large_ticks,
                max_slider_ends: self.attrs.n_sliders,
            }
        } else {
            OsuScoreOrigin::WithoutSliderAcc {
                max_large_ticks: self.attrs.n_sliders + self.attrs.n_large_ticks,
                max_small_ticks: self.attrs.n_sliders,
            }
        }
    }

    /// Returns the number of slider end hits, large tick hits, and small
    /// tick hits.
    pub fn tick_hits(&self) -> (res: (u32, u32, u32))
        requires
            self.counts_fit(),
        ensures
            res.0 == self.spec_tick_hits().0,
            res.1 == self.spec_tick_hits().1,
            res.2 == self.spec_tick_hits().2,
    {
        if !self.lazer {
            (0, 0, 0)
        } else if !self.using_classic_slider_acc {
            let n_sliders = self.attrs.n_sliders;
            let n_large_ticks = self.attrs.n_large_ticks;
            let slider_end_hits = match self.slider_end_hits {
                Some(n) => min_u32_exec(n, n_sliders),
                None => n_sliders,
            };
            let large_tick_hits = match self.large_tick_hits {
                Some(n) => min_u32_exec(n, n_large_ticks),
                None => n_large_ticks,
            };
            (slider_end_hits, large_tick_hits, 0)
        } else {
            let n_sliders = self.attrs.n_sliders;
            let max_large = self.attrs.n_sliders + self.attrs.n_large_ticks;
            let small_tick_hits = match self.small_tick_hits {
                Some(n) => min_u32_exec(n, n_sliders),
                None => n_sliders,
            };
            let large_tick_hits = match self.large_tick_hits {
                Some(n) => min_u32_exec(n, max_large),
                None => max_large,
            };
            (0, large_tick_hits, small_tick_hits)
        }
    }
}

/// Distribute `remain` hits over three kinds given in priority order: each
/// specified amount is kept, capped at what is left after the kinds before
/// it; what is left then goes to the first unspecified kind, or to the
/// first kind if all are specified.
pub open spec fn distribute(
    first: Option<u32>,
    second: Option<u32>,
    third: Option<u32>,
    remain: int,
) -> (int, int, int) {
    let a = capped_or(first, remain, 0);
    let b = capped_or(second, remain - a, 0);
    let c = capped_or(third, remain - a - b, 0);
    let left = remain - a - b - c;
    if first is None {
        (left, b, c)
    } else if second is None {
        (a, left, c)
    } else if third is None {
        (a, b, left)
    } else {
        (a + left, b, c)
    }
}

/// Assign `remain` hits by [`distribute`] in the given order.
fn distribute_exec(first: Option<u32>, second: Option<u32>, third: Option<u32>, remain: u32) -> (res:
    (u32, u32, u32))
    ensures
        res.0 == distribute(first, second, third, remain as int).0,
        res.1 == distribute(first, second, third, remain as int).1,
        res.2 == distribute(first, second, third, remain as int).2,
{
    let mut remain = remain;
    let a = match first {
        Some(v) => {
            let assigned = min_u32_exec(v, remain);
            remain = remain - assigned;
            Some(assigned)
        },
        None => None,
    };
    let b = match second {
        Some(v) => {
            let assigned = min_u32_exec(v, remain);
            remain = remain - assigned;
            Some(assigned)
        },
        None => None,
    };
    let c = match third {
        Some(v) => {
            let assigned = min_u32_exec(v, remain);
            remain = remain - assigned;
            Some(assigned)
        },
        None => None,
    };
    let mut a = match a {
        Some(v) => v,
        None => {
            let left = remain;
            remain = 0;
            left
        },
    };
    let b = match b {
        Some(v) => v,
        None => {
            let left = remain;
            remain = 0;
            left
        },
    };
    let c = match c {
        Some(v) => v,
        None => {
            let left = remain;
            remain = 0;
            left
        },
    };
    if remain > 0 {
        a = a + remain;
    }
    (a, b, c)
}

/// The 300s, 100s and 50s that [`IgnoreAccuracy`] assigns: specified
/// amounts in priority order (300s first on best case, 50s first on worst
/// case), the rest to the first unspecified kind.
pub open spec fn ignore_acc_counts(inspect: InspectOsuPerformance) -> (int, int, int) {
    let remain = inspect.spec_total_hits() - inspect.spec_misses();
    match inspect.hitresult_priority {
        HitResultPriority::BestCase => distribute(inspect.n300, inspect.n100, inspect.n50, remain),
        HitResultPriority::WorstCase => {
            let (n50, n100, n300) = distribute(inspect.n50, inspect.n100, inspect.n300, remain);
            (n300, n100, n50)
        },
    }
}

/// Hitresult generation that ignores accuracy.
pub struct IgnoreAccuracy;

impl IgnoreAccuracy {
    /// Generate hitresults from the specified amounts alone.
    pub fn generate_hitresults(inspect: InspectOsuPerformance) -> (res: OsuHitResults)
        requires
            inspect.counts_fit(),
        ensures
            res.slider_end_hits == inspect.spec_tick_hits().0,
            res.large_tick_hits == inspect.spec_tick_hits().1,
            res.small_tick_hits == inspect.spec_tick_hits().2,
            res.n300 == ignore_acc_counts(inspect).0,
            res.n100 == ignore_acc_counts(inspect).1,
            res.n50 == ignore_acc_counts(inspect).2,
            res.misses == inspect.spec_misses(),
    {
        let (slider_end_hits, large_tick_hits, small_tick_hits) = inspect.tick_hits();
        let total_hits = inspect.total_hits();
        let misses = inspect.misses();
        let remain = total_hits - misses;
        let (n300, n100, n50) = match inspect.hitresult_priority {
            HitResultPriority::BestCase => distribute_exec(
                inspect.n300,
                inspect.n100,
                inspect.n50,
                remain,
            ),
            HitResultPriority::WorstCase => {
                let (n50, n100, n300) = distribute_exec(
                    inspect.n50,
                    inspect.n100,
                    inspect.n300,
                    remain,
                );
                (n300, n100, n50)
            },
        };
        OsuHitResults {
            large_tick_hits,
            small_tick_hits,
            slider_end_hits,
            n300,
            n100,
            n50,
            misses,
        }
    }
}

/// Every judged object gets exactly one judgement: without accuracy, the
/// generated 300s, 100s, 50s and misses add up to the total hits.
pub proof fn lemma_ignore_acc_total(inspect: InspectOsuPerformance)
    requires
        inspect.counts_fit(),
    ensures
        ignore_acc_counts(inspect).0 + ignore_acc_counts(inspect).1 + ignore_acc_counts(inspect).2
            + inspect.spec_misses() == inspect.spec_total_hits(),
        ignore_acc_counts(inspect).0 >= 0,
        ignore_acc_counts(inspect).1 >= 0,
        ignore_acc_counts(inspect).2 >= 0,
{
}

/// Specified amounts that fit are kept: if the specified 300s, 100s and 50s
/// together with the misses do not exceed the total hits, each is generated
/// as specified, except that when all three are specified the leftover hits
/// go to the 300s (best case) or the 50s (worst case).
pub proof fn lemma_ignore_acc_keeps_fitting(inspect: InspectOsuPerformance)
    requires
        inspect.counts_fit(),
        capped_or(inspect.n300, u32::MAX as int, 0) + capped_or(inspect.n100, u32::MAX as int, 0)
            + capped_or(inspect.n50, u32::MAX as int, 0) + inspect.spec_misses()
            <= inspect.spec_total_hits(),
    ensures
        ({
            let all = inspect.n300 is Some && inspect.n100 is Some && inspect.n50 is Some;
            let (n300, n100, n50) = ignore_acc_counts(inspect);
            &&& inspect.n100 matches Some(n) ==> n100 == n
            &&& inspect.n300 matches Some(n) ==> (n300 == n || (all
                && inspect.hitresult_priority is BestCase && n300 > n))
            &&& inspect.n50 matches Some(n) ==> (n50 == n || (all
                && inspect.hitresult_priority is WorstCase && n50 > n))
        }),
{
}

/// The best case sacrifices 50s for 300s, the worst case the opposite:
/// for the same settings, generating without accuracy on best case gives
/// at least as many 300s and at most as many 50s as on worst case.
pub proof fn lemma_ignore_acc_priority_order(inspect: InspectOsuPerformance)
    requires
        inspect.counts_fit(),
    ensures
        ({
            let best = ignore_acc_counts(
                InspectOsuPerformance { hitresult_priority: HitResultPriority::BestCase, ..inspect },
            );
            let worst = ignore_acc_counts(
                InspectOsuPerformance { hitresult_priority: HitResultPriority::WorstCase, ..inspect },
            );
            &&& best.0 >= worst.0
            &&& best.2 <= worst.2
        }),
{
}

/// An optional amount, or zero if absent.
pub open spec fn or_zero(v: Option<u32>) -> u32 {
    match v {
        Some(x) => x,
        None => 0,
    }
}

/// The 300s, 100s and 50s when at most one kind is unspecified: the
/// specified amounts are capped in the order 300s, 100s, 50s, and the
/// unspecified kind takes what remains. `None` if two or more kinds are
/// unspecified.
pub open spec fn provided_counts(
    n300: Option<u32>,
    n100: Option<u32>,
    n50: Option<u32>,
    remain: int,
) -> Option<(int, int, int)> {
    match (n300, n100, n50) {
        (Some(a), Some(b), Some(c)) => {
            let x = capped_or(Some(a), remain, 0);
            let y = capped_or(Some(b), remain - x, 0);
            let z = capped_or(Some(c), remain - x - y, 0);
            Some((x, y, z))
        },
        (Some(a), Some(b), None) => {
            let x = capped_or(Some(a), remain, 0);
            let y = capped_or(Some(b), remain - x, 0);
            Some((x, y, remain - x - y))
        },
        (Some(a), None, Some(c)) => {
            let x = capped_or(Some(a), remain, 0);
            let z = capped_or(Some(c), remain - x, 0);
            Some((x, remain - x - z, z))
        },
        (None, Some(b), Some(c)) => {
            let y = capped_or(Some(b), remain, 0);
            let z = capped_or(Some(c), remain - y, 0);
            Some((remain - y - z, y, z))
        },
        _ => None,
    }
}

/// Hitresults for when at most one of the 300s, 100s and 50s is
/// unspecified, shared by the accuracy-based generators.
pub fn clamp_provided(n300: Option<u32>, n100: Option<u32>, n50: Option<u32>, remain: u32) -> (res:
    Option<(u32, u32, u32)>)
    ensures
        res is Some <==> provided_counts(n300, n100, n50, remain as int) is Some,
        res matches Some(r) ==> ({
            let p = provided_counts(n300, n100, n50, remain as int).unwrap();
            &&& r.0 == p.0
            &&& r.1 == p.1
            &&& r.2 == p.2
        }),
{
    match (n300, n100, n50) {
        (Some(n300), Some(n100), Some(n50)) => {
            let n300 = min_u32_exec(n300, remain);
            let n100 = min_u32_exec(n100, remain - n300);
            let n50 = min_u32_exec(n50, remain - n300 - n100);
            Some((n300, n100, n50))
        },
        (Some(n300), Some(n100), None) => {
            let n300 = min_u32_exec(n300, remain);
            let n100 = min_u32_exec(n100, remain - n300);
            Some((n300, n100, remain - n300 - n100))
        },
        (Some(n300), None, Some(n50)) => {
            let n300 = min_u32_exec(n300, remain);
            let n50 = min_u32_exec(n50, remain - n300);
            Some((n300, remain - n300 - n50, n50))
        },
        (None, Some(n100), Some(n50)) => {
            let n100 = min_u32_exec(n100, remain);
            let n50 = min_u32_exec(n50, remain - n100);
            Some((remain - n100 - n50, n100, n50))
        },
        _ => None,
    }
}

/// The 300s, 100s and 50s that [`Fast`] assigns when two or more kinds are
/// unspecified. With accuracy as `(6*n300 + 2*n100 + n50 + tick_score/50)`
/// over `(6*total_hits + tick_max/50)`, `target_total` is the rounded
/// numerator that the accuracy asks for; starting from all 50s, `delta` is
/// what the 300s (5 each) and 100s (1 each) have to add. A specified kind is
/// kept (capped to the judged objects) and the others share what is left.
pub open spec fn fast_estimate(
    n300: Option<u32>,
    n100: Option<u32>,
    n50: Option<u32>,
    remain: int,
    tick_score: int,
    target_total: int,
) -> (int, int, int) {
    let baseline = remain + tick_score / 50;
    let delta = if target_total >= baseline {
        target_total - baseline
    } else {
        0
    };
    match (n300, n100, n50) {
        (Some(a), _, _) => {
            let x = capped_or(Some(a), remain, 0);
            let y = min_int(sat_sub(delta, 5 * x), remain - x);
            (x, y, remain - x - y)
        },
        (None, Some(b), _) => {
            let y = capped_or(Some(b), remain, 0);
            let x = min_int(sat_sub(delta, y) / 5, remain - y);
            (x, y, remain - x - y)
        },
        (None, None, Some(c)) => {
            // The others are 300s or 100s: starting from all 100s, each 300
            // adds 4.
            let z = capped_or(Some(c), remain, 0);
            let x = min_int(sat_sub(delta, remain - z) / 4, remain - z);
            (x, remain - z - x, z)
        },
        (None, None, None) => {
            let x = min_int(delta / 5, remain);
            let y = min_int(delta % 5, remain - x);
            (x, y, remain - x - y)
        },
    }
}

/// The tick hits that [`Fast`] weighs, capped to their maxima as the
/// accuracy reads them.
pub open spec fn fast_tick_hits(inspect: InspectOsuPerformance) -> (u32, u32, u32) {
    inspect.spec_origin().spec_capped_tick_hits(
        or_zero(inspect.large_tick_hits),
        or_zero(inspect.small_tick_hits),
        or_zero(inspect.slider_end_hits),
    )
}

/// The tick score that [`Fast`] estimates with.
pub open spec fn fast_tick_score(inspect: InspectOsuPerformance) -> int {
    let (large, small, ends) = fast_tick_hits(inspect);
    inspect.spec_origin().spec_tick_scores(large, small, ends).0
}

/// The 300s, 100s and 50s that [`Fast`] generates from an accuracy whose
/// rounded target is `target_total`.
pub open spec fn fast_counts(inspect: InspectOsuPerformance, target_total: int) -> (int, int, int) {
    let remain = inspect.spec_total_hits() - inspect.spec_misses();
    let tick_score = fast_tick_score(inspect);
    if remain == 0 {
        (0, 0, 0)
    } else {
        match provided_counts(inspect.n300, inspect.n100, inspect.n50, remain) {
            Some(p) => p,
            None => fast_estimate(
                inspect.n300,
                inspect.n100,
                inspect.n50,
                remain,
                tick_score,
                target_total,
            ),
        }
    }
}

/// Whether the `u32` arithmetic of [`Fast`] stays in range for the
/// accuracy target `target_total`: the tick score is only computed with a
/// target and judged objects left, and the all-50s baseline only when the
/// 300s, 100s and 50s are estimated.
pub open spec fn fast_fits(inspect: InspectOsuPerformance, target_total: Option<u32>) -> bool {
    let remain = inspect.spec_total_hits() - inspect.spec_misses();
    let (large, small, ends) = fast_tick_hits(inspect);
    &&& inspect.counts_fit()
    &&& (target_total is Some && remain > 0) ==> {
        &&& inspect.spec_origin().tick_scores_fit(large, small, ends)
        &&& provided_counts(inspect.n300, inspect.n100, inspect.n50, remain) is None ==> remain
            + fast_tick_score(inspect) / 50 <= u32::MAX
    }
}

/// The estimate of [`fast_estimate`].
fn fast_estimate_exec(
    n300: Option<u32>,
    n100: Option<u32>,
    n50: Option<u32>,
    remain: u32,
    tick_score: u32,
    target_total: u32,
) -> (res: (u32, u32, u32))
    requires
        remain + tick_score / 50 <= u32::MAX,
    ensures
        res.0 == fast_estimate(n300, n100, n50, remain as int, tick_score as int, target_total as int).0,
        res.1 == fast_estimate(n300, n100, n50, remain as int, tick_score as int, target_total as int).1,
        res.2 == fast_estimate(n300, n100, n50, remain as int, tick_score as int, target_total as int).2,
{
    let baseline = remain + tick_score / 50;
    let delta = if target_total >= baseline {
        target_total - baseline
    } else {
        0
    };
    match (n300, n100, n50) {
        (Some(n300), _, _) => {
            let n300 = min_u32_exec(n300, remain);
            // Each 300 spends 5 of `delta`; what is left goes to 100s.
            let spare = if delta / 5 >= n300 {
                delta - 5 * n300
            } else {
                0
            };
            let n100 = min_u32_exec(spare, remain - n300);
            (n300, n100, remain - n300 - n100)
        },
        (None, Some(n100), _) => {
            let n100 = min_u32_exec(n100, remain);
            let spare = if delta >= n100 {
                delta - n100
            } else {
                0
            };
            let n300 = min_u32_exec(spare / 5, remain - n100);
            (n300, n100, remain - n300 - n100)
        },
        (None, None, Some(n50)) => {
            let n50 = min_u32_exec(n50, remain);
            let rest = remain - n50;
            // The others are 300s or 100s: starting from all 100s, each 300
            // adds 4.
            let spare = if delta >= rest {
                delta - rest
            } else {
                0
            };
            let n300 = min_u32_exec(spare / 4, rest);
            (n300, rest - n300, n50)
        },
        (None, None, None) => {
            let n300 = min_u32_exec(delta / 5, remain);
            let n100 = min_u32_exec(delta % 5, remain - n300);
            (n300, n100, remain - n300 - n100)
        },
    }
}

/// Hitresult generation that estimates the 300s and 100s from the accuracy
/// by integer arithmetic.
pub struct Fast;

impl Fast {
    /// Generate hitresults. `target_total` is `None` if no accuracy was
    /// given, which falls back to [`IgnoreAccuracy`]; otherwise it is
    /// `round(acc * (6 * total_hits + tick_max / 50))` for the accuracy
    /// `acc` between 0 and 1.
    pub fn generate_hitresults(inspect: InspectOsuPerformance, target_total: Option<u32>) -> (res:
        OsuHitResults)
        requires
            fast_fits(inspect, target_total),
        ensures
            target_total is None ==> res == IgnoreAccuracy::spec_generate(inspect),
            target_total matches Some(t) ==> ({
                let (n300, n100, n50) = fast_counts(inspect, t as int);
                &&& res.large_tick_hits == or_zero(inspect.large_tick_hits)
                &&& res.small_tick_hits == or_zero(inspect.small_tick_hits)
                &&& res.slider_end_hits == or_zero(inspect.slider_end_hits)
                &&& res.n300 == n300
                &&& res.n100 == n100
                &&& res.n50 == n50
                &&& res.misses == inspect.spec_misses()
            }),
    {
        let target_total = match target_total {
            Some(t) => t,
            None => return IgnoreAccuracy::generate_hitresults(inspect),
        };
        let large_tick_hits = match inspect.large_tick_hits {
            Some(n) => n,
            None => 0,
        };
        let small_tick_hits = match inspect.small_tick_hits {
            Some(n) => n,
            None => 0,
        };
        let slider_end_hits = match inspect.slider_end_hits {
            Some(n) => n,
            None => 0,
        };
        let total_hits = inspect.total_hits();
        let misses = inspect.misses();
        let remain = total_hits - misses;
        let origin = inspect.origin();
        if remain == 0 {
            return OsuHitResults {
                large_tick_hits,
                small_tick_hits,
                slider_end_hits,
                n300: 0,
                n100: 0,
                n50: 0,
                misses,
            };
        }
        // The accuracy counts tick hits only up to their maxima.
        let (large, small, ends) = origin.capped_tick_hits(
            large_tick_hits,
            small_tick_hits,
            slider_end_hits,
        );
        let (tick_score, _tick_max) = origin.tick_scores(large, small, ends);
        let (n300, n100, n50) = match clamp_provided(inspect.n300, inspect.n100, inspect.n50, remain) {
            Some(counts) => counts,
            None => fast_estimate_exec(
                inspect.n300,
                inspect.n100,
                inspect.n50,
                remain,
                tick_score,
                target_total,
            ),
        };
        OsuHitResults {
            large_tick_hits,
            small_tick_hits,
            slider_end_hits,
            n300,
            n100,
            n50,
            misses,
        }
    }
}

/// The tick score and tick maximum of `origin`, widened so that they cannot
/// overflow.
fn wide_tick_scores(origin: OsuScoreOrigin, large: u32, small: u32, ends: u32) -> (res: (u64, u64))
    ensures
        res.0 == origin.spec_tick_scores(large, small, ends).0,
        res.1 == origin.spec_tick_scores(large, small, ends).1,
{
    let (large, small, ends) = (large as u64, small as u64, ends as u64);
    match origin {
        OsuScoreOrigin::Stable => (0, 0),
        OsuScoreOrigin::WithSliderAcc { max_large_ticks, max_slider_ends } => (
            150 * ends + 30 * large,
            150 * (max_slider_ends as u64) + 30 * (max_large_ticks as u64),
        ),
        OsuScoreOrigin::WithoutSliderAcc { max_large_ticks, max_small_ticks } => (
            30 * large + 10 * small,
            30 * (max_large_ticks as u64) + 10 * (max_small_ticks as u64),
        ),
    }
}

impl Fast {
    /// Whether [`Fast::generate_hitresults`] can run on `inspect` with the
    /// accuracy target `target_total`: its `u32` arithmetic stays in range.
    pub fn fits(inspect: &InspectOsuPerformance, target_total: Option<u32>) -> (res: bool)
        ensures
            res == fast_fits(*inspect, target_total),
    {
        let max = u32::MAX as u64;
        let attrs = &inspect.attrs;
        let n_objects = attrs.n_circles as u64 + attrs.n_sliders as u64 + attrs.n_spinners as u64;
        if !(n_objects <= max && (!(inspect.lazer && inspect.using_classic_slider_acc)
            || attrs.n_sliders as u64 + attrs.n_large_ticks as u64 <= max)) {
            return false;
        }
        let remain = inspect.total_hits() - inspect.misses();
        if target_total.is_none() || remain == 0 {
            return true;
        }
        let origin = inspect.origin();
        let large = match inspect.large_tick_hits {
            Some(n) => n,
            None => 0,
        };
        let small = match inspect.small_tick_hits {
            Some(n) => n,
            None => 0,
        };
        let ends = match inspect.slider_end_hits {
            Some(n) => n,
            None => 0,
        };
        let (large, small, ends) = origin.capped_tick_hits(large, small, ends);
        let (tick_score, tick_max) = wide_tick_scores(origin, large, small, ends);
        let estimated = clamp_provided(inspect.n300, inspect.n100, inspect.n50, remain).is_none();
        tick_score <= max && tick_max <= max && (!estimated || remain as u64 + tick_score / 50
            <= max)
    }
}

impl IgnoreAccuracy {
    /// The hitresults that [`IgnoreAccuracy::generate_hitresults`] returns.
    pub open spec fn spec_generate(inspect: InspectOsuPerformance) -> OsuHitResults {
        OsuHitResults {
            large_tick_hits: inspect.spec_tick_hits().1 as u32,
            small_tick_hits: inspect.spec_tick_hits().2 as u32,
            slider_end_hits: inspect.spec_tick_hits().0 as u32,
            n300: ignore_acc_counts(inspect).0 as u32,
            n100: ignore_acc_counts(inspect).1 as u32,
            n50: ignore_acc_counts(inspect).2 as u32,
            misses: inspect.spec_misses() as u32,
        }
    }
}

/// Every estimate of [`fast_estimate`] is made of amounts between zero and
/// the judged objects that add up to them.
pub proof fn lemma_fast_estimate_total(
    n300: Option<u32>,
    n100: Option<u32>,
    n50: Option<u32>,
    remain: int,
    tick_score: int,
    target_total: int,
)
    requires
        remain >= 0,
    ensures
        ({
            let (x, y, z) = fast_estimate(n300, n100, n50, remain, tick_score, target_total);
            &&& x >= 0 && y >= 0 && z >= 0
            &&& x + y + z == remain
        }),
{
    let baseline = remain + tick_score / 50;
    let delta = if target_total >= baseline {
        target_total - baseline
    } else {
        0
    };
    assert(delta / 5 >= 0 && delta % 5 >= 0) by (nonlinear_arith)
        requires
            delta >= 0,
    ;
    match (n300, n100, n50) {
        (Some(a), _, _) => {
            let x = capped_or(Some(a), remain, 0);
            assert(0 <= x <= remain);
        },
        (None, Some(b), _) => {
            let y = capped_or(Some(b), remain, 0);
            let sp = sat_sub(delta, y);
            assert(sp / 5 >= 0) by (nonlinear_arith)
                requires
                    sp >= 0,
            ;
            assert(0 <= y <= remain);
        },
        (None, None, Some(c)) => {
            let z = capped_or(Some(c), remain, 0);
            let sp = sat_sub(delta, remain - z);
            assert(sp / 4 >= 0) by (nonlinear_arith)
                requires
                    sp >= 0,
            ;
            assert(0 <= z <= remain);
        },
        (None, None, None) => {},
    }
}

/// The estimate of [`fast_estimate`] needs no capping: the target lies
/// above the all-50s baseline, a specified amount fits the judged objects,
/// and the amounts that the target asks for fit what is left.
pub open spec fn fast_uncapped(
    n300: Option<u32>,
    n100: Option<u32>,
    n50: Option<u32>,
    remain: int,
    tick_score: int,
    target_total: int,
) -> bool {
    let delta = target_total - (remain + tick_score / 50);
    &&& delta >= 0
    &&& match (n300, n100, n50) {
        (Some(a), _, _) => a <= remain && 5 * a <= delta && delta - 5 * a <= remain - a,
        (None, Some(b), _) => b <= remain && b <= delta && (delta - b) / 5 <= remain - b,
        (None, None, Some(c)) => c <= remain && remain - c <= delta && (delta - (remain - c)) / 4
            <= remain - c,
        (None, None, None) => delta / 5 + delta % 5 <= remain,
    }
}

/// Where the estimate needs no capping, Fast meets the accuracy target
/// `6*n300 + 2*n100 + n50 + tick_score/50 == target_total`: exactly when the
/// 300s are specified or nothing is, and short of it by less than what one
/// 300 adds (5 over a 50, 4 over a 100) when only the 100s or only the 50s
/// are specified.
pub proof fn lemma_fast_meets_target(
    n300: Option<u32>,
    n100: Option<u32>,
    n50: Option<u32>,
    remain: int,
    tick_score: int,
    target_total: int,
)
    requires
        remain >= 0,
        tick_score >= 0,
        fast_uncapped(n300, n100, n50, remain, tick_score, target_total),
    ensures
        ({
            let (x, y, z) = fast_estimate(n300, n100, n50, remain, tick_score, target_total);
            let score = 6 * x + 2 * y + z + tick_score / 50;
            &&& (n300 is Some || (n100 is None && n50 is None)) ==> score == target_total
            &&& (n300 is None && n100 is Some) ==> 0 <= target_total - score < 5
            &&& (n300 is None && n100 is None && n50 is Some) ==> 0 <= target_total - score < 4
        }),
{
    let delta = target_total - (remain + tick_score / 50);
    match (n300, n100, n50) {
        (Some(a), _, _) => {},
        (None, Some(b), _) => {
            let d = delta - b;
            assert(5 * (d / 5) + d % 5 == d && 0 <= d % 5 < 5) by (nonlinear_arith)
                requires
                    d >= 0,
            ;
        },
        (None, None, Some(c)) => {
            let d = delta - (remain - c);
            assert(4 * (d / 4) + d % 4 == d && 0 <= d % 4 < 4) by (nonlinear_arith)
                requires
                    d >= 0,
            ;
        },
        (None, None, None) => {
            assert(5 * (delta / 5) + delta % 5 == delta && 0 <= delta % 5 < 5) by (nonlinear_arith)
                requires
                    delta >= 0,
            ;
        },
    }
}

/// Fast assigns every judged object exactly once, unless all three kinds
/// are specified: then the amounts are only capped, so they may fall short
/// of the judged objects.
pub proof fn lemma_fast_total(inspect: InspectOsuPerformance, target_total: int)
    requires
        inspect.counts_fit(),
    ensures
        ({
            let (n300, n100, n50) = fast_counts(inspect, target_total);
            let remain = inspect.spec_total_hits() - inspect.spec_misses();
            let all = inspect.n300 is Some && inspect.n100 is Some && inspect.n50 is Some;
            &&& n300 >= 0 && n100 >= 0 && n50 >= 0
            &&& (remain > 0 && !all) ==> n300 + n100 + n50 == remain
            &&& (remain > 0 && all) ==> n300 + n100 + n50 <= remain
            &&& remain == 0 ==> n300 + n100 + n50 == 0
        }),
{
    let remain = inspect.spec_total_hits() - inspect.spec_misses();
    let tick_score = fast_tick_score(inspect);
    lemma_fast_estimate_total(
        inspect.n300,
        inspect.n100,
        inspect.n50,
        remain,
        tick_score,
        target_total,
    );
}

/// Specified amounts that fit are kept: if the specified 300s, 100s and
/// 50s together with the misses do not exceed the total hits, Fast
/// generates each of them as specified.
pub proof fn lemma_fast_keeps_fitting(inspect: InspectOsuPerformance, target_total: int)
    requires
        inspect.counts_fit(),
        capped_or(inspect.n300, u32::MAX as int, 0) + capped_or(inspect.n100, u32::MAX as int, 0)
            + capped_or(inspect.n50, u32::MAX as int, 0) + inspect.spec_misses()
            <= inspect.spec_total_hits(),
    ensures
        ({
            let (n300, n100, n50) = fast_counts(inspect, target_total);
            &&& inspect.n300 matches Some(n) ==> n300 == n
            &&& inspect.n100 matches Some(n) ==> n100 == n
            &&& inspect.n50 matches Some(n) ==> n50 == n
        }),
{
}

/// Without accuracy and with specified amounts that fit, each specified
/// amount is generated as given, and the judged objects that they and the
/// misses leave go to one kind: on best case to the 300s unless specified,
/// else to the 100s unless specified, else to the 50s unless specified,
/// else to the 300s; on worst case to the 50s, 100s and 300s in that order,
/// else to the 50s.
pub proof fn lemma_ignore_acc_leftover(inspect: InspectOsuPerformance)
    requires
        inspect.counts_fit(),
        capped_or(inspect.n300, u32::MAX as int, 0) + capped_or(inspect.n100, u32::MAX as int, 0)
            + capped_or(inspect.n50, u32::MAX as int, 0) + inspect.spec_misses()
            <= inspect.spec_total_hits(),
    ensures
        ({
            let (x, y, z) = ignore_acc_counts(inspect);
            let a = or_zero(inspect.n300) as int;
            let b = or_zero(inspect.n100) as int;
            let c = or_zero(inspect.n50) as int;
            let left = inspect.spec_total_hits() - inspect.spec_misses() - a - b - c;
            let all = inspect.n300 is Some && inspect.n100 is Some && inspect.n50 is Some;
            let best = inspect.hitresult_priority is BestCase;
            let to300 = if best {
                inspect.n300 is None || all
            } else {
                inspect.n50 is Some && inspect.n100 is Some && inspect.n300 is None
            };
            let to100 = if best {
                inspect.n300 is Some && inspect.n100 is None
            } else {
                inspect.n50 is Some && inspect.n100 is None
            };
            let to50 = if best {
                inspect.n300 is Some && inspect.n100 is Some && inspect.n50 is None
            } else {
                inspect.n50 is None || all
            };
            &&& x == a + if to300 {
                left
            } else {
                0
            }
            &&& y == b + if to100 {
                left
            } else {
                0
            }
            &&& z == c + if to50 {
                left
            } else {
                0
            }
        }),
{
}

} // verus!
