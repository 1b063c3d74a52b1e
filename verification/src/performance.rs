use vstd::prelude::*;

use crate::attributes::OsuDifficultyAttributes;
use crate::hitresult_generator::{
    fast_counts, fast_fits, lemma_fast_total, lemma_ignore_acc_total, or_zero, provided_counts, Fast, HitResultPriority, IgnoreAccuracy,
    InspectOsuPerformance,
};
use crate::score_state::{OsuHitResults, OsuScoreState};

verus! {

/// The score settings of an osu!standard performance calculation: what is
/// known of the play, from which the hitresults are completed.
#[derive(Copy, Clone, Debug, PartialEq, Eq, Structural)]
pub struct OsuPerformance {
    /// Amount of passed objects for partial plays; `None` for all.
    pub passed_objects: Option<u32>,
    /// Whether the score was set on osu!lazer.
    pub lazer: bool,
    /// Whether the mods make the score use classic slider accuracy.
    pub using_classic_slider_acc: bool,
    pub combo: Option<u32>,
    pub large_tick_hits: Option<u32>,
    pub small_tick_hits: Option<u32>,
    pub slider_end_hits: Option<u32>,
    pub n300: Option<u32>,
    pub n100: Option<u32>,
    pub n50: Option<u32>,
    pub misses: Option<u32>,
    pub legacy_total_score: Option<u32>,
    pub hitresult_priority: HitResultPriority,
}

impl OsuPerformance {
    /// A calculation about which nothing is known yet: all objects passed,
    /// an osu!lazer score with slider head accuracy, best case priority.
    pub fn new() -> (res: Self)
        ensures
            res == Self::spec_new(),
    {
        OsuPerformance {
            passed_objects: None,
            lazer: true,
            using_classic_slider_acc: false,
            combo: None,
            large_tick_hits: None,
            small_tick_hits: None,
            slider_end_hits: None,
            n300: None,
            n100: None,
            n50: None,
            misses: None,
            legacy_total_score: None,
            hitresult_priority: HitResultPriority::BestCase,
        }
    }

    /// The value of [`Self::new`].
    pub open spec fn spec_new() -> Self {
        OsuPerformance {
            passed_objects: None,
            lazer: true,
            using_classic_slider_acc: false,
            combo: None,
            large_tick_hits: None,
            small_tick_hits: None,
            slider_end_hits: None,
            n300: None,
            n100: None,
            n50: None,
            misses: None,
            legacy_total_score: None,
            hitresult_priority: HitResultPriority::BestCase,
        }
    }

    /// Specify the max combo of the play.
    pub fn combo(self, combo: u32) -> (res: Self)
        ensures
            res == (OsuPerformance { combo: Some(combo), ..self }),
    {
        OsuPerformance { combo: Some(combo), ..self }
    }

    /// Specify the priority of hitresults: `BestCase` sacrifices 300s and
    /// 100s to reduce 50s, `WorstCase` does the opposite.
    pub fn hitresult_priority(self, priority: HitResultPriority) -> (res: Self)
        ensures
            res == (OsuPerformance { hitresult_priority: priority, ..self }),
    {
        OsuPerformance { hitresult_priority: priority, ..self }
    }

    /// Whether the score was set on osu!lazer (the default) or on
    /// osu!stable; lazer considers slider heads for accuracy.
    pub fn lazer(self, lazer: bool) -> (res: Self)
        ensures
            res == (OsuPerformance { lazer, ..self }),
    {
        OsuPerformance { lazer, ..self }
    }

    /// Whether the mods make the score use classic slider accuracy.
    pub fn using_classic_slider_acc(self, using_classic_slider_acc: bool) -> (res: Self)
        ensures
            res == (OsuPerformance { using_classic_slider_acc, ..self }),
    {
        OsuPerformance { using_classic_slider_acc, ..self }
    }

    /// Specify the amount of "large tick" hits.
    pub fn large_tick_hits(self, large_tick_hits: u32) -> (res: Self)
        ensures
            res == (OsuPerformance { large_tick_hits: Some(large_tick_hits), ..self }),
    {
        OsuPerformance { large_tick_hits: Some(large_tick_hits), ..self }
    }

    /// Specify the amount of "small tick" hits.
    pub fn small_tick_hits(self, small_tick_hits: u32) -> (res: Self)
        ensures
            res == (OsuPerformance { small_tick_hits: Some(small_tick_hits), ..self }),
    {
        OsuPerformance { small_tick_hits: Some(small_tick_hits), ..self }
    }

    /// Specify the amount of hit slider ends.
    pub fn slider_end_hits(self, slider_end_hits: u32) -> (res: Self)
        ensures
            res == (OsuPerformance { slider_end_hits: Some(slider_end_hits), ..self }),
    {
        OsuPerformance { slider_end_hits: Some(slider_end_hits), ..self }
    }

    /// Specify the amount of 300s of a play.
    pub fn n300(self, n300: u32) -> (res: Self)
        ensures
            res == (OsuPerformance { n300: Some(n300), ..self }),
    {
        OsuPerformance { n300: Some(n300), ..self }
    }

    /// Specify the amount of 100s of a play.
    pub fn n100(self, n100: u32) -> (res: Self)
        ensures
            res == (OsuPerformance { n100: Some(n100), ..self }),
    {
        OsuPerformance { n100: Some(n100), ..self }
    }

    /// Specify the amount of 50s of a play.
    pub fn n50(self, n50: u32) -> (res: Self)
        ensures
            res == (OsuPerformance { n50: Some(n50), ..self }),
    {
        OsuPerformance { n50: Some(n50), ..self }
    }

    /// Specify the amount of misses of a play.
    pub fn misses(self, n_misses: u32) -> (res: Self)
        ensures
            res == (OsuPerformance { misses: Some(n_misses), ..self }),
    {
        OsuPerformance { misses: Some(n_misses), ..self }
    }

    /// Amount of passed objects for partial plays, e.g. a fail.
    pub fn passed_objects(self, passed_objects: u32) -> (res: Self)
        ensures
            res == (OsuPerformance { passed_objects: Some(passed_objects), ..self }),
    {
        OsuPerformance { passed_objects: Some(passed_objects), ..self }
    }

    /// Specify the legacy total score.
    pub fn legacy_total_score(self, legacy_total_score: u32) -> (res: Self)
        ensures
            res == (OsuPerformance { legacy_total_score: Some(legacy_total_score), ..self }),
    {
        OsuPerformance { legacy_total_score: Some(legacy_total_score), ..self }
    }

    /// The settings with all hitresults taken from `hitresults`.
    pub open spec fn with_hitresults(self, h: OsuHitResults) -> Self {
        OsuPerformance {
            large_tick_hits: Some(h.large_tick_hits),
            small_tick_hits: Some(h.small_tick_hits),
            slider_end_hits: Some(h.slider_end_hits),
            n300: Some(h.n300),
            n100: Some(h.n100),
            n50: Some(h.n50),
            misses: Some(h.misses),
            ..self
        }
    }

    /// Provide parameters through [`OsuHitResults`].
    pub fn hitresults(self, hitresults: OsuHitResults) -> (res: Self)
        ensures
            res == self.with_hitresults(hitresults),
    {
        OsuPerformance {
            large_tick_hits: Some(hitresults.large_tick_hits),
            small_tick_hits: Some(hitresults.small_tick_hits),
            slider_end_hits: Some(hitresults.slider_end_hits),
            n300: Some(hitresults.n300),
            n100: Some(hitresults.n100),
            n50: Some(hitresults.n50),
            misses: Some(hitresults.misses),
            ..self
        }
    }

    /// Provide parameters through an [`OsuScoreState`].
    pub fn state(self, state: OsuScoreState) -> (res: Self)
        ensures
            res == (OsuPerformance {
                combo: Some(state.max_combo),
                legacy_total_score: state.legacy_total_score,
                ..self
            }).with_hitresults(state.hitresults),
    {
        let with_combo = OsuPerformance {
            combo: Some(state.max_combo),
            legacy_total_score: state.legacy_total_score,
            ..self
        };
        with_combo.hitresults(state.hitresults)
    }

    /// What hitresult generation sees of these settings on a map with the
    /// counts `attrs`.
    pub open spec fn spec_inspect(&self, attrs: OsuDifficultyAttributes) -> InspectOsuPerformance {
        InspectOsuPerformance {
            attrs,
            passed_objects: self.passed_objects,
            lazer: self.lazer,
            using_classic_slider_acc: self.using_classic_slider_acc,
            combo: self.combo,
            large_tick_hits: self.large_tick_hits,
            small_tick_hits: self.small_tick_hits,
            slider_end_hits: self.slider_end_hits,
            n300: self.n300,
            n100: self.n100,
            n50: self.n50,
            misses: self.misses,
            hitresult_priority: self.hitresult_priority,
        }
    }

    /// Expose the settings to hitresult generation.
    pub fn inspect(&self, attrs: OsuDifficultyAttributes) -> (res: InspectOsuPerformance)
        ensures
            res == self.spec_inspect(attrs),
    {
        InspectOsuPerformance {
            attrs,
            passed_objects: self.passed_objects,
            lazer: self.lazer,
            using_classic_slider_acc: self.using_classic_slider_acc,
            combo: self.combo,
            large_tick_hits: self.large_tick_hits,
            small_tick_hits: self.small_tick_hits,
            slider_end_hits: self.slider_end_hits,
            n300: self.n300,
            n100: self.n100,
            n50: self.n50,
            misses: self.misses,
            hitresult_priority: self.hitresult_priority,
        }
    }

    /// The generated hitresults after the judged objects that they leave
    /// out were added to the first unspecified kind in priority order (the
    /// 300s, or the 50s on worst case, if all are specified).
    pub open spec fn spec_fill(&self, total_hits: int, h: OsuHitResults) -> OsuHitResults {
        let remain = if total_hits >= h.spec_total_hits() {
            total_hits - h.spec_total_hits()
        } else {
            0
        };
        match self.hitresult_priority {
            HitResultPriority::BestCase => if self.n300 is None {
                OsuHitResults { n300: (h.n300 + remain) as u32, ..h }
            } else if self.n100 is None {
                OsuHitResults { n100: (h.n100 + remain) as u32, ..h }
            } else if self.n50 is None {
                OsuHitResults { n50: (h.n50 + remain) as u32, ..h }
            } else {
                OsuHitResults { n300: (h.n300 + remain) as u32, ..h }
            },
            HitResultPriority::WorstCase => if self.n50 is None {
                OsuHitResults { n50: (h.n50 + remain) as u32, ..h }
            } else if self.n100 is None {
                OsuHitResults { n100: (h.n100 + remain) as u32, ..h }
            } else if self.n300 is None {
                OsuHitResults { n300: (h.n300 + remain) as u32, ..h }
            } else {
                OsuHitResults { n50: (h.n50 + remain) as u32, ..h }
            },
        }
    }

    /// The maximum combo of the play: the specified combo, capped at the
    /// map's maximum combo minus the misses.
    pub open spec fn spec_max_combo(&self, attrs: OsuDifficultyAttributes) -> u32 {
        let misses = self.spec_inspect(attrs).spec_misses();
        let max_possible = if attrs.max_combo >= misses {
            attrs.max_combo - misses
        } else {
            0
        };
        match self.combo {
            Some(combo) => if combo <= max_possible {
                combo
            } else {
                max_possible as u32
            },
            None => max_possible as u32,
        }
    }

    /// The score state made of generated hitresults `h`.
    pub open spec fn spec_state(&self, attrs: OsuDifficultyAttributes, h: OsuHitResults) -> OsuScoreState {
        OsuScoreState {
            max_combo: self.spec_max_combo(attrs),
            hitresults: self.spec_fill(self.spec_inspect(attrs).spec_total_hits(), h),
            legacy_total_score: self.legacy_total_score,
        }
    }

    /// Complete the score state from hitresults `generated` by a hitresult
    /// generator, and fix all settings to it.
    pub fn generate_state_with(&mut self, attrs: OsuDifficultyAttributes, generated: OsuHitResults) -> (res:
        OsuScoreState)
        requires
            old(self).spec_inspect(attrs).counts_fit(),
            generated.spec_total_hits() <= u32::MAX,
        ensures
            res == old(self).spec_state(attrs, generated),
            *final(self) == (OsuPerformance { combo: Some(res.max_combo), ..*old(self) }).with_hitresults(
                res.hitresults,
            ),
    {
        let inspect = self.inspect(attrs);
        let total_hits = inspect.total_hits();
        let misses = inspect.misses();
        let mut hitresults = generated;
        let generated_total = hitresults.total_hits();
        let remain = if total_hits >= generated_total {
            total_hits - generated_total
        } else {
            0
        };
        match self.hitresult_priority {
            HitResultPriority::BestCase => {
                if self.n300.is_none() {
                    hitresults.n300 = hitresults.n300 + remain;
                } else if self.n100.is_none() {
                    hitresults.n100 = hitresults.n100 + remain;
                } else if self.n50.is_none() {
                    hitresults.n50 = hitresults.n50 + remain;
                } else {
                    hitresults.n300 = hitresults.n300 + remain;
                }
            },
            HitResultPriority::WorstCase => {
                if self.n50.is_none() {
                    hitresults.n50 = hitresults.n50 + remain;
                } else if self.n100.is_none() {
                    hitresults.n100 = hitresults.n100 + remain;
                } else if self.n300.is_none() {
                    hitresults.n300 = hitresults.n300 + remain;
                } else {
                    hitresults.n50 = hitresults.n50 + remain;
                }
            },
        }
        let max_possible_combo = if attrs.max_combo >= misses {
            attrs.max_combo - misses
        } else {
            0
        };
        let max_combo = match self.combo {
            Some(combo) => if combo <= max_possible_combo {
                combo
            } else {
                max_possible_combo
            },
            None => max_possible_combo,
        };
        self.combo = Some(max_combo);
        self.slider_end_hits = Some(hitresults.slider_end_hits);
        self.large_tick_hits = Some(hitresults.large_tick_hits);
        self.small_tick_hits = Some(hitresults.small_tick_hits);
        self.n300 = Some(hitresults.n300);
        self.n100 = Some(hitresults.n100);
        self.n50 = Some(hitresults.n50);
        self.misses = Some(hitresults.misses);
        OsuScoreState { max_combo, hitresults, legacy_total_score: self.legacy_total_score }
    }

    /// The hitresults that the default generator ([`Fast`]) produces.
    pub open spec fn spec_fast(&self, attrs: OsuDifficultyAttributes, target_total: Option<u32>) -> OsuHitResults {
        let inspect = self.spec_inspect(attrs);
        match target_total {
            None => IgnoreAccuracy::spec_generate(inspect),
            Some(t) => {
                let (n300, n100, n50) = fast_counts(inspect, t as int);
                OsuHitResults {
                    large_tick_hits: or_zero(inspect.large_tick_hits),
                    small_tick_hits: or_zero(inspect.small_tick_hits),
                    slider_end_hits: or_zero(inspect.slider_end_hits),
                    n300: n300 as u32,
                    n100: n100 as u32,
                    n50: n50 as u32,
                    misses: inspect.spec_misses() as u32,
                }
            },
        }
    }

    /// Create the [`OsuScoreState`] that will be used for performance
    /// calculation, generating hitresults with [`Fast`]. `target_total` is
    /// `None` without accuracy, else the rounded accuracy target of
    /// [`Fast::generate_hitresults`].
    pub fn generate_state(&mut self, attrs: OsuDifficultyAttributes, target_total: Option<u32>) -> (res:
        OsuScoreState)
        requires
            fast_fits(old(self).spec_inspect(attrs), target_total),
        ensures
            res == old(self).spec_state(attrs, old(self).spec_fast(attrs, target_total)),
            *final(self) == (OsuPerformance { combo: Some(res.max_combo), ..*old(self) }).with_hitresults(
                res.hitresults,
            ),
    {
        let inspect = self.inspect(attrs);
        let generated = Fast::generate_hitresults(inspect, target_total);
        proof {
            lemma_fast_within_total(*self, attrs, target_total);
        }
        self.generate_state_with(attrs, generated)
    }
}

/// The completed hitresults account for every judged object whenever the
/// generator did not assign more than the judged objects: 300s, 100s, 50s
/// and misses then add up to the total hits.
pub proof fn lemma_state_covers_total(
    perf: OsuPerformance,
    attrs: OsuDifficultyAttributes,
    h: OsuHitResults,
)
    requires
        perf.spec_inspect(attrs).counts_fit(),
        h.spec_total_hits() <= perf.spec_inspect(attrs).spec_total_hits(),
    ensures
        perf.spec_state(attrs, h).hitresults.spec_total_hits() == perf.spec_inspect(
            attrs,
        ).spec_total_hits(),
{
}

/// The default generator never judges more objects than there are: its
/// 300s, 100s, 50s and misses add up to at most the total hits.
pub proof fn lemma_fast_within_total(
    perf: OsuPerformance,
    attrs: OsuDifficultyAttributes,
    target_total: Option<u32>,
)
    requires
        perf.spec_inspect(attrs).counts_fit(),
    ensures
        perf.spec_fast(attrs, target_total).spec_total_hits() <= perf.spec_inspect(
            attrs,
        ).spec_total_hits(),
{
    let inspect = perf.spec_inspect(attrs);
    match target_total {
        None => lemma_ignore_acc_total(inspect),
        Some(t) => lemma_fast_total(inspect, t as int),
    }
}

/// The maximum combo of a completed state never exceeds the map's maximum
/// combo minus the misses, nor the specified combo.
pub proof fn lemma_state_combo_bounded(perf: OsuPerformance, attrs: OsuDifficultyAttributes)
    requires
        perf.spec_inspect(attrs).counts_fit(),
    ensures
        perf.spec_max_combo(attrs) <= attrs.max_combo,
        perf.spec_inspect(attrs).spec_misses() <= attrs.max_combo ==> perf.spec_max_combo(attrs)
            + perf.spec_inspect(attrs).spec_misses() <= attrs.max_combo,
        perf.combo matches Some(c) ==> perf.spec_max_combo(attrs) <= c,
{
}

/// Generating the state a second time, from the settings that the first
/// generation fixed, gives the same state again.
pub proof fn lemma_generate_state_idempotent(
    perf: OsuPerformance,
    attrs: OsuDifficultyAttributes,
    target_total: Option<u32>,
)
    requires
        perf.spec_inspect(attrs).counts_fit(),
    ensures
        ({
            let first = perf.spec_state(attrs, perf.spec_fast(attrs, target_total));
            let again = (OsuPerformance { combo: Some(first.max_combo), ..perf }).with_hitresults(
                first.hitresults,
            );
            again.spec_state(attrs, again.spec_fast(attrs, target_total)) == first
        }),
{
    let first = perf.spec_state(attrs, perf.spec_fast(attrs, target_total));
    let again = (OsuPerformance { combo: Some(first.max_combo), ..perf }).with_hitresults(
        first.hitresults,
    );
    lemma_fast_within_total(perf, attrs, target_total);
    lemma_state_covers_total(perf, attrs, perf.spec_fast(attrs, target_total));
    let i1 = perf.spec_inspect(attrs);
    let i2 = again.spec_inspect(attrs);
    assert(i2.spec_total_hits() == i1.spec_total_hits());
    assert(i2.spec_misses() == i1.spec_misses());
    assert(again.spec_max_combo(attrs) == first.max_combo);
    let h = first.hitresults;
    let remain = i2.spec_total_hits() - i2.spec_misses();
    assert(i2.n300 == Some(h.n300) && i2.n100 == Some(h.n100) && i2.n50 == Some(h.n50));
    assert(remain == h.n300 + h.n100 + h.n50);
    assert(provided_counts(i2.n300, i2.n100, i2.n50, remain) == Some(
        (h.n300 as int, h.n100 as int, h.n50 as int),
    ));
    if let Some(t) = target_total {
        assert(fast_counts(i2, t as int) == (h.n300 as int, h.n100 as int, h.n50 as int));
    }
    assert(again.spec_fast(attrs, target_total) == first.hitresults);
}

/// Settings that hold a complete score state give that state back: when its
/// 300s, 100s, 50s and misses add up to the judged objects, its tick hits
/// are those that the score's origin keeps, and its combo leaves room for
/// the misses within the map's maximum combo, generating the state of
/// [`OsuPerformance::state`] returns it unchanged.
pub proof fn lemma_state_round_trip(
    perf: OsuPerformance,
    attrs: OsuDifficultyAttributes,
    s: OsuScoreState,
    target_total: Option<u32>,
)
    requires
        ({
            let p = (OsuPerformance {
                combo: Some(s.max_combo),
                legacy_total_score: s.legacy_total_score,
                ..perf
            }).with_hitresults(s.hitresults);
            let i = p.spec_inspect(attrs);
            &&& i.counts_fit()
            &&& s.hitresults.spec_total_hits() == i.spec_total_hits()
            &&& i.spec_tick_hits() == (
                s.hitresults.slider_end_hits as int,
                s.hitresults.large_tick_hits as int,
                s.hitresults.small_tick_hits as int,
            )
            &&& s.max_combo + s.hitresults.misses <= attrs.max_combo
        }),
    ensures
        ({
            let p = (OsuPerformance {
                combo: Some(s.max_combo),
                legacy_total_score: s.legacy_total_score,
                ..perf
            }).with_hitresults(s.hitresults);
            p.spec_state(attrs, p.spec_fast(attrs, target_total)) == s
        }),
{
    let p = (OsuPerformance {
        combo: Some(s.max_combo),
        legacy_total_score: s.legacy_total_score,
        ..perf
    }).with_hitresults(s.hitresults);
    let i = p.spec_inspect(attrs);
    let h = s.hitresults;
    let remain = i.spec_total_hits() - i.spec_misses();
    assert(i.spec_misses() == h.misses);
    assert(remain == h.n300 + h.n100 + h.n50);
    assert(provided_counts(i.n300, i.n100, i.n50, remain) == Some(
        (h.n300 as int, h.n100 as int, h.n50 as int),
    ));
    if let Some(t) = target_total {
        assert(fast_counts(i, t as int) == (h.n300 as int, h.n100 as int, h.n50 as int));
    }
    assert(p.spec_fast(attrs, target_total) == h);
    assert(p.spec_max_combo(attrs) == s.max_combo);
}

/// Completing generated hitresults adds the judged objects that they leave
/// out to one kind, chosen by priority: on best case to the 300s unless
/// given, else to the 100s unless given, else to the 50s unless given, else
/// to the 300s; on worst case to the 50s, 100s and 300s in that order, else
/// to the 50s. The other kinds, the misses and the tick hits stay as
/// generated.
pub proof fn lemma_fill_priority(perf: OsuPerformance, attrs: OsuDifficultyAttributes, h: OsuHitResults)
    requires
        perf.spec_inspect(attrs).counts_fit(),
        h.spec_total_hits() <= perf.spec_inspect(attrs).spec_total_hits(),
    ensures
        ({
            let f = perf.spec_state(attrs, h).hitresults;
            let left = perf.spec_inspect(attrs).spec_total_hits() - h.spec_total_hits();
            let all = perf.n300 is Some && perf.n100 is Some && perf.n50 is Some;
            let best = perf.hitresult_priority is BestCase;
            let to300 = if best {
                perf.n300 is None || all
            } else {
                perf.n50 is Some && perf.n100 is Some && perf.n300 is None
            };
            let to100 = if best {
                perf.n300 is Some && perf.n100 is None
            } else {
                perf.n50 is Some && perf.n100 is None
            };
            let to50 = if best {
                perf.n300 is Some && perf.n100 is Some && perf.n50 is None
            } else {
                perf.n50 is None || all
            };
            &&& f.n300 == h.n300 + if to300 {
                left
            } else {
                0
            }
            &&& f.n100 == h.n100 + if to100 {
                left
            } else {
                0
            }
            &&& f.n50 == h.n50 + if to50 {
                left
            } else {
                0
            }
            &&& f.misses == h.misses
            &&& f.large_tick_hits == h.large_tick_hits
            &&& f.small_tick_hits == h.small_tick_hits
            &&& f.slider_end_hits == h.slider_end_hits
        }),
{
}

} // verus!
