use vstd::prelude::*;

use crate::hitresult_generator::HitResultPriority;

verus! {

/// The score state of the performance calculator [`OsuPP`].
#[derive(Copy, Clone, Debug, PartialEq, Eq, Structural)]
pub struct OsuPpScoreState {
    /// Maximum combo that the score has had so far.
    pub max_combo: usize,
    /// Amount of 300s.
    pub n300: usize,
    /// Amount of 100s.
    pub n100: usize,
    /// Amount of 50s.
    pub n50: usize,
    /// Amount of misses.
    pub n_misses: usize,
}

impl OsuPpScoreState {
    /// Return the total amount of hits by adding everything up.
    pub fn total_hits(&self) -> (res: usize)
        requires
            self.n300 + self.n100 + self.n50 + self.n_misses <= usize::MAX,
        ensures
            res == self.n300 + self.n100 + self.n50 + self.n_misses,
    {
        self.n300 + self.n100 + self.n50 + self.n_misses
    }
}

/// `a - b`, or zero if `b` is larger.
pub open spec fn sat_sub(a: int, b: int) -> int {
    if a >= b {
        a - b
    } else {
        0
    }
}

/// The smaller of two integers.
pub open spec fn min_int(a: int, b: int) -> int {
    if a <= b {
        a
    } else {
        b
    }
}

/// Counts from an accuracy target when only the 300s are given: the 100s
/// take the rest of the target above the 300s modulo 5, the 50s fill the
/// objects, then 100s and 50s are traded one for one towards the target.
pub open spec fn pp_given_300(n300: int, n_misses: int, n_objects: int, target: int) -> (int, int, int) {
    let delta = sat_sub(sat_sub(target, sat_sub(n_objects, n_misses)), n300 * 5);
    let n100 = delta % 5;
    let n50 = sat_sub(n_objects, n300 + n100 + n_misses);
    let curr = 6 * n300 + 2 * n100 + n50;
    if curr < target {
        let n = min_int(target - curr, n50);
        (n300, n100 + n, n50 - n)
    } else {
        let n = min_int(curr - target, n100);
        (n300, n100 - n, n50 + n)
    }
}

/// Counts from an accuracy target when only the 100s are given: the 300s
/// take a fifth of the target above the 100s, capped so the objects are not
/// exceeded, and the 50s fill the rest.
pub open spec fn pp_given_100(n100: int, n_misses: int, n_objects: int, target: int) -> (int, int, int) {
    let delta = sat_sub(sat_sub(target, sat_sub(n_objects, n_misses)), n100);
    let n300 = delta / 5;
    let n300 = if n300 + n100 + n_misses > n_objects {
        n300 - (n300 + n100 + n_misses - n_objects)
    } else {
        n300
    };
    (n300, n100, n_objects - n300 - n100 - n_misses)
}

/// Counts from an accuracy target when only the 50s are given: 300s and
/// 100s split the target, are cut back to the objects, the 100s fill the
/// objects, then 100s and 300s are traded four points at a time towards
/// the target.
pub open spec fn pp_given_50(n50: int, n_misses: int, n_objects: int, target: int) -> (int, int, int) {
    let delta = sat_sub(target, sat_sub(n_objects, n_misses));
    let n300 = delta / 5;
    let n100 = delta % 5;
    let sum = n300 + n100 + n50 + n_misses;
    let (n300, n100) = if sum > n_objects {
        let too_many = sum - n_objects;
        if too_many > n100 {
            (n300 - (too_many - n100), 0)
        } else {
            (n300, n100 - too_many)
        }
    } else {
        (n300, n100)
    };
    let n100 = n100 + sat_sub(n_objects, n300 + n100 + n50 + n_misses);
    let curr = 6 * n300 + 2 * n100 + n50;
    if curr < target {
        let n = min_int(n100, (target - curr) / 4);
        (n300 + n, n100 - n, n50)
    } else {
        let n = min_int(n300, (curr - target) / 4);
        (n300 - n, n100 + n, n50)
    }
}

/// Counts from an accuracy target when none is given: 300s and 100s split
/// the target, 50s fill the objects; on best case four 50s and a 300 are
/// traded for five 100s as often as possible.
pub open spec fn pp_given_none(
    n_misses: int,
    n_objects: int,
    target: int,
    priority: HitResultPriority,
) -> (int, int, int) {
    let delta = sat_sub(target, sat_sub(n_objects, n_misses));
    let n300 = delta / 5;
    let n100 = delta % 5;
    let n50 = sat_sub(n_objects, n300 + n100 + n_misses);
    if priority is BestCase {
        let n = min_int(n300, n50 / 4);
        (n300 - n, n100 + 5 * n, n50 - 4 * n)
    } else {
        (n300, n100, n50)
    }
}

/// An optional amount as an integer, or zero if absent.
pub open spec fn or_zero_usize(v: Option<usize>) -> int {
    match v {
        Some(x) => x as int,
        None => 0,
    }
}

/// The 300s, 100s and 50s that [`OsuPP`] generates for `n_objects` judged
/// objects; `target` is the rounded accuracy target
/// `round(acc * 6 * n_objects)`, if an accuracy was given.
pub open spec fn pp_counts(
    n300: Option<usize>,
    n100: Option<usize>,
    n50: Option<usize>,
    n_misses: int,
    n_objects: int,
    target: Option<usize>,
    priority: HitResultPriority,
) -> (int, int, int) {
    let a = or_zero_usize(n300);
    let b = or_zero_usize(n100);
    let c = or_zero_usize(n50);
    match target {
        Some(t) => match (n300, n100, n50) {
            (Some(_), Some(_), Some(_)) => {
                let remaining = sat_sub(n_objects, a + b + c + n_misses);
                if priority is BestCase {
                    (a + remaining, b, c)
                } else {
                    (a, b, c + remaining)
                }
            },
            (Some(_), Some(_), None) => (a, b, sat_sub(n_objects, a + b + n_misses)),
            (Some(_), None, Some(_)) => (a, sat_sub(n_objects, a + c + n_misses), c),
            (None, Some(_), Some(_)) => (sat_sub(n_objects, b + c + n_misses), b, c),
            (Some(_), None, None) => pp_given_300(a, n_misses, n_objects, t as int),
            (None, Some(_), None) => pp_given_100(b, n_misses, n_objects, t as int),
            (None, None, Some(_)) => pp_given_50(c, n_misses, n_objects, t as int),
            (None, None, None) => pp_given_none(n_misses, n_objects, t as int, priority),
        },
        None => {
            let remaining = sat_sub(n_objects, a + b + c + n_misses);
            if priority is BestCase {
                if n300 is None {
                    (remaining, b, c)
                } else if n100 is None {
                    (a, remaining, c)
                } else if n50 is None {
                    (a, b, remaining)
                } else {
                    (a + remaining, b, c)
                }
            } else {
                if n50 is None {
                    (a, b, remaining)
                } else if n100 is None {
                    (a, remaining, c)
                } else if n300 is None {
                    (remaining, b, c)
                } else {
                    (a, b, c + remaining)
                }
            }
        },
    }
}

/// Whether the `usize` arithmetic of [`OsuPP::generate_hitresults`]
/// neither overflows nor underflows.
pub open spec fn pp_fits(
    n300: Option<usize>,
    n100: Option<usize>,
    n50: Option<usize>,
    n_misses: int,
    n_objects: int,
    target: Option<usize>,
    priority: HitResultPriority,
) -> bool {
    let a = or_zero_usize(n300);
    let b = or_zero_usize(n100);
    let c = or_zero_usize(n50);
    let max = usize::MAX as int;
    &&& a + b + c + n_misses <= max
    &&& a + n_objects <= max
    &&& c + n_objects <= max
    &&& match target {
        None => true,
        Some(t) => match (n300, n100, n50) {
            (Some(_), None, None) => given_300_fits_spec(a, n_misses, n_objects, t as int),
            (None, Some(_), None) => given_100_fits_spec(b, n_misses, n_objects, t as int),
            (None, None, Some(_)) => given_50_fits_spec(c, n_misses, n_objects, t as int),
            (None, None, None) => given_none_fits_spec(n_misses, n_objects, t as int),
            _ => true,
        },
    }
}

/// The estimate from the 300s alone stays within `usize`.
pub open spec fn given_300_fits_spec(a: int, n_misses: int, n_objects: int, t: int) -> bool {
    let max = usize::MAX as int;
    let (x, y, z) = pp_given_300(a, n_misses, n_objects, t);
    let delta = sat_sub(sat_sub(t, sat_sub(n_objects, n_misses)), a * 5);
    let n50 = sat_sub(n_objects, a + delta % 5 + n_misses);
    &&& a * 5 <= max
    &&& a + 5 + n_misses <= max
    &&& 6 * a + 2 * (delta % 5) + n50 <= max
    &&& y <= max
    &&& z <= max
}

/// The estimate from the 100s alone stays within `usize`.
pub open spec fn given_100_fits_spec(b: int, n_misses: int, n_objects: int, t: int) -> bool {
    let max = usize::MAX as int;
    let delta = sat_sub(sat_sub(t, sat_sub(n_objects, n_misses)), b);
    &&& delta / 5 + b + n_misses <= max
    &&& delta / 5 + b + n_misses > n_objects ==> b + n_misses <= n_objects
}

/// The estimate from the 50s alone stays within `usize`.
pub open spec fn given_50_fits_spec(c: int, n_misses: int, n_objects: int, t: int) -> bool {
    let max = usize::MAX as int;
    let delta = sat_sub(t, sat_sub(n_objects, n_misses));
    let n300 = delta / 5;
    let n100 = delta % 5;
    let sum = n300 + n100 + c + n_misses;
    &&& sum <= max
    &&& sum > n_objects && sum - n_objects > n100 ==> n300 >= sum - n_objects - n100
    &&& 6 * n300 + 2 * (n100 + n_objects) + c <= max
    &&& n300 + n_objects <= max
}

/// The estimate without given amounts stays within `usize`.
pub open spec fn given_none_fits_spec(n_misses: int, n_objects: int, t: int) -> bool {
    let max = usize::MAX as int;
    let delta = sat_sub(t, sat_sub(n_objects, n_misses));
    &&& delta / 5 + 4 + n_misses <= max
    &&& 5 * (delta / 5) + 4 <= max
}

/// Performance calculator settings on osu!standard maps, reduced to the
/// integer settings that hitresult generation reads.
#[derive(Copy, Clone, Debug, PartialEq, Eq, Structural)]
pub struct OsuPP {
    /// The amount of hit objects of the map.
    pub n_hit_objects: usize,
    pub mods: u32,
    pub combo: Option<usize>,
    pub n300: Option<usize>,
    pub n100: Option<usize>,
    pub n50: Option<usize>,
    pub n_misses: Option<usize>,
    pub passed_objects: Option<usize>,
    pub hitresult_priority: Option<HitResultPriority>,
}

impl OsuPP {
    /// Create a new performance calculator for a map with `n_hit_objects`
    /// hit objects.
    pub fn new(n_hit_objects: usize) -> (res: Self)
        ensures
            res == (OsuPP {
                n_hit_objects,
                mods: 0,
                combo: None,
                n300: None,
                n100: None,
                n50: None,
                n_misses: None,
                passed_objects: None,
                hitresult_priority: None,
            }),
    {
        OsuPP {
            n_hit_objects,
            mods: 0,
            combo: None,
            n300: None,
            n100: None,
            n50: None,
            n_misses: None,
            passed_objects: None,
            hitresult_priority: None,
        }
    }

    /// Specify mods through their bit values.
    pub fn mods(self, mods: u32) -> (res: Self)
        ensures
            res == (OsuPP { mods, ..self }),
    {
        OsuPP { mods, ..self }
    }

    /// Specify the max combo of the play.
    pub fn combo(self, combo: usize) -> (res: Self)
        ensures
            res == (OsuPP { combo: Some(combo), ..self }),
    {
        OsuPP { combo: Some(combo), ..self }
    }

    /// Specify how hitresults should be generated; defaults to best case.
    pub fn hitresult_priority(self, priority: HitResultPriority) -> (res: Self)
        ensures
            res == (OsuPP { hitresult_priority: Some(priority), ..self }),
    {
        OsuPP { hitresult_priority: Some(priority), ..self }
    }

    /// Specify the amount of 300s of a play.
    pub fn n300(self, n300: usize) -> (res: Self)
        ensures
            res == (OsuPP { n300: Some(n300), ..self }),
    {
        OsuPP { n300: Some(n300), ..self }
    }

    /// Specify the amount of 100s of a play.
    pub fn n100(self, n100: usize) -> (res: Self)
        ensures
            res == (OsuPP { n100: Some(n100), ..self }),
    {
        OsuPP { n100: Some(n100), ..self }
    }

    /// Specify the amount of 50s of a play.
    pub fn n50(self, n50: usize) -> (res: Self)
        ensures
            res == (OsuPP { n50: Some(n50), ..self }),
    {
        OsuPP { n50: Some(n50), ..self }
    }

    /// Specify the amount of misses of a play.
    pub fn n_misses(self, n_misses: usize) -> (res: Self)
        ensures
            res == (OsuPP { n_misses: Some(n_misses), ..self }),
    {
        OsuPP { n_misses: Some(n_misses), ..self }
    }

    /// Amount of passed objects for partial plays, e.g. a fail.
    pub fn passed_objects(self, passed_objects: usize) -> (res: Self)
        ensures
            res == (OsuPP { passed_objects: Some(passed_objects), ..self }),
    {
        OsuPP { passed_objects: Some(passed_objects), ..self }
    }

    /// Provide parameters through an [`OsuPpScoreState`].
    pub fn state(self, state: OsuPpScoreState) -> (res: Self)
        ensures
            res == (OsuPP {
                combo: Some(state.max_combo),
                n300: Some(state.n300),
                n100: Some(state.n100),
                n50: Some(state.n50),
                n_misses: Some(state.n_misses),
                ..self
            }),
    {
        OsuPP {
            combo: Some(state.max_combo),
            n300: Some(state.n300),
            n100: Some(state.n100),
            n50: Some(state.n50),
            n_misses: Some(state.n_misses),
            ..self
        }
    }

    /// The amount of judged objects: the passed objects, or all.
    pub open spec fn spec_n_objects(&self) -> int {
        match self.passed_objects {
            Some(n) => n as int,
            None => self.n_hit_objects as int,
        }
    }

    /// The hitresult priority, best case by default.
    pub open spec fn spec_priority(&self) -> HitResultPriority {
        match self.hitresult_priority {
            Some(p) => p,
            None => HitResultPriority::BestCase,
        }
    }

    /// Generate the score state. `max_combo` is the map's maximum combo,
    /// used if no combo was given; `target_total` is `None` without
    /// accuracy, else `round(acc * 6 * n_objects)` for the accuracy `acc`
    /// between 0 and 1. A target below all 50s counts as all 50s.
    pub fn generate_hitresults(&self, max_combo: usize, target_total: Option<usize>) -> (res:
        OsuPpScoreState)
        requires
            pp_fits(
                self.n300,
                self.n100,
                self.n50,
                or_zero_usize(self.n_misses),
                self.spec_n_objects(),
                target_total,
                self.spec_priority(),
            ),
        ensures
            ({
                let (n300, n100, n50) = pp_counts(
                    self.n300,
                    self.n100,
                    self.n50,
                    or_zero_usize(self.n_misses),
                    self.spec_n_objects(),
                    target_total,
                    self.spec_priority(),
                );
                &&& res.n300 == n300
                &&& res.n100 == n100
                &&& res.n50 == n50
                &&& res.n_misses == or_zero_usize(self.n_misses)
                &&& res.max_combo == match self.combo {
                    Some(c) => c,
                    None => max_combo,
                }
            }),
    {
        let n_objects = match self.passed_objects {
            Some(n) => n,
            None => self.n_hit_objects,
        };
        let priority = match self.hitresult_priority {
            Some(p) => p,
            None => HitResultPriority::BestCase,
        };
        let n_misses = match self.n_misses {
            Some(n) => n,
            None => 0,
        };
        let (n300, n100, n50) = match target_total {
            Some(target_total) => pp_with_acc(
                self.n300,
                self.n100,
                self.n50,
                n_misses,
                n_objects,
                target_total,
                priority,
            ),
            None => pp_without_acc(self.n300, self.n100, self.n50, n_misses, n_objects, priority),
        };
        OsuPpScoreState {
            max_combo: match self.combo {
                Some(c) => c,
                None => max_combo,
            },
            n300,
            n100,
            n50,
            n_misses,
        }
    }
}

impl OsuPP {
    /// Whether [`Self::generate_hitresults`] can run with the accuracy
    /// target `target_total`: its `usize` arithmetic neither overflows nor
    /// underflows. Too low a target underflows, for instance.
    pub fn generation_fits(&self, target_total: Option<usize>) -> (res: bool)
        ensures
            res == pp_fits(
                self.n300,
                self.n100,
                self.n50,
                or_zero_usize(self.n_misses),
                self.spec_n_objects(),
                target_total,
                self.spec_priority(),
            ),
    {
        let max = usize::MAX as u128;
        let a = match self.n300 {
            Some(n) => n as u128,
            None => 0,
        };
        let b = match self.n100 {
            Some(n) => n as u128,
            None => 0,
        };
        let c = match self.n50 {
            Some(n) => n as u128,
            None => 0,
        };
        let m = match self.n_misses {
            Some(n) => n as u128,
            None => 0,
        };
        let n = match self.passed_objects {
            Some(n) => n as u128,
            None => self.n_hit_objects as u128,
        };
        if !(a + b + c + m <= max && a + n <= max && c + n <= max) {
            return false;
        }
        let t = match target_total {
            Some(t) => t as u128,
            None => return true,
        };
        match (self.n300, self.n100, self.n50) {
            (Some(_), None, None) => given_300_fits(a, m, n, t),
            (None, Some(_), None) => given_100_fits(b, m, n, t),
            (None, None, Some(_)) => given_50_fits(c, m, n, t),
            (None, None, None) => given_none_fits(m, n, t),
            _ => true,
        }
    }
}

/// Whether the estimate from the 300s alone fits `usize`.
fn given_300_fits(a: u128, m: u128, n: u128, t: u128) -> (res: bool)
    requires
        a <= usize::MAX,
        m <= usize::MAX,
        n <= usize::MAX,
        t <= usize::MAX,
    ensures
        res == given_300_fits_spec(a as int, m as int, n as int, t as int),
{
    let max = usize::MAX as u128;
    let base = if n >= m {
        n - m
    } else {
        0
    };
    let above = if t >= base {
        t - base
    } else {
        0
    };
    let delta = if above >= 5 * a {
        above - 5 * a
    } else {
        0
    };
    let n100 = delta % 5;
    let n50 = if n >= a + n100 + m {
        n - (a + n100 + m)
    } else {
        0
    };
    let curr = 6 * a + 2 * n100 + n50;
    let (y, z) = if curr < t {
        let k = if t - curr <= n50 {
            t - curr
        } else {
            n50
        };
        (n100 + k, n50 - k)
    } else {
        let k = if curr - t <= n100 {
            curr - t
        } else {
            n100
        };
        (n100 - k, n50 + k)
    };
    a * 5 <= max && a + 5 + m <= max && curr <= max && y <= max && z <= max
}

/// Whether the estimate from the 100s alone fits `usize`.
fn given_100_fits(b: u128, m: u128, n: u128, t: u128) -> (res: bool)
    requires
        b <= usize::MAX,
        m <= usize::MAX,
        n <= usize::MAX,
        t <= usize::MAX,
    ensures
        res == given_100_fits_spec(b as int, m as int, n as int, t as int),
{
    let max = usize::MAX as u128;
    let base = if n >= m {
        n - m
    } else {
        0
    };
    let above = if t >= base {
        t - base
    } else {
        0
    };
    let delta = if above >= b {
        above - b
    } else {
        0
    };
    let sum = delta / 5 + b + m;
    sum <= max && (sum <= n || b + m <= n)
}

/// Whether the estimate from the 50s alone fits `usize`.
fn given_50_fits(c: u128, m: u128, n: u128, t: u128) -> (res: bool)
    requires
        c <= usize::MAX,
        m <= usize::MAX,
        n <= usize::MAX,
        t <= usize::MAX,
    ensures
        res == given_50_fits_spec(c as int, m as int, n as int, t as int),
{
    let max = usize::MAX as u128;
    let base = if n >= m {
        n - m
    } else {
        0
    };
    let delta = if t >= base {
        t - base
    } else {
        0
    };
    let n300 = delta / 5;
    let n100 = delta % 5;
    let sum = n300 + n100 + c + m;
    sum <= max && (sum <= n || sum - n <= n100 || n300 >= sum - n - n100) && 6 * n300 + 2 * (n100
        + n) + c <= max && n300 + n <= max
}

/// Whether the estimate without given amounts fits `usize`.
fn given_none_fits(m: u128, n: u128, t: u128) -> (res: bool)
    requires
        m <= usize::MAX,
        n <= usize::MAX,
        t <= usize::MAX,
    ensures
        res == given_none_fits_spec(m as int, n as int, t as int),
{
    let max = usize::MAX as u128;
    let base = if n >= m {
        n - m
    } else {
        0
    };
    let delta = if t >= base {
        t - base
    } else {
        0
    };
    delta / 5 + 4 + m <= max && 5 * (delta / 5) + 4 <= max
}

/// `a - b`, or zero if `b` is larger.
fn saturating_sub(a: usize, b: usize) -> (res: usize)
    ensures
        res == sat_sub(a as int, b as int),
{
    if a >= b {
        a - b
    } else {
        0
    }
}

/// The counts without accuracy.
fn pp_without_acc(
    n300: Option<usize>,
    n100: Option<usize>,
    n50: Option<usize>,
    n_misses: usize,
    n_objects: usize,
    priority: HitResultPriority,
) -> (res: (usize, usize, usize))
    requires
        pp_fits(n300, n100, n50, n_misses as int, n_objects as int, None, priority),
    ensures
        res.0 == pp_counts(n300, n100, n50, n_misses as int, n_objects as int, None, priority).0,
        res.1 == pp_counts(n300, n100, n50, n_misses as int, n_objects as int, None, priority).1,
        res.2 == pp_counts(n300, n100, n50, n_misses as int, n_objects as int, None, priority).2,
{
    let a = match n300 {
        Some(n) => n,
        None => 0,
    };
    let b = match n100 {
        Some(n) => n,
        None => 0,
    };
    let c = match n50 {
        Some(n) => n,
        None => 0,
    };
    let remaining = saturating_sub(n_objects, a + b + c + n_misses);
    match priority {
        HitResultPriority::BestCase => {
            if n300.is_none() {
                (remaining, b, c)
            } else if n100.is_none() {
                (a, remaining, c)
            } else if n50.is_none() {
                (a, b, remaining)
            } else {
                (a + remaining, b, c)
            }
        },
        HitResultPriority::WorstCase => {
            if n50.is_none() {
                (a, b, remaining)
            } else if n100.is_none() {
                (a, remaining, c)
            } else if n300.is_none() {
                (remaining, b, c)
            } else {
                (a, b, c + remaining)
            }
        },
    }
}

/// The counts from an accuracy target.
fn pp_with_acc(
    n300: Option<usize>,
    n100: Option<usize>,
    n50: Option<usize>,
    n_misses: usize,
    n_objects: usize,
    target_total: usize,
    priority: HitResultPriority,
) -> (res: (usize, usize, usize))
    requires
        pp_fits(n300, n100, n50, n_misses as int, n_objects as int, Some(target_total), priority),
    ensures
        ({
            let p = pp_counts(
                n300,
                n100,
                n50,
                n_misses as int,
                n_objects as int,
                Some(target_total),
                priority,
            );
            &&& res.0 == p.0
            &&& res.1 == p.1
            &&& res.2 == p.2
        }),
{
    match (n300, n100, n50) {
        (Some(a), Some(b), Some(c)) => {
            let remaining = saturating_sub(n_objects, a + b + c + n_misses);
            match priority {
                HitResultPriority::BestCase => (a + remaining, b, c),
                HitResultPriority::WorstCase => (a, b, c + remaining),
            }
        },
        (Some(a), Some(b), None) => (a, b, saturating_sub(n_objects, a + b + n_misses)),
        (Some(a), None, Some(c)) => (a, saturating_sub(n_objects, a + c + n_misses), c),
        (None, Some(b), Some(c)) => (saturating_sub(n_objects, b + c + n_misses), b, c),
        (Some(a), None, None) => pp_given_300_exec(a, n_misses, n_objects, target_total),
        (None, Some(b), None) => pp_given_100_exec(b, n_misses, n_objects, target_total),
        (None, None, Some(c)) => pp_given_50_exec(c, n_misses, n_objects, target_total),
        (None, None, None) => pp_given_none_exec(n_misses, n_objects, target_total, priority),
    }
}

fn pp_given_300_exec(n300: usize, n_misses: usize, n_objects: usize, target_total: usize) -> (res: (
    usize,
    usize,
    usize,
))
    requires
        pp_fits(
            Some(n300),
            None,
            None,
            n_misses as int,
            n_objects as int,
            Some(target_total),
            HitResultPriority::BestCase,
        ),
    ensures
        res.0 == pp_given_300(n300 as int, n_misses as int, n_objects as int, target_total as int).0,
        res.1 == pp_given_300(n300 as int, n_misses as int, n_objects as int, target_total as int).1,
        res.2 == pp_given_300(n300 as int, n_misses as int, n_objects as int, target_total as int).2,
{
    let delta = saturating_sub(saturating_sub(target_total, saturating_sub(n_objects, n_misses)), n300 * 5);
    let mut n100 = delta % 5;
    let mut n50 = saturating_sub(n_objects, n300 + n100 + n_misses);
    let curr_total = 6 * n300 + 2 * n100 + n50;
    if curr_total < target_total {
        let n = if target_total - curr_total <= n50 {
            target_total - curr_total
        } else {
            n50
        };
        n50 = n50 - n;
        n100 = n100 + n;
    } else {
        let n = if curr_total - target_total <= n100 {
            curr_total - target_total
        } else {
            n100
        };
        n100 = n100 - n;
        n50 = n50 + n;
    }
    (n300, n100, n50)
}

fn pp_given_100_exec(n100: usize, n_misses: usize, n_objects: usize, target_total: usize) -> (res: (
    usize,
    usize,
    usize,
))
    requires
        pp_fits(
            None,
            Some(n100),
            None,
            n_misses as int,
            n_objects as int,
            Some(target_total),
            HitResultPriority::BestCase,
        ),
    ensures
        res.0 == pp_given_100(n100 as int, n_misses as int, n_objects as int, target_total as int).0,
        res.1 == pp_given_100(n100 as int, n_misses as int, n_objects as int, target_total as int).1,
        res.2 == pp_given_100(n100 as int, n_misses as int, n_objects as int, target_total as int).2,
{
    let delta = saturating_sub(saturating_sub(target_total, saturating_sub(n_objects, n_misses)), n100);
    let mut n300 = delta / 5;
    if n300 + n100 + n_misses > n_objects {
        n300 = n300 - ((n300 + n100 + n_misses) - n_objects);
    }
    let n50 = n_objects - n300 - n100 - n_misses;
    (n300, n100, n50)
}

fn pp_given_50_exec(n50: usize, n_misses: usize, n_objects: usize, target_total: usize) -> (res: (
    usize,
    usize,
    usize,
))
    requires
        pp_fits(
            None,
            None,
            Some(n50),
            n_misses as int,
            n_objects as int,
            Some(target_total),
            HitResultPriority::BestCase,
        ),
    ensures
        res.0 == pp_given_50(n50 as int, n_misses as int, n_objects as int, target_total as int).0,
        res.1 == pp_given_50(n50 as int, n_misses as int, n_objects as int, target_total as int).1,
        res.2 == pp_given_50(n50 as int, n_misses as int, n_objects as int, target_total as int).2,
{
    let delta = saturating_sub(target_total, saturating_sub(n_objects, n_misses));
    let mut n300 = delta / 5;
    let mut n100 = delta % 5;
    if n300 + n100 + n50 + n_misses > n_objects {
        let too_many = n300 + n100 + n50 + n_misses - n_objects;
        if too_many > n100 {
            n300 = n300 - (too_many - n100);
            n100 = 0;
        } else {
            n100 = n100 - too_many;
        }
    }
    n100 = n100 + saturating_sub(n_objects, n300 + n100 + n50 + n_misses);
    let curr_total = 6 * n300 + 2 * n100 + n50;
    if curr_total < target_total {
        let wanted = (target_total - curr_total) / 4;
        let n = if n100 <= wanted {
            n100
        } else {
            wanted
        };
        n100 = n100 - n;
        n300 = n300 + n;
    } else {
        let wanted = (curr_total - target_total) / 4;
        let n = if n300 <= wanted {
            n300
        } else {
            wanted
        };
        n300 = n300 - n;
        n100 = n100 + n;
    }
    (n300, n100, n50)
}

fn pp_given_none_exec(
    n_misses: usize,
    n_objects: usize,
    target_total: usize,
    priority: HitResultPriority,
) -> (res: (usize, usize, usize))
    requires
        pp_fits(None, None, None, n_misses as int, n_objects as int, Some(target_total), priority),
    ensures
        res.0 == pp_given_none(n_misses as int, n_objects as int, target_total as int, priority).0,
        res.1 == pp_given_none(n_misses as int, n_objects as int, target_total as int, priority).1,
        res.2 == pp_given_none(n_misses as int, n_objects as int, target_total as int, priority).2,
{
    let delta = saturating_sub(target_total, saturating_sub(n_objects, n_misses));
    let mut n300 = delta / 5;
    let mut n100 = delta % 5;
    let mut n50 = saturating_sub(n_objects, n300 + n100 + n_misses);
    if let HitResultPriority::BestCase = priority {
        let quarter = n50 / 4;
        let n = if n300 <= quarter {
            n300
        } else {
            quarter
        };
        n300 = n300 - n;
        n100 = n100 + 5 * n;
        n50 = n50 - 4 * n;
    }
    (n300, n100, n50)
}

/// The first estimate of 300s and 100s leaves room for the misses; when
/// only the 300s or nothing is given and few objects are judged, the
/// remainder of the target modulo 5 can make the 100s overshoot.
pub open spec fn pp_estimate_fits(
    n300: Option<usize>,
    n100: Option<usize>,
    n50: Option<usize>,
    n_misses: int,
    n_objects: int,
    t: int,
) -> bool {
    match (n300, n100, n50) {
        (Some(a), None, None) => {
            let delta = sat_sub(sat_sub(t, sat_sub(n_objects, n_misses)), a * 5);
            a + delta % 5 + n_misses <= n_objects
        },
        (None, None, None) => {
            let delta = sat_sub(t, sat_sub(n_objects, n_misses));
            delta / 5 + delta % 5 + n_misses <= n_objects
        },
        _ => true,
    }
}

/// Every judged object gets exactly one judgement: as long as the given
/// amounts and misses fit the objects, the accuracy target does not exceed
/// all 300s, and the first estimate does not overshoot, the generated
/// 300s, 100s, 50s and misses add up to the amount of objects. A target
/// below all 50s counts as all 50s.
pub proof fn lemma_pp_counts_cover_objects(
    n300: Option<usize>,
    n100: Option<usize>,
    n50: Option<usize>,
    n_misses: int,
    n_objects: int,
    target: Option<usize>,
    priority: HitResultPriority,
)
    requires
        pp_fits(n300, n100, n50, n_misses, n_objects, target, priority),
        0 <= n_misses,
        or_zero_usize(n300) + or_zero_usize(n100) + or_zero_usize(n50) + n_misses <= n_objects,
        target matches Some(t) ==> t <= 6 * (n_objects - n_misses),
        target matches Some(t) ==> pp_estimate_fits(n300, n100, n50, n_misses, n_objects, t as int),
    ensures
        ({
            let (x, y, z) = pp_counts(n300, n100, n50, n_misses, n_objects, target, priority);
            &&& x >= 0 && y >= 0 && z >= 0
            &&& x + y + z + n_misses == n_objects
        }),
{
    let a = or_zero_usize(n300);
    let b = or_zero_usize(n100);
    let c = or_zero_usize(n50);
    if let Some(t) = target {
        match (n300, n100, n50) {
            (Some(_), None, None) => lemma_given_300_covers(a, n_misses, n_objects, t as int),
            (None, Some(_), None) => lemma_given_100_covers(b, n_misses, n_objects, t as int),
            (None, None, Some(_)) => lemma_given_50_covers(c, n_misses, n_objects, t as int),
            (None, None, None) => lemma_given_none_covers(n_misses, n_objects, t as int, priority),
            _ => {},
        }
    }
}

proof fn lemma_given_300_covers(a: int, n_misses: int, n_objects: int, t: int)
    requires
        0 <= a,
        0 <= n_misses,
        a + n_misses <= n_objects,
        0 <= t <= 6 * (n_objects - n_misses),
        a + sat_sub(sat_sub(t, sat_sub(n_objects, n_misses)), a * 5) % 5 + n_misses <= n_objects,
    ensures
        ({
            let (x, y, z) = pp_given_300(a, n_misses, n_objects, t);
            &&& x >= 0 && y >= 0 && z >= 0
            &&& x + y + z + n_misses == n_objects
        }),
{
    let delta = sat_sub(sat_sub(t, sat_sub(n_objects, n_misses)), a * 5);
    assert(0 <= delta % 5 < 5);
}

proof fn lemma_given_100_covers(b: int, n_misses: int, n_objects: int, t: int)
    requires
        0 <= b,
        0 <= n_misses,
        b + n_misses <= n_objects,
        0 <= t <= 6 * (n_objects - n_misses),
    ensures
        ({
            let (x, y, z) = pp_given_100(b, n_misses, n_objects, t);
            &&& x >= 0 && y >= 0 && z >= 0
            &&& x + y + z + n_misses == n_objects
        }),
{
    let delta = sat_sub(sat_sub(t, sat_sub(n_objects, n_misses)), b);
    assert(delta / 5 >= 0);
}

proof fn lemma_given_50_covers(c: int, n_misses: int, n_objects: int, t: int)
    requires
        0 <= c,
        0 <= n_misses,
        c + n_misses <= n_objects,
        0 <= t <= 6 * (n_objects - n_misses),
        ({
            let delta = sat_sub(t, sat_sub(n_objects, n_misses));
            let sum = delta / 5 + delta % 5 + c + n_misses;
            sum > n_objects && sum - n_objects > delta % 5 ==> delta / 5 >= sum - n_objects
                - delta % 5
        }),
    ensures
        ({
            let (x, y, z) = pp_given_50(c, n_misses, n_objects, t);
            &&& x >= 0 && y >= 0 && z >= 0
            &&& x + y + z + n_misses == n_objects
        }),
{
    let delta = sat_sub(t, sat_sub(n_objects, n_misses));
    assert(0 <= delta % 5 < 5);
    assert(delta / 5 >= 0);
}

proof fn lemma_given_none_covers(n_misses: int, n_objects: int, t: int, priority: HitResultPriority)
    requires
        0 <= n_misses <= n_objects,
        0 <= t <= 6 * (n_objects - n_misses),
        sat_sub(t, sat_sub(n_objects, n_misses)) / 5 + sat_sub(t, sat_sub(n_objects, n_misses)) % 5 + n_misses
            <= n_objects,
    ensures
        ({
            let (x, y, z) = pp_given_none(n_misses, n_objects, t, priority);
            &&& x >= 0 && y >= 0 && z >= 0
            &&& x + y + z + n_misses == n_objects
        }),
{
    let delta = sat_sub(t, sat_sub(n_objects, n_misses));
    assert(0 <= delta % 5 < 5);
}

/// The estimate of [`OsuPP`] needs no capping: the misses fit the
/// objects, the target lies above all 50s (with the given amount), and the
/// amounts that the target asks for fit the objects.
pub open spec fn pp_uncapped(
    n300: Option<usize>,
    n100: Option<usize>,
    n50: Option<usize>,
    n_misses: int,
    n_objects: int,
    t: int,
) -> bool {
    let base = n_objects - n_misses;
    &&& 0 <= n_misses <= n_objects
    &&& match (n300, n100, n50) {
        (Some(a), None, None) => {
            let delta = t - base - 5 * a;
            delta >= 0 && a + delta + n_misses <= n_objects
        },
        (None, Some(b), None) => {
            let delta = t - base - b;
            delta >= 0 && b + n_misses <= n_objects && delta / 5 + b + n_misses <= n_objects
        },
        (None, None, Some(c)) => {
            let delta = t - base;
            let sum = delta / 5 + delta % 5 + c + n_misses;
            delta >= 0 && sum <= n_objects && (n_objects - sum) / 4 <= delta / 5
        },
        (None, None, None) => {
            let delta = t - base;
            delta >= 0 && delta / 5 + delta % 5 + n_misses <= n_objects
        },
        _ => false,
    }
}

/// Where the estimate needs no capping, [`OsuPP`] meets the accuracy target
/// `6*n300 + 2*n100 + n50 == target`: exactly when the 300s are given or
/// nothing is (on either priority), short of it by less than what one 300
/// adds over a 50 (5) when the 100s are given, and above it by less than
/// what one 300 adds over a 100 (4) when the 50s are given.
pub proof fn lemma_pp_meets_target(
    n300: Option<usize>,
    n100: Option<usize>,
    n50: Option<usize>,
    n_misses: int,
    n_objects: int,
    t: usize,
    priority: HitResultPriority,
)
    requires
        pp_uncapped(n300, n100, n50, n_misses, n_objects, t as int),
    ensures
        ({
            let (x, y, z) = pp_counts(n300, n100, n50, n_misses, n_objects, Some(t), priority);
            let score = 6 * x + 2 * y + z;
            &&& (n300 is Some || (n100 is None && n50 is None)) ==> score == t
            &&& n100 is Some ==> 0 <= t - score < 5
            &&& n50 is Some ==> 0 <= score - t < 4
        }),
{
    let base = n_objects - n_misses;
    let t = t as int;
    match (n300, n100, n50) {
        (Some(a), None, None) => {
            let delta = t - base - 5 * a;
            assert(5 * (delta / 5) + delta % 5 == delta && 0 <= delta % 5 < 5) by (nonlinear_arith)
                requires
                    delta >= 0,
            ;
        },
        (None, Some(b), None) => {
            let delta = t - base - b;
            assert(5 * (delta / 5) + delta % 5 == delta && 0 <= delta % 5 < 5 && delta / 5 >= 0)
                by (nonlinear_arith)
                requires
                    delta >= 0,
            ;
        },
        (None, None, Some(c)) => {
            let delta = t - base;
            let q = delta / 5;
            let r = delta % 5;
            assert(5 * q + r == delta && 0 <= r < 5 && q >= 0) by (nonlinear_arith)
                requires
                    delta >= 0,
                    q == delta / 5,
                    r == delta % 5,
            ;
            let d = n_objects - (q + r + c + n_misses);
            assert(4 * (d / 4) + d % 4 == d && 0 <= d % 4 < 4 && d / 4 >= 0) by (nonlinear_arith)
                requires
                    d >= 0,
            ;
        },
        (None, None, None) => {
            let delta = t - base;
            assert(5 * (delta / 5) + delta % 5 == delta && 0 <= delta % 5 < 5 && delta / 5 >= 0)
                by (nonlinear_arith)
                requires
                    delta >= 0,
            ;
            let n50 = n_objects - (delta / 5 + delta % 5 + n_misses);
            assert(n50 / 4 >= 0 && 4 * (n50 / 4) <= n50) by (nonlinear_arith)
                requires
                    n50 >= 0,
            ;
        },
        _ => {},
    }
}

/// Given amounts that fit are kept, with or without an accuracy target:
/// when two of the 300s, 100s and 50s are given and fit the objects with the
/// misses, the generated amounts are the given ones and the third kind fills
/// the objects; when all three are given and fit, they are kept and the
/// objects left go to the 300s on best case and to the 50s on worst case.
pub proof fn lemma_pp_keeps_given(
    n300: Option<usize>,
    n100: Option<usize>,
    n50: Option<usize>,
    n_misses: int,
    n_objects: int,
    target: Option<usize>,
    priority: HitResultPriority,
)
    requires
        0 <= n_misses,
        or_zero_usize(n300) + or_zero_usize(n100) + or_zero_usize(n50) + n_misses <= n_objects,
    ensures
        ({
            let (x, y, z) = pp_counts(n300, n100, n50, n_misses, n_objects, target, priority);
            let a = or_zero_usize(n300);
            let b = or_zero_usize(n100);
            let c = or_zero_usize(n50);
            let left = n_objects - a - b - c - n_misses;
            &&& (n300 is Some && n100 is Some && n50 is None) ==> x == a && y == b && z == n_objects
                - a - b - n_misses
            &&& (n300 is Some && n100 is None && n50 is Some) ==> x == a && z == c && y == n_objects
                - a - c - n_misses
            &&& (n300 is None && n100 is Some && n50 is Some) ==> y == b && z == c && x == n_objects
                - b - c - n_misses
            &&& (n300 is Some && n100 is Some && n50 is Some && priority is BestCase) ==> x == a
                + left && y == b && z == c
            &&& (n300 is Some && n100 is Some && n50 is Some && priority is WorstCase) ==> x == a
                && y == b && z == c + left
        }),
{
}

/// Without an accuracy target, given amounts are kept, and the objects that
/// they and the misses leave (none if they exceed the objects) go to one
/// kind: on best case to the 300s unless given, else to the 100s unless
/// given, else to the 50s unless given, else to the 300s; on worst case to
/// the 50s, 100s and 300s in that order, else to the 50s.
pub proof fn lemma_pp_without_target(
    n300: Option<usize>,
    n100: Option<usize>,
    n50: Option<usize>,
    n_misses: int,
    n_objects: int,
    priority: HitResultPriority,
)
    ensures
        ({
            let (x, y, z) = pp_counts(n300, n100, n50, n_misses, n_objects, None, priority);
            let a = or_zero_usize(n300);
            let b = or_zero_usize(n100);
            let c = or_zero_usize(n50);
            let left = if a + b + c + n_misses <= n_objects {
                n_objects - a - b - c - n_misses
            } else {
                0
            };
            let all = n300 is Some && n100 is Some && n50 is Some;
            let best = priority is BestCase;
            let to300 = if best {
                n300 is None || all
            } else {
                n50 is Some && n100 is Some && n300 is None
            };
            let to100 = if best {
                n300 is Some && n100 is None
            } else {
                n50 is Some && n100 is None
            };
            let to50 = if best {
                n300 is Some && n100 is Some && n50 is None
            } else {
                n50 is None || all
            };
            &&& x == a + if to300 {
                left
            } else {
                0
            }
            &&& y == b + if to100 {
                left
            } else {
                0
            }
            &&& z == c + if to50 {
                left
            } else {
                0
            }
        }),
{
}

} // verus!
