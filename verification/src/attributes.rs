use vstd::prelude::*;

use crate::legacy_score_simulator::{accuracy_score_weight, legacy_bonus_weight, standardised_bonus_weight};
use crate::object::{count_where, large_tick_total, repeat_kind, tick_kind, OsuObject, OsuObjectKind};

verus! {

/// The object counts of an osu!standard difficulty calculation: the integer
/// part of its difficulty attributes.
#[derive(Copy, Clone, Debug, Default, PartialEq, Eq, Structural)]
pub struct OsuDifficultyAttributes {
    /// The amount of circles.
    pub n_circles: u32,
    /// The amount of sliders.
    pub n_sliders: u32,
    /// The amount of slider ticks and repeats.
    pub n_large_ticks: u32,
    /// The amount of spinners.
    pub n_spinners: u32,
    /// The maximum combo.
    pub max_combo: u32,
}

/// What one object adds to the circle count.
pub open spec fn circle_weight(h: OsuObject) -> nat {
    if h.kind is Circle {
        1
    } else {
        0
    }
}

/// What one object adds to the slider count.
pub open spec fn slider_weight(h: OsuObject) -> nat {
    if h.kind is Slider {
        1
    } else {
        0
    }
}

/// What one object adds to the spinner count.
pub open spec fn spinner_weight(h: OsuObject) -> nat {
    if h.kind is Spinner {
        1
    } else {
        0
    }
}

/// What one object adds to the large tick count: the ticks and repeats of a
/// slider.
pub open spec fn large_tick_weight(h: OsuObject) -> nat {
    match h.kind {
        OsuObjectKind::Slider(slider) => large_tick_total(slider.nested_objects@),
        _ => 0,
    }
}

/// What one object adds to the maximum combo: one for the object itself
/// (circle, slider head or spinner) plus one per nested slider object.
pub open spec fn combo_weight(h: OsuObject) -> nat {
    match h.kind {
        OsuObjectKind::Slider(slider) => 1 + slider.nested_objects@.len(),
        _ => 1,
    }
}

/// The quantities that are counted over hit objects.
pub enum Count {
    Circles,
    Sliders,
    Spinners,
    LargeTicks,
    Combo,
    Repeats,
    Ticks,
    AccuracyScore,
    LegacyBonus,
    StandardisedBonus,
}

/// What one object adds to the quantity `c`.
pub open spec fn weight(c: Count, h: OsuObject) -> nat {
    match c {
        Count::Circles => circle_weight(h),
        Count::Sliders => slider_weight(h),
        Count::Spinners => spinner_weight(h),
        Count::LargeTicks => large_tick_weight(h),
        Count::Combo => combo_weight(h),
        Count::Repeats => match h.kind {
            OsuObjectKind::Slider(slider) => count_where(slider.nested_objects@, repeat_kind()),
            _ => 0,
        },
        Count::Ticks => match h.kind {
            OsuObjectKind::Slider(slider) => count_where(slider.nested_objects@, tick_kind()),
            _ => 0,
        },
        Count::AccuracyScore => accuracy_score_weight(h),
        Count::LegacyBonus => legacy_bonus_weight(h),
        Count::StandardisedBonus => standardised_bonus_weight(h),
    }
}

/// The sum of the quantity `c` over all objects of `s`.
pub open spec fn tally(s: Seq<OsuObject>, c: Count) -> nat
    decreases s.len(),
{
    if s.len() == 0 {
        0
    } else {
        tally(s.drop_last(), c) + weight(c, s.last())
    }
}

/// The tally over a single object is that object's weight.
pub proof fn lemma_tally_single(h: OsuObject, c: Count)
    ensures
        tally(seq![h], c) == weight(c, h),
{
    assert(seq![h].drop_last() =~= Seq::<OsuObject>::empty());
    reveal_with_fuel(tally, 2);
}

/// Extending a prefix by one object adds that object's weight.
pub proof fn lemma_tally_step(s: Seq<OsuObject>, i: int, c: Count)
    requires
        0 <= i < s.len(),
    ensures
        tally(s.take(i + 1), c) == tally(s.take(i), c) + weight(c, s[i]),
{
    assert(s.take(i + 1).drop_last() =~= s.take(i));
}

/// The counts of a single object are its weights.
pub proof fn lemma_tally_single_all(h: OsuObject)
    ensures
        tally(seq![h], Count::Circles) == circle_weight(h),
        tally(seq![h], Count::Sliders) == slider_weight(h),
        tally(seq![h], Count::Spinners) == spinner_weight(h),
        tally(seq![h], Count::LargeTicks) == large_tick_weight(h),
        tally(seq![h], Count::Combo) == combo_weight(h),
{
    lemma_tally_single(h, Count::Circles);
    lemma_tally_single(h, Count::Sliders);
    lemma_tally_single(h, Count::Spinners);
    lemma_tally_single(h, Count::LargeTicks);
    lemma_tally_single(h, Count::Combo);
}

/// A tally over a prefix never exceeds the tally over a longer prefix.
pub proof fn lemma_tally_prefix_monotone(
    s: Seq<OsuObject>,
    c: Count,
    i: int,
    j: int,
)
    requires
        0 <= i <= j <= s.len(),
    ensures
        tally(s.take(i), c) <= tally(s.take(j), c),
    decreases j - i,
{
    if i < j {
        lemma_tally_prefix_monotone(s, c, i, j - 1);
        assert(s.take(j).drop_last() =~= s.take(j - 1));
    }
}

/// `new` holds the counts of `old` plus those of the objects `s`.
pub open spec fn counts_added(
    old: OsuDifficultyAttributes,
    new: OsuDifficultyAttributes,
    s: Seq<OsuObject>,
) -> bool {
    &&& new.n_circles == old.n_circles + tally(s, Count::Circles)
    &&& new.n_sliders == old.n_sliders + tally(s, Count::Sliders)
    &&& new.n_spinners == old.n_spinners + tally(s, Count::Spinners)
    &&& new.n_large_ticks == old.n_large_ticks + tally(s, Count::LargeTicks)
    &&& new.max_combo == old.max_combo + tally(s, Count::Combo)
}

/// Adding the counts of the objects `s` to `attrs` stays within `u32`.
pub open spec fn counts_fit(attrs: OsuDifficultyAttributes, s: Seq<OsuObject>) -> bool {
    &&& attrs.n_circles + tally(s, Count::Circles) <= u32::MAX
    &&& attrs.n_sliders + tally(s, Count::Sliders) <= u32::MAX
    &&& attrs.n_spinners + tally(s, Count::Spinners) <= u32::MAX
    &&& attrs.n_large_ticks + tally(s, Count::LargeTicks) <= u32::MAX
    &&& attrs.max_combo + tally(s, Count::Combo) <= u32::MAX
}

impl OsuDifficultyAttributes {
    /// The amount of hit objects, as a mathematical integer.
    pub open spec fn spec_n_objects(&self) -> int {
        self.n_circles + self.n_sliders + self.n_spinners
    }

    /// Return the maximum combo.
    pub fn max_combo(&self) -> (res: u32)
        ensures
            res == self.max_combo,
    {
        self.max_combo
    }

    /// Return the amount of hit objects.
    pub fn n_objects(&self) -> (res: u32)
        requires
            self.spec_n_objects() <= u32::MAX,
        ensures
            res == self.spec_n_objects(),
    {
        self.n_circles + self.n_sliders + self.n_spinners
    }

    /// Add one object to the counts, as gradual difficulty calculation does
    /// after processing it.
    pub fn increment_combo(h: &OsuObject, attrs: &mut OsuDifficultyAttributes)
        requires
            counts_fit(*old(attrs), seq![*h]),
        ensures
            counts_added(*old(attrs), *final(attrs), seq![*h]),
    {
        proof {
            lemma_tally_single_all(*h);
        }
        attrs.max_combo = attrs.max_combo + 1;
        match &h.kind {
            OsuObjectKind::Circle => attrs.n_circles = attrs.n_circles + 1,
            OsuObjectKind::Slider(slider) => {
                attrs.n_sliders = attrs.n_sliders + 1;
                let large_ticks = slider.large_tick_count();
                attrs.n_large_ticks = attrs.n_large_ticks + large_ticks as u32;
                attrs.max_combo = attrs.max_combo + slider.nested_objects.len() as u32;
            },
            OsuObjectKind::Spinner(_) => attrs.n_spinners = attrs.n_spinners + 1,
        }
    }

    /// Add the first `take` objects of `objects` to the counts, as the
    /// conversion of a map's hit objects does.
    pub fn count_objects(objects: &[OsuObject], take: usize, attrs: &mut OsuDifficultyAttributes)
        requires
            counts_fit(
                *old(attrs),
                objects@.take(if take <= objects@.len() {
                    take as int
                } else {
                    objects@.len() as int
                }),
            ),
        ensures
            counts_added(
                *old(attrs),
                *final(attrs),
                objects@.take(if take <= objects@.len() {
                    take as int
                } else {
                    objects@.len() as int
                }),
            ),
    {
        let n = if take <= objects.len() {
            take
        } else {
            objects.len()
        };
        let ghost start = *attrs;
        let ghost s = objects@;
        proof {
            assert(s.take(0) =~= Seq::<OsuObject>::empty());
        }
        let mut i: usize = 0;
        while i < n
            invariant
                n <= s.len(),
                s == objects@,
                i <= n,
                counts_fit(start, s.take(n as int)),
                counts_added(start, *attrs, s.take(i as int)),
            decreases n - i,
        {
            proof {
                assert(s.take(i + 1).drop_last() =~= s.take(i as int));
                lemma_tally_prefix_monotone(s, Count::Circles, i + 1, n as int);
                lemma_tally_prefix_monotone(s, Count::Sliders, i + 1, n as int);
                lemma_tally_prefix_monotone(s, Count::Spinners, i + 1, n as int);
                lemma_tally_prefix_monotone(
                    s,
                    Count::LargeTicks,
                    i + 1,
                    n as int,
                );
                lemma_tally_prefix_monotone(s, Count::Combo, i + 1, n as int);
                lemma_tally_single_all(s[i as int]);
                lemma_tally_step(s, i as int, Count::Circles);
                lemma_tally_step(s, i as int, Count::Sliders);
                lemma_tally_step(s, i as int, Count::Spinners);
                lemma_tally_step(s, i as int, Count::LargeTicks);
                lemma_tally_step(s, i as int, Count::Combo);
            }
            Self::increment_combo(&objects[i], attrs);
            i = i + 1;
        }
    }
}

/// Counting objects one at a time, as gradual difficulty calculation does,
/// gives the same counts as counting a prefix at once: the counts of the
/// first `n + 1` objects are those of the first `n` plus those of object `n`.
pub proof fn lemma_gradual_counts_match_prefix(
    s: Seq<OsuObject>,
    n: int,
    a: OsuDifficultyAttributes,
    b: OsuDifficultyAttributes,
    c: OsuDifficultyAttributes,
)
    requires
        0 <= n < s.len(),
        counts_added(a, b, s.take(n)),
        counts_added(b, c, seq![s[n]]),
    ensures
        counts_added(a, c, s.take(n + 1)),
{
    lemma_tally_single_all(s[n]);
    lemma_tally_step(s, n, Count::Circles);
    lemma_tally_step(s, n, Count::Sliders);
    lemma_tally_step(s, n, Count::Spinners);
    lemma_tally_step(s, n, Count::LargeTicks);
    lemma_tally_step(s, n, Count::Combo);
}

/// The objects that processing `s` one object at a time has taken in after
/// `n` steps: step `k + 1` appends object `k`.
pub open spec fn one_by_one(s: Seq<OsuObject>, n: nat) -> Seq<OsuObject>
    decreases n,
{
    if n == 0 {
        Seq::empty()
    } else {
        one_by_one(s, (n - 1) as nat).push(s[n - 1])
    }
}

/// Taking the objects in one at a time gives the prefix of that length.
pub proof fn lemma_one_by_one_is_prefix(s: Seq<OsuObject>, n: nat)
    requires
        n <= s.len(),
    ensures
        one_by_one(s, n) == s.take(n as int),
    decreases n,
{
    if n == 0 {
        assert(s.take(0) =~= Seq::<OsuObject>::empty());
    } else {
        lemma_one_by_one_is_prefix(s, (n - 1) as nat);
        assert(s.take(n - 1).push(s[n - 1]) =~= s.take(n as int));
    }
}

} // verus!
