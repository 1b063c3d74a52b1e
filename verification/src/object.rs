use vstd::prelude::*;

verus! {

/// The kind of an object nested in a slider.
#[derive(Copy, Clone, Debug, PartialEq, Eq, Structural)]
pub enum NestedSliderObjectKind {
    Repeat,
    Tail,
    Tick,
}

/// An object nested in a slider, reduced to what scoring reads of it.
#[derive(Copy, Clone, Debug, PartialEq, Eq, Structural)]
pub struct NestedSliderObject {
    pub kind: NestedSliderObjectKind,
}

impl NestedSliderObject {
    /// Whether this nested object is a repeat.
    pub fn is_repeat(&self) -> (res: bool)
        ensures
            res == (self.kind is Repeat),
    {
        matches!(self.kind, NestedSliderObjectKind::Repeat)
    }

    /// Whether this nested object is a tick.
    pub fn is_tick(&self) -> (res: bool)
        ensures
            res == (self.kind is Tick),
    {
        matches!(self.kind, NestedSliderObjectKind::Tick)
    }
}

/// Whether a nested object counts as a "large tick" (a tick or a repeat).
pub open spec fn is_large_tick(kind: NestedSliderObjectKind) -> bool {
    kind is Tick || kind is Repeat
}

/// The amount of nested objects of `s` whose kind satisfies `f`.
pub open spec fn count_where(
    s: Seq<NestedSliderObject>,
    f: spec_fn(NestedSliderObjectKind) -> bool,
) -> nat
    decreases s.len(),
{
    if s.len() == 0 {
        0
    } else {
        count_where(s.drop_last(), f) + if f(s.last().kind) {
            1nat
        } else {
            0nat
        }
    }
}

/// A count never exceeds the amount of nested objects.
pub proof fn lemma_count_where_le_len(
    s: Seq<NestedSliderObject>,
    f: spec_fn(NestedSliderObjectKind) -> bool,
)
    ensures
        count_where(s, f) <= s.len(),
    decreases s.len(),
{
    if s.len() > 0 {
        lemma_count_where_le_len(s.drop_last(), f);
    }
}

/// The kinds of nested objects that are repeats.
pub open spec fn repeat_kind() -> spec_fn(NestedSliderObjectKind) -> bool {
    |k: NestedSliderObjectKind| k is Repeat
}

/// The kinds of nested objects that are ticks.
pub open spec fn tick_kind() -> spec_fn(NestedSliderObjectKind) -> bool {
    |k: NestedSliderObjectKind| k is Tick
}

/// The kinds of nested objects that score 30 in legacy scoring (repeats and
/// tails).
pub open spec fn big_nested_kind() -> spec_fn(NestedSliderObjectKind) -> bool {
    |k: NestedSliderObjectKind| k is Repeat || k is Tail
}

/// The kinds of nested objects that are large ticks.
pub open spec fn large_tick_kind() -> spec_fn(NestedSliderObjectKind) -> bool {
    |k: NestedSliderObjectKind| is_large_tick(k)
}

/// The amount of nested objects of `s` that are large ticks.
pub open spec fn large_tick_total(s: Seq<NestedSliderObject>) -> nat {
    count_where(s, large_tick_kind())
}

/// The kinds selected by a small code: repeats, ticks, or large ticks.
spec fn kind_filter(which: u8) -> spec_fn(NestedSliderObjectKind) -> bool {
    if which == 0 {
        repeat_kind()
    } else if which == 1 {
        tick_kind()
    } else {
        large_tick_kind()
    }
}

/// A slider, reduced to its nested objects in chronological order.
#[derive(Clone, Debug)]
pub struct OsuSlider {
    pub nested_objects: Vec<NestedSliderObject>,
}

impl OsuSlider {
    fn count_matching(&self, which: u8) -> (res: usize)
        ensures
            res == count_where(self.nested_objects@, kind_filter(which)),
    {
        let ghost f = kind_filter(which);
        let n = self.nested_objects.len();
        let mut count: usize = 0;
        let mut i: usize = 0;
        while i < n
            invariant
                n == self.nested_objects@.len(),
                i <= n,
                f == kind_filter(which),
                count == count_where(self.nested_objects@.take(i as int), f),
            decreases n - i,
        {
            proof {
                assert(self.nested_objects@.take(i + 1).drop_last() =~= self.nested_objects@.take(
                    i as int,
                ));
                lemma_count_where_le_len(self.nested_objects@.take(i as int), f);
            }
            let kind = self.nested_objects[i].kind;
            let hit = if which == 0 {
                matches!(kind, NestedSliderObjectKind::Repeat)
            } else if which == 1 {
                matches!(kind, NestedSliderObjectKind::Tick)
            } else {
                matches!(kind, NestedSliderObjectKind::Tick | NestedSliderObjectKind::Repeat)
            };
            if hit {
                count = count + 1;
            }
            i = i + 1;
        }
        proof {
            assert(self.nested_objects@.take(n as int) =~= self.nested_objects@);
        }
        count
    }

    /// The amount of repeats.
    pub fn repeat_count(&self) -> (res: usize)
        ensures
            res == count_where(self.nested_objects@, repeat_kind()),
    {
        self.count_matching(0)
    }

    /// The amount of ticks.
    pub fn tick_count(&self) -> (res: usize)
        ensures
            res == count_where(self.nested_objects@, tick_kind()),
    {
        self.count_matching(1)
    }

    /// Counts both ticks and repeats.
    pub fn large_tick_count(&self) -> (res: usize)
        ensures
            res == large_tick_total(self.nested_objects@),
    {
        self.count_matching(2)
    }

    /// The last nested object that is the tail. The tail is not necessarily
    /// the last nested object, e.g. on very short and fast buzz sliders.
    pub fn tail(&self) -> (res: Option<&NestedSliderObject>)
        ensures
            res is None <==> (forall|j: int|
                0 <= j < self.nested_objects@.len() ==> !(#[trigger] self.nested_objects@[j].kind is Tail)),
            res matches Some(r) ==> exists|j: int|
                0 <= j < self.nested_objects@.len() && *r == self.nested_objects@[j]
                    && r.kind is Tail && (forall|k: int|
                    j < k < self.nested_objects@.len() ==> !(
                    #[trigger] self.nested_objects@[k].kind is Tail)),
    {
        let mut i = self.nested_objects.len();
        while i > 0
            invariant
                i <= self.nested_objects@.len(),
                forall|k: int|
                    i <= k < self.nested_objects@.len() ==> !(
                    #[trigger] self.nested_objects@[k].kind is Tail),
            decreases i,
        {
            i = i - 1;
            if matches!(self.nested_objects[i].kind, NestedSliderObjectKind::Tail) {
                return Some(&self.nested_objects[i]);
            }
        }
        None
    }
}

/// A spinner, reduced to the half-spin counts that legacy scoring derives
/// from its duration.
#[derive(Copy, Clone, Debug, PartialEq, Eq, Structural)]
pub struct Spinner {
    /// The total amount of half spins possible for the entire spinner.
    pub total_half_spins_possible: i32,
    /// The amount of half spins that are required to complete the spinner.
    pub half_spins_required_for_completion: i32,
}

/// The kind of an osu!standard hit object.
#[derive(Clone, Debug)]
pub enum OsuObjectKind {
    Circle,
    Slider(OsuSlider),
    Spinner(Spinner),
}

/// An osu!standard hit object, reduced to what counting and scoring read.
#[derive(Clone, Debug)]
pub struct OsuObject {
    pub kind: OsuObjectKind,
}

impl OsuObject {
    /// Whether the object is a circle.
    pub fn is_circle(&self) -> (res: bool)
        ensures
            res == (self.kind is Circle),
    {
        matches!(self.kind, OsuObjectKind::Circle)
    }

    /// Whether the object is a slider.
    pub fn is_slider(&self) -> (res: bool)
        ensures
            res == (self.kind is Slider),
    {
        matches!(self.kind, OsuObjectKind::Slider(_))
    }

    /// Whether the object is a spinner.
    pub fn is_spinner(&self) -> (res: bool)
        ensures
            res == (self.kind is Spinner),
    {
        matches!(self.kind, OsuObjectKind::Spinner(_))
    }
}

} // verus!
