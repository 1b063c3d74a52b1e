use vstd::prelude::*;

use crate::legacy_score::trunc_div;

verus! {

/// A break of the map with its bounds rounded to whole milliseconds.
#[derive(Copy, Clone, Debug, PartialEq, Eq, Structural)]
pub struct RoundedBreak {
    pub start_time: i32,
    pub end_time: i32,
}

impl RoundedBreak {
    /// The length of the break in milliseconds.
    pub open spec fn spec_len(self) -> int {
        self.end_time - self.start_time
    }
}

/// The summed length of the breaks `s`.
pub open spec fn break_total(s: Seq<RoundedBreak>) -> int
    decreases s.len(),
{
    if s.len() == 0 {
        0
    } else {
        break_total(s.drop_last()) + s.last().spec_len()
    }
}

/// Every break length of `s`, and every partial sum of them, stays within
/// `i32`.
pub open spec fn break_sums_fit(s: Seq<RoundedBreak>) -> bool {
    &&& forall|i: int| 0 <= i < s.len() ==> i32::MIN <= #[trigger] s[i].spec_len() <= i32::MAX
    &&& forall|k: int|
        0 <= k <= s.len() ==> i32::MIN <= #[trigger] break_total(s.take(k)) <= i32::MAX
}

/// The drain length in whole seconds between the first object starting at
/// `first_start` and the last one starting at `last_start`, without the
/// breaks `breaks` that end before the last object. Times are rounded
/// milliseconds, and the division rounds toward zero.
pub fn drain_length(first_start: i32, last_start: i32, breaks: &[RoundedBreak]) -> (res: i32)
    requires
        break_sums_fit(breaks@),
        i32::MIN <= last_start - first_start <= i32::MAX,
        i32::MIN <= last_start - first_start - break_total(breaks@) <= i32::MAX,
    ensures
        res == trunc_div(last_start - first_start - break_total(breaks@), 1000),
{
    let mut break_len: i32 = 0;
    let mut i: usize = 0;
    while i < breaks.len()
        invariant
            i <= breaks.len(),
            break_sums_fit(breaks@),
            break_len == break_total(breaks@.take(i as int)),
        decreases breaks.len() - i,
    {
        let b = breaks[i];
        proof {
            let t = breaks@.take(i as int + 1);
            assert(t.drop_last() =~= breaks@.take(i as int));
            assert(t.last() == b);
            assert(i32::MIN <= breaks@[i as int].spec_len() <= i32::MAX);
            assert(i32::MIN <= break_total(t) <= i32::MAX);
        }
        break_len = break_len + (b.end_time - b.start_time);
        i = i + 1;
    }
    proof {
        assert(breaks@.take(breaks@.len() as int) =~= breaks@);
    }
    let full_len = last_start - first_start;
    let drained = full_len - break_len;
    drained / 1000
}

/// Where a break lies relative to the start of the next object, as the
/// unrounded times compare.
#[derive(Copy, Clone, Debug, PartialEq, Eq, Structural)]
pub enum BreakPlacement {
    /// The break starts at or after the object's start.
    Ahead,
    /// The break ends before the object's start.
    Passed,
    /// The object starts during the break.
    Ongoing,
}

/// Drain time bookkeeping for objects that come one by one: the breaks
/// that have passed, the elapsed part of a break that an object
/// interrupts, and the first object's start.
#[derive(Copy, Clone, Debug, PartialEq, Eq, Structural)]
pub struct DrainTracker {
    /// Summed length of the breaks that have passed.
    pub break_len_prelim: i32,
    /// Elapsed length of the break that the latest object started in.
    pub elapsed_curr_break: Option<i32>,
    /// Amount of objects so far.
    pub object_count: i32,
    /// Rounded start time of the first object.
    pub start_time: Option<i32>,
}

impl DrainTracker {
    /// The break length that the drain time leaves out.
    pub open spec fn spec_break_len(self) -> int {
        self.break_len_prelim + match self.elapsed_curr_break {
            Some(e) => e as int,
            None => 0,
        }
    }

    /// The tracker after [`Self::pass_break`].
    pub open spec fn spec_pass_break(self, b: RoundedBreak, placement: BreakPlacement, obj_start: i32) -> Self {
        match placement {
            BreakPlacement::Ahead => self,
            BreakPlacement::Passed => DrainTracker {
                break_len_prelim: (self.break_len_prelim + b.spec_len()) as i32,
                elapsed_curr_break: None,
                ..self
            },
            BreakPlacement::Ongoing => DrainTracker {
                elapsed_curr_break: Some(
                    ((if b.end_time <= obj_start {
                        b.end_time
                    } else {
                        obj_start
                    }) - b.start_time) as i32,
                ),
                ..self
            },
        }
    }

    /// The tracker after [`Self::next_object`], and the drain length that
    /// it returns.
    pub open spec fn spec_next_object(self, obj_start: i32) -> (Self, int) {
        let start = match self.start_time {
            Some(s) => s,
            None => obj_start,
        };
        (
            DrainTracker {
                object_count: (self.object_count + 1) as i32,
                start_time: Some(start),
                ..self
            },
            trunc_div(obj_start - start - self.spec_break_len(), 1000),
        )
    }

    /// A tracker before any object.
    pub fn new() -> (res: Self)
        ensures
            res.break_len_prelim == 0,
            res.elapsed_curr_break is None,
            res.object_count == 0,
            res.start_time is None,
    {
        DrainTracker { break_len_prelim: 0, elapsed_curr_break: None, object_count: 0, start_time: None }
    }

    /// The break length that the drain time leaves out.
    pub fn break_len(&self) -> (res: i32)
        requires
            i32::MIN <= self.spec_break_len() <= i32::MAX,
        ensures
            res == self.spec_break_len(),
    {
        self.break_len_prelim + match self.elapsed_curr_break {
            Some(elapsed) => elapsed,
            None => 0,
        }
    }

    /// Take in the next unprocessed break, placed relative to the next
    /// object which starts at `obj_start`. Returns whether the break is
    /// done with, so that the break after it is next; a break that has not
    /// started yet, or in which the object starts, stays next.
    pub fn pass_break(&mut self, b: RoundedBreak, placement: BreakPlacement, obj_start: i32) -> (res:
        bool)
        requires
            placement == BreakPlacement::Passed ==> i32::MIN <= old(self).break_len_prelim
                + b.spec_len() <= i32::MAX && i32::MIN <= b.spec_len() <= i32::MAX,
            placement == BreakPlacement::Ongoing ==> i32::MIN <= (if b.end_time <= obj_start {
                b.end_time
            } else {
                obj_start
            }) - b.start_time <= i32::MAX,
        ensures
            res == (placement == BreakPlacement::Passed),
            *final(self) == old(self).spec_pass_break(b, placement, obj_start),
    {
        match placement {
            BreakPlacement::Ahead => false,
            BreakPlacement::Passed => {
                self.break_len_prelim = self.break_len_prelim + (b.end_time - b.start_time);
                self.elapsed_curr_break = None;
                true
            },
            BreakPlacement::Ongoing => {
                let period_end = if b.end_time <= obj_start {
                    b.end_time
                } else {
                    obj_start
                };
                self.elapsed_curr_break = Some(period_end - b.start_time);
                false
            },
        }
    }

    /// Count the object that starts at `obj_start` once the breaks before
    /// it are taken in, and return the drain length in whole seconds from
    /// the first object to it, without breaks.
    pub fn next_object(&mut self, obj_start: i32) -> (res: i32)
        requires
            old(self).object_count < i32::MAX,
            i32::MIN <= old(self).spec_break_len() <= i32::MAX,
            ({
                let start = match old(self).start_time {
                    Some(s) => s as int,
                    None => obj_start as int,
                };
                &&& i32::MIN <= obj_start - start <= i32::MAX
                &&& i32::MIN <= obj_start - start - old(self).spec_break_len() <= i32::MAX
            }),
        ensures
            (*final(self), res as int) == old(self).spec_next_object(obj_start),
    {
        self.object_count = self.object_count + 1;
        let start_time = match self.start_time {
            Some(s) => s,
            None => obj_start,
        };
        self.start_time = Some(start_time);
        let break_len = self.break_len();
        let elapsed = obj_start - start_time;
        (elapsed - break_len) / 1000
    }
}

/// The tracker after the breaks `s` have passed, one after the other,
/// before the object that starts at `obj_start`.
pub open spec fn pass_all(t: DrainTracker, s: Seq<RoundedBreak>, obj_start: i32) -> DrainTracker
    decreases s.len(),
{
    if s.len() == 0 {
        t
    } else {
        pass_all(t, s.drop_last(), obj_start).spec_pass_break(
            s.last(),
            BreakPlacement::Passed,
            obj_start,
        )
    }
}

/// Passing breaks one at a time adds up their lengths.
proof fn lemma_pass_all(t: DrainTracker, s: Seq<RoundedBreak>, obj_start: i32)
    requires
        t.elapsed_curr_break is None,
        t.break_len_prelim == 0,
        break_sums_fit(s),
    ensures
        pass_all(t, s, obj_start).break_len_prelim == break_total(s),
        pass_all(t, s, obj_start).elapsed_curr_break is None,
        pass_all(t, s, obj_start).object_count == t.object_count,
        pass_all(t, s, obj_start).start_time == t.start_time,
    decreases s.len(),
{
    if s.len() > 0 {
        let p = s.drop_last();
        assert(break_sums_fit(p)) by {
            assert forall|k: int| 0 <= k <= p.len() implies #[trigger] p.take(k) == s.take(k) by {
                assert(p.take(k) =~= s.take(k));
            }
            assert forall|i: int| 0 <= i < p.len() implies p[i] == s[i] by {}
        }
        lemma_pass_all(t, p, obj_start);
        assert(s.take(s.len() as int) =~= s);
    }
}

/// Tracking the drain time object by object agrees with computing it at
/// once: after the first object, starting at `first_start`, and the breaks
/// `s` that pass before the object starting at `last_start`, the tracker
/// reports the drain length that [`drain_length`] computes from the same
/// times.
pub proof fn lemma_tracker_matches_drain_length(
    first_start: i32,
    last_start: i32,
    s: Seq<RoundedBreak>,
)
    requires
        break_sums_fit(s),
    ensures
        ({
            let fresh = DrainTracker {
                break_len_prelim: 0,
                elapsed_curr_break: None,
                object_count: 0,
                start_time: None,
            };
            let first = fresh.spec_next_object(first_start).0;
            pass_all(first, s, last_start).spec_next_object(last_start).1 == trunc_div(
                last_start - first_start - break_total(s),
                1000,
            )
        }),
{
    let fresh = DrainTracker {
        break_len_prelim: 0,
        elapsed_curr_break: None,
        object_count: 0,
        start_time: None,
    };
    let first = fresh.spec_next_object(first_start).0;
    lemma_pass_all(first, s, last_start);
}

} // verus!
