use rosu_pp::drain::{drain_length, BreakPlacement, DrainTracker, RoundedBreak};

fn brk(start_time: i32, end_time: i32) -> RoundedBreak {
    RoundedBreak { start_time, end_time }
}

#[test]
fn drain_length_without_breaks() {
    assert_eq!(drain_length(1000, 61_999, &[]), 60);
    assert_eq!(drain_length(0, 999, &[]), 0);
}

#[test]
fn drain_length_leaves_out_breaks() {
    let breaks = [brk(10_000, 20_000), brk(30_000, 35_500)];
    assert_eq!(drain_length(0, 60_000, &breaks), 44);
}

#[test]
fn drain_length_rounds_toward_zero() {
    // Breaks longer than the play give a negative drain, rounded toward zero.
    let breaks = [brk(0, 2_500)];
    assert_eq!(drain_length(0, 1_000, &breaks), -1);
}

#[test]
fn tracker_counts_objects_and_passed_breaks() {
    let mut tracker = DrainTracker::new();
    assert_eq!(tracker.next_object(1_000), 0);
    assert_eq!(tracker.object_count, 1);
    assert_eq!(tracker.start_time, Some(1_000));

    let b = brk(10_000, 20_000);
    assert!(!tracker.pass_break(b, BreakPlacement::Ahead, 5_000));
    assert_eq!(tracker.next_object(5_000), 4);

    assert!(tracker.pass_break(b, BreakPlacement::Passed, 30_000));
    assert_eq!(tracker.break_len(), 10_000);
    assert_eq!(tracker.next_object(30_000), 19);
    assert_eq!(tracker.object_count, 3);
}

#[test]
fn tracker_counts_elapsed_part_of_ongoing_break() {
    let mut tracker = DrainTracker::new();
    tracker.next_object(0);

    let b = brk(10_000, 20_000);
    assert!(!tracker.pass_break(b, BreakPlacement::Ongoing, 14_000));
    assert_eq!(tracker.elapsed_curr_break, Some(4_000));
    assert_eq!(tracker.next_object(14_000), 10);

    // Once the break has passed, its full length counts instead.
    assert!(tracker.pass_break(b, BreakPlacement::Passed, 25_000));
    assert_eq!(tracker.elapsed_curr_break, None);
    assert_eq!(tracker.break_len(), 10_000);
}

#[test]
fn tracker_agrees_with_drain_length() {
    let breaks = [brk(10_000, 20_000), brk(30_000, 35_500)];
    let mut tracker = DrainTracker::new();
    tracker.next_object(0);
    for b in breaks {
        assert!(tracker.pass_break(b, BreakPlacement::Passed, 60_000));
    }
    assert_eq!(tracker.next_object(60_000), drain_length(0, 60_000, &breaks));
}
