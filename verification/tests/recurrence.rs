use postman::recurrence::{advance, advance_multi, MultiOutcome, Outcome};

#[test]
fn one_shot_is_deleted() {
    assert_eq!(advance(100, None, None, 200), Outcome::Delete);
    assert_eq!(advance(0, None, Some(1000), 0), Outcome::Delete);
    assert_eq!(advance(5000, None, None, 100), Outcome::Delete);
}

#[test]
fn scalar_advance_lands_in_window() {
    // fire_time 0, interval 300, now 1000: occurrences 0, 300, ..., 1200.
    let r = advance(0, Some(300), None, 1000);
    assert_eq!(r, Outcome::Reschedule { fire_time: 1200 });
    match r {
        Outcome::Reschedule { fire_time } => {
            assert!(fire_time >= 1000);
            assert!(fire_time - 300 < 1000);
        }
        Outcome::Delete => panic!("expected a reschedule"),
    }
}

#[test]
fn scalar_advance_exact_tie_is_kept() {
    // A fire time exactly equal to now is not advanced further.
    assert_eq!(advance(100, Some(10), None, 100), Outcome::Reschedule { fire_time: 100 });
    // One second earlier, it moves past now.
    assert_eq!(advance(99, Some(10), None, 100), Outcome::Reschedule { fire_time: 109 });
}

#[test]
fn scalar_advance_past_expiry_deletes() {
    // Next occurrence is 1200, which exceeds the expiry 1100.
    assert_eq!(advance(0, Some(300), Some(1100), 1000), Outcome::Delete);
    // Expiry exactly at the next occurrence keeps the reminder.
    assert_eq!(
        advance(0, Some(300), Some(1200), 1000),
        Outcome::Reschedule { fire_time: 1200 }
    );
}

#[test]
fn multi_position_cycles_through_periods() {
    let periods = vec![10u64, 20u64];
    // First advancement adds 10 and moves the cursor 0 -> 1.
    let first = advance_multi(100, 0, &periods, None, 105);
    assert_eq!(first, MultiOutcome::Reschedule { fire_time: 110, position: 1 });
    // Second advancement adds 20 and moves the cursor 1 -> 0.
    let second = advance_multi(110, 1, &periods, None, 115);
    assert_eq!(second, MultiOutcome::Reschedule { fire_time: 130, position: 0 });
}

#[test]
fn multi_position_takes_several_steps_when_needed() {
    let periods = vec![10u64, 20u64];
    // 100 -> 110 -> 130 -> 140: the first occurrence at or past 135.
    assert_eq!(
        advance_multi(100, 0, &periods, None, 135),
        MultiOutcome::Reschedule { fire_time: 140, position: 1 }
    );
}

#[test]
fn multi_position_not_due_is_unchanged() {
    let periods = vec![10u64, 20u64];
    assert_eq!(
        advance_multi(500, 1, &periods, None, 400),
        MultiOutcome::Reschedule { fire_time: 500, position: 1 }
    );
}

#[test]
fn multi_position_empty_sequence_deletes() {
    let periods: Vec<u64> = vec![];
    assert_eq!(advance_multi(100, 0, &periods, None, 200), MultiOutcome::Delete);
}

#[test]
fn multi_position_all_zero_sequence_deletes() {
    let periods = vec![0u64, 0u64, 0u64];
    assert_eq!(advance_multi(100, 2, &periods, None, 200), MultiOutcome::Delete);
}

#[test]
fn multi_position_zero_periods_are_skipped() {
    let periods = vec![0u64, 30u64];
    // The zero period at position 0 is consumed without progress; the 30
    // at position 1 lands at 130; the cursor ends back at 0.
    assert_eq!(
        advance_multi(100, 0, &periods, None, 101),
        MultiOutcome::Reschedule { fire_time: 130, position: 0 }
    );
}

#[test]
fn multi_position_past_expiry_deletes() {
    let periods = vec![10u64, 20u64];
    assert_eq!(advance_multi(100, 0, &periods, Some(105), 110), MultiOutcome::Delete);
}
