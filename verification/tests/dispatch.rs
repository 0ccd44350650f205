use postman::dispatch::{
    begin_tick, on_delivery_outcome, DeliveryOutcome, StoreAction, Target, TickNext,
};
use postman::model_traits::ReminderDetails;
use postman::models::{Channel, Message, Reminder};

fn reminder(interval: Option<u64>) -> Reminder {
    Reminder {
        id: 7,
        uid: String::from("uid-7"),
        message_id: 3,
        channel_id: 5,
        fire_time: 1000,
        interval,
        position: None,
        expires_at: None,
        enabled: true,
        pin: false,
        restartable: false,
        avatar: None,
        username: None,
    }
}

fn channel() -> Channel {
    Channel {
        id: 5,
        channel: 424242,
        webhook_id: None,
        webhook_token: None,
        paused: false,
        paused_until: None,
    }
}

fn webhook_channel() -> Channel {
    Channel {
        id: 5,
        channel: 424242,
        webhook_id: Some(99),
        webhook_token: Some(String::from("tok")),
        paused: false,
        paused_until: None,
    }
}

fn message() -> Message {
    Message {
        id: 3,
        content: String::from("hi"),
        tts: false,
        embed_id: None,
        attachment: None,
        attachment_name: None,
    }
}

#[test]
fn one_shot_delivered_is_deleted_not_rescheduled() {
    // One-shot reminder, channel not paused, direct delivery succeeds:
    // exactly one delete, no fire-time update.
    let d = ReminderDetails::create_from_reminder(reminder(None), channel());
    let periods: Vec<u64> = vec![];
    let token = String::from("tkn");
    let plan = begin_tick(&d, &message(), None, &periods, &token, 1500);
    assert!(plan.actions.is_empty());
    let fallback = match plan.next {
        TickNext::Deliver { target, fallback, .. } => {
            assert!(matches!(target, Target::Channel { id: 424242 }));
            fallback
        }
        TickNext::Done => panic!("expected a delivery"),
    };
    assert!(!fallback);
    let fin = on_delivery_outcome(
        &d,
        &message(),
        None,
        &periods,
        &token,
        1500,
        DeliveryOutcome::Delivered,
        fallback,
    );
    assert!(matches!(fin.next, TickNext::Done));
    assert_eq!(fin.actions, vec![StoreAction::Delete { reminder: 7 }]);
}

#[test]
fn rate_limited_recurring_reminder_is_rescheduled_not_deleted() {
    // Recurring reminder, delivery rate limited: one fire-time update
    // past now, no delete.
    let d = ReminderDetails::create_from_reminder(reminder(Some(300)), channel());
    let periods: Vec<u64> = vec![];
    let token = String::from("tkn");
    let plan = begin_tick(&d, &message(), None, &periods, &token, 1500);
    assert!(plan.actions.is_empty());
    assert!(matches!(plan.next, TickNext::Deliver { .. }));
    let fin = on_delivery_outcome(
        &d,
        &message(),
        None,
        &periods,
        &token,
        1500,
        DeliveryOutcome::RateLimited,
        false,
    );
    assert!(matches!(fin.next, TickNext::Done));
    assert_eq!(fin.actions.len(), 1);
    match fin.actions[0] {
        StoreAction::UpdateFireTime { reminder, fire_time, position } => {
            assert_eq!(reminder, 7);
            // 1000, 1300, 1600: the first occurrence at or past 1500.
            assert_eq!(fire_time, 1600);
            assert!(fire_time >= 1500);
            assert_eq!(position, None);
        }
        _ => panic!("expected a fire-time update, got {:?}", fin.actions[0]),
    }
}

#[test]
fn vanished_webhook_retries_direct_channel_exactly_once() {
    let d = ReminderDetails::create_from_reminder(reminder(Some(300)), webhook_channel());
    let periods: Vec<u64> = vec![];
    let token = String::from("tkn");
    let plan = begin_tick(&d, &message(), None, &periods, &token, 1500);
    let fallback = match plan.next {
        TickNext::Deliver { target, fallback, payload, .. } => {
            assert!(matches!(target, Target::Webhook { id: 99, .. }));
            assert!(payload.authorization.is_none());
            fallback
        }
        TickNext::Done => panic!("expected a delivery"),
    };
    assert!(fallback);

    // The webhook is gone: its credentials are cleared and one retry goes
    // to the direct channel.
    let retry = on_delivery_outcome(
        &d,
        &message(),
        None,
        &periods,
        &token,
        1500,
        DeliveryOutcome::NotFound,
        fallback,
    );
    assert_eq!(retry.actions, vec![StoreAction::ClearWebhook { channel: 5 }]);
    let second_fallback = match retry.next {
        TickNext::Deliver { target, fallback, payload, .. } => {
            assert!(matches!(target, Target::Channel { id: 424242 }));
            // The retry payload is shaped for a direct post.
            assert!(payload.authorization.is_some());
            assert!(payload.username.is_none());
            fallback
        }
        TickNext::Done => panic!("expected one retry"),
    };
    assert!(!second_fallback, "the retry must not offer another fallback");

    // The channel is gone too: the reminder is deleted, with no third
    // attempt.
    let fin = on_delivery_outcome(
        &d,
        &message(),
        None,
        &periods,
        &token,
        1500,
        DeliveryOutcome::NotFound,
        second_fallback,
    );
    assert!(matches!(fin.next, TickNext::Done));
    assert_eq!(fin.actions, vec![StoreAction::Delete { reminder: 7 }]);
}

#[test]
fn suppressed_reminder_is_advanced_without_delivery() {
    let mut ch = channel();
    ch.paused = true;
    let d = ReminderDetails::create_from_reminder(reminder(Some(300)), ch);
    let periods: Vec<u64> = vec![];
    let token = String::from("tkn");
    let plan = begin_tick(&d, &message(), None, &periods, &token, 1500);
    assert!(matches!(plan.next, TickNext::Done));
    assert_eq!(
        plan.actions,
        vec![StoreAction::UpdateFireTime { reminder: 7, fire_time: 1600, position: None }]
    );
}

#[test]
fn lapsed_pause_is_cleared_before_delivery() {
    let mut ch = channel();
    ch.paused = true;
    ch.paused_until = Some(1400);
    let d = ReminderDetails::create_from_reminder(reminder(Some(300)), ch);
    let periods: Vec<u64> = vec![];
    let token = String::from("tkn");
    let plan = begin_tick(&d, &message(), None, &periods, &token, 1500);
    assert_eq!(plan.actions, vec![StoreAction::ClearPause { channel: 5 }]);
    assert!(matches!(plan.next, TickNext::Deliver { .. }));
}

#[test]
fn multi_position_reminder_is_advanced_with_its_cursor() {
    let mut rem = reminder(None);
    rem.position = Some(0);
    let d = ReminderDetails::create_from_reminder(rem, channel());
    let periods: Vec<u64> = vec![10, 20];
    let token = String::from("tkn");
    let fin = on_delivery_outcome(
        &d,
        &message(),
        None,
        &periods,
        &token,
        1005,
        DeliveryOutcome::Delivered,
        false,
    );
    assert_eq!(
        fin.actions,
        vec![StoreAction::UpdateFireTime { reminder: 7, fire_time: 1010, position: Some(1) }]
    );
}

#[test]
fn pin_and_wait_flags_are_passed_through() {
    let mut rem = reminder(Some(300));
    rem.pin = true;
    let d = ReminderDetails::create_from_reminder(rem, channel());
    let periods: Vec<u64> = vec![];
    let token = String::from("tkn");
    let plan = begin_tick(&d, &message(), None, &periods, &token, 1500);
    match plan.next {
        TickNext::Deliver { pin, wait, .. } => {
            assert!(pin);
            assert!(wait);
        }
        TickNext::Done => panic!("expected a delivery"),
    }
}
