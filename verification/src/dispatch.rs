//! The per-reminder tick pipeline: resolve the target, compose the
//! payload, interpret the delivery outcome, and compute the store actions
//! that reschedule or delete the reminder.
//!
//! The pipeline itself performs no store or network call. `begin_tick`
//! either finishes at once (a suppressed reminder is only advanced) or
//! asks for one delivery; `on_delivery_outcome` turns the reported
//! outcome into the final store actions, or — after a webhook that no
//! longer exists — asks for exactly one retry against the direct channel.
//! The surrounding process performs each delivery and each store action.

use vstd::prelude::*;

use crate::model_traits::{
    compose_payload, embed_value, payload_ok, spec_pause_elapsed, spec_should_send, ApiCommunicable,
    ReminderDetails, SendableMessage,
};
use crate::models::{Embed, Message, Reminder};
use crate::recurrence::{
    advance, advance_multi, advance_multi_ok, advance_ok, MultiOutcome, Outcome,
};

verus! {

/// Where one delivery attempt goes.
pub enum Target {
    Webhook { id: u64, token: String },
    Channel { id: u64 },
}

/// How one delivery attempt ended, as reported by the chat-service
/// client: delivered, target not found, rate limited, or some other
/// transient failure.
#[derive(Clone, Copy, PartialEq, Eq, Structural, Debug)]
pub enum DeliveryOutcome {
    Delivered,
    NotFound,
    RateLimited,
    Other,
}

/// One store mutation the pipeline asks for.
#[derive(Clone, Copy, PartialEq, Eq, Structural, Debug)]
pub enum StoreAction {
    /// Clear the channel's lapsed pause state.
    ClearPause { channel: u32 },
    /// Clear the channel's webhook credential pair.
    ClearWebhook { channel: u32 },
    /// Move the reminder to its next occurrence.
    UpdateFireTime { reminder: u32, fire_time: u64, position: Option<u32> },
    /// Remove the reminder.
    Delete { reminder: u32 },
}

/// What the pipeline asks for next.
pub enum TickNext {
    /// Nothing more to do this tick.
    Done,
    /// Perform one delivery and report its outcome. `fallback` says that
    /// a not-found outcome may still be retried once against the direct
    /// channel; `pin` asks to pin the delivered message in the external
    /// channel `channel`; `wait` asks the webhook call to wait for the
    /// created message.
    Deliver {
        payload: SendableMessage,
        target: Target,
        channel: u64,
        fallback: bool,
        pin: bool,
        wait: bool,
    },
}

/// Store actions to perform now, and what to do next.
pub struct TickPlan {
    pub actions: Vec<StoreAction>,
    pub next: TickNext,
}

// ---------------------------------------------------------------------------
// Advancement as store actions
// ---------------------------------------------------------------------------

/// The machine bounds under which advancement arithmetic cannot
/// overflow.
pub open spec fn wf_times(rem: Reminder, periods: Seq<u64>, now: int) -> bool {
    &&& now < 0x4000_0000_0000_0000
    &&& (rem.interval matches Some(i) ==> 0 < i && i < 0x4000_0000_0000_0000)
    &&& (forall|k: int| 0 <= k < periods.len() ==> periods[k] < 0x4000_0000_0000_0000)
    &&& periods.len() <= 0x7fff_ffff
}

/// The single store action a scalar-policy outcome stands for.
pub open spec fn scalar_actions(o: Outcome, id: u32) -> Seq<StoreAction> {
    match o {
        Outcome::Reschedule { fire_time } => seq![
            StoreAction::UpdateFireTime { reminder: id, fire_time, position: None },
        ],
        Outcome::Delete => seq![StoreAction::Delete { reminder: id }],
    }
}

/// The single store action a multi-position outcome stands for.
pub open spec fn multi_actions(m: MultiOutcome, id: u32) -> Seq<StoreAction> {
    match m {
        MultiOutcome::Reschedule { fire_time, position } => seq![
            StoreAction::UpdateFireTime { reminder: id, fire_time, position: Some(position) },
        ],
        MultiOutcome::Delete => seq![StoreAction::Delete { reminder: id }],
    }
}

/// The actions `a` advance the reminder under its recurrence policy: the
/// multi-position policy when the reminder carries a position cursor,
/// else the scalar policy.
pub open spec fn advance_actions_ok(
    a: Seq<StoreAction>,
    rem: Reminder,
    periods: Seq<u64>,
    now: u64,
) -> bool {
    match rem.position {
        Some(pos) => exists|m: MultiOutcome|
            #[trigger] advance_multi_ok(m, rem.fire_time, pos, periods, rem.expires_at, now)
                && a =~= multi_actions(m, rem.id),
        None => exists|o: Outcome|
            #[trigger] advance_ok(o, rem.fire_time, rem.interval, rem.expires_at, now) && a
                =~= scalar_actions(o, rem.id),
    }
}

/// Runs the recurrence calculator for a fired reminder and returns the
/// store action that applies its outcome.
pub fn advance_actions(rem: &Reminder, periods: &Vec<u64>, now: u64) -> (a: Vec<StoreAction>)
    requires
        wf_times(*rem, periods@, now as int),
    ensures
        advance_actions_ok(a@, *rem, periods@, now),
{
    match rem.position {
        Some(pos) => {
            let m = advance_multi(rem.fire_time, pos, periods, rem.expires_at, now);
            let a = match m {
                MultiOutcome::Reschedule { fire_time, position } => vec![
                    StoreAction::UpdateFireTime {
                        reminder: rem.id,
                        fire_time,
                        position: Some(position),
                    },
                ],
                MultiOutcome::Delete => vec![StoreAction::Delete { reminder: rem.id }],
            };
            proof {
                assert(a@ =~= multi_actions(m, rem.id));
            }
            a
        },
        None => {
            let o = advance(rem.fire_time, rem.interval, rem.expires_at, now);
            let a = match o {
                Outcome::Reschedule { fire_time } => vec![
                    StoreAction::UpdateFireTime {
                        reminder: rem.id,
                        fire_time,
                        position: None,
                    },
                ],
                Outcome::Delete => vec![StoreAction::Delete { reminder: rem.id }],
            };
            proof {
                assert(a@ =~= scalar_actions(o, rem.id));
            }
            a
        },
    }
}

// ---------------------------------------------------------------------------
// The tick pipeline
// ---------------------------------------------------------------------------

/// The delivery target the resolver picks for `d`.
pub open spec fn target_matches(t: Target, d: ReminderDetails, webhook: bool) -> bool {
    if webhook {
        &&& t matches Target::Webhook { id, token } && d.channel.webhook_id == Some(id) && (
        d.channel.webhook_token matches Some(wt) && token@ == wt@)
    } else {
        t matches Target::Channel { id } && id == d.channel.channel
    }
}

/// Starts one tick for a fired reminder. A reminder that may not be sent
/// — disabled, or on a pause-muted channel — is only advanced: its
/// occurrence is consumed without delivery. Otherwise the payload is
/// composed for the resolved target and one delivery is requested; a
/// channel whose pause has lapsed is repaired first.
pub fn begin_tick(
    d: &ReminderDetails,
    message: &Message,
    embed: Option<&Embed>,
    periods: &Vec<u64>,
    token: &String,
    now: u64,
) -> (r: TickPlan)
    requires
        d.channel.wf(),
        wf_times(d.reminder, periods@, now as int),
    ensures
        !spec_should_send(*d, now as int) ==> r.next is Done && advance_actions_ok(
            r.actions@,
            d.reminder,
            periods@,
            now,
        ),
        spec_should_send(*d, now as int) ==> {
            &&& (spec_pause_elapsed(d.channel, now as int) ==> r.actions@ =~= seq![
                StoreAction::ClearPause { channel: d.channel.id },
            ])
            &&& (!spec_pause_elapsed(d.channel, now as int) ==> r.actions@ =~= Seq::<
                StoreAction,
            >::empty())
            &&& (r.next matches TickNext::Deliver { payload, target, channel, fallback, pin, wait }
                && {
                &&& payload_ok(
                    payload,
                    *d,
                    *message,
                    embed_value(embed),
                    token@,
                    now as int,
                    d.spec_is_webhook(),
                )
                &&& target_matches(target, *d, d.spec_is_webhook())
                &&& channel == d.channel.channel
                &&& fallback == d.spec_is_webhook()
                &&& pin == d.reminder.pin
                &&& wait == (d.reminder.pin || d.reminder.restartable)
            })
        },
{
    if !d.should_send(now) {
        TickPlan { actions: advance_actions(&d.reminder, periods, now), next: TickNext::Done }
    } else {
        let mut actions: Vec<StoreAction> = Vec::new();
        if d.pause_elapsed(now) {
            actions.push(StoreAction::ClearPause { channel: d.channel.id });
        }
        let webhook = d.is_going_to_webhook();
        let payload = compose_payload(d, message, embed, token, now as i64, webhook);
        let target = if webhook {
            match (&d.channel.webhook_id, &d.channel.webhook_token) {
                (Some(id), Some(tok)) => Target::Webhook { id: *id, token: tok.clone() },
                _ => Target::Channel { id: d.channel.channel },
            }
        } else {
            Target::Channel { id: d.channel.channel }
        };
        TickPlan {
            actions,
            next: TickNext::Deliver {
                payload,
                target,
                channel: d.channel.channel,
                fallback: webhook,
                pin: d.reminder.pin,
                wait: d.reminder.pin || d.reminder.restartable,
            },
        }
    }
}

/// Interprets the outcome of the delivery that `begin_tick` (or a
/// fallback retry) asked for, and finishes the tick.
///
/// A delivered reminder, and one that failed transiently (rate limited
/// or otherwise), is advanced under its recurrence policy — so a
/// one-shot reminder is deleted either way. A webhook that no longer
/// exists (`fallback` still true) has its stored credentials cleared and
/// the delivery is retried exactly once against the direct channel; a
/// direct channel that no longer exists deletes the reminder outright.
/// An attempt with `fallback` false never asks for another delivery.
pub fn on_delivery_outcome(
    d: &ReminderDetails,
    message: &Message,
    embed: Option<&Embed>,
    periods: &Vec<u64>,
    token: &String,
    now: u64,
    outcome: DeliveryOutcome,
    fallback: bool,
) -> (r: TickPlan)
    requires
        d.channel.wf(),
        wf_times(d.reminder, periods@, now as int),
    ensures
        !fallback ==> r.next is Done,
        r.next matches TickNext::Deliver { .. } ==> (outcome is NotFound && fallback),
        match outcome {
            DeliveryOutcome::Delivered => r.next is Done && advance_actions_ok(
                r.actions@,
                d.reminder,
                periods@,
                now,
            ),
            DeliveryOutcome::NotFound => if fallback {
                &&& r.actions@ =~= seq![StoreAction::ClearWebhook { channel: d.channel.id }]
                &&& (r.next matches TickNext::Deliver {
                    payload,
                    target,
                    channel,
                    fallback: f2,
                    pin,
                    wait,
                } && {
                    &&& payload_ok(
                        payload,
                        *d,
                        *message,
                        embed_value(embed),
                        token@,
                        now as int,
                        false,
                    )
                    &&& target_matches(target, *d, false)
                    &&& channel == d.channel.channel
                    &&& f2 == false
                    &&& pin == d.reminder.pin
                    &&& wait == (d.reminder.pin || d.reminder.restartable)
                })
            } else {
                r.next is Done && r.actions@ =~= seq![
                    StoreAction::Delete { reminder: d.reminder.id },
                ]
            },
            DeliveryOutcome::RateLimited => r.next is Done && advance_actions_ok(
                r.actions@,
                d.reminder,
                periods@,
                now,
            ),
            DeliveryOutcome::Other => r.next is Done && advance_actions_ok(
                r.actions@,
                d.reminder,
                periods@,
                now,
            ),
        },
{
    match outcome {
        DeliveryOutcome::NotFound => {
            if fallback {
                let payload = compose_payload(d, message, embed, token, now as i64, false);
                TickPlan {
                    actions: vec![StoreAction::ClearWebhook { channel: d.channel.id }],
                    next: TickNext::Deliver {
                        payload,
                        target: Target::Channel { id: d.channel.channel },
                        channel: d.channel.channel,
                        fallback: false,
                        pin: d.reminder.pin,
                        wait: d.reminder.pin || d.reminder.restartable,
                    },
                }
            } else {
                TickPlan {
                    actions: vec![StoreAction::Delete { reminder: d.reminder.id }],
                    next: TickNext::Done,
                }
            }
        },
        _ => {
            let a = advance_actions(&d.reminder, periods, now);
            TickPlan { actions: a, next: TickNext::Done }
        },
    }
}

} // verus!
