//! Reminder scheduling and dispatch engine.
//!
//! The library selects nothing and sends nothing by itself: it holds the
//! verified logic of a reminder service. Given a due reminder, its channel,
//! its message and embed records, and the current time, it decides whether
//! the reminder is suppressed, composes the outbound payload, chooses the
//! delivery target, interprets the delivery outcome (with a single webhook
//! fallback), and computes the store actions that reschedule or delete the
//! reminder. The surrounding process performs the store and network calls.

pub mod text;

pub mod duration_fmt;

pub mod substitutions;

pub mod recurrence;

pub mod models;

pub mod model_traits;

pub mod dispatch;
