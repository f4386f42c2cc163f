//! Chart aggregation for a chat-export viewer: turns timestamped messages
//! into cached, ready-to-plot series for a fixed set of views.
//!
//! `charts` holds the views and the state that computes and caches their
//! data, `views` says what each view shows and `laws` what follows from it.
//! `series` is the data of a chart and `tally` the counting behind it.
//! `time` and `calendar` place an instant in its UTC day and month; the
//! months, and the text of a date, are asked of chrono.

pub mod calendar;
pub mod charts;
mod counting;
pub mod digits;
pub mod labels;
pub mod laws;
pub mod series;
pub mod t3_json;
pub mod tally;
pub mod time;
pub mod views;
