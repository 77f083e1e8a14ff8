//! Cheapest-hour selection over a day's half-hourly electricity price series.
//!
//! The library owns the logic of the service: forming one-hour candidate
//! windows from adjacent half-hour slots, selecting the cheapest window with
//! a first-seen tie-break, picking tomorrow's calendar day range, and
//! composing the notification sentence. Fetching rates, timezone conversion
//! and message delivery are left to the surrounding binary.

pub mod aggregator;
pub mod calendar;
pub mod message;
