//! Threshold-crossing notifications for a currency cross-rate.
//!
//! Prices and thresholds are held as fixed-point integers (millionths of a unit),
//! so that the crossing decision and all message rendering are exact and verified.
pub mod forex;
pub mod monitor;
pub mod notify;
pub mod rate;
pub mod text;
