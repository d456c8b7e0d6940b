//! A deterministic temporal-event model: pure values that, given a single
//! "now" instant, compute normalized progress and sets of past-event
//! timestamps anchored to arbitrary trigger points.

pub mod event;
pub mod frame;
pub mod progress;
pub mod scatter;
pub mod timebase;
