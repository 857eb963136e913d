//! A one-shot stock decline alerter: given each watched ticker's recent daily
//! quotes, it detects declines beyond configured day/week thresholds, ranks
//! them, and renders one escaped rich-text alert message.
//!
//! Prices are fixed-point: integer cents. Thresholds and displayed deltas are
//! integer hundredths of a percent. Classification and ranking compare the
//! exact rational deltas; only the displayed delta is rounded.

pub mod engine;
pub mod escape;
pub mod format;
pub mod model;
pub mod numfmt;
pub mod process;
pub mod text;
