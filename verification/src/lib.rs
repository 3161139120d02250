//! Validation and decimal normalization of third-party oracle price feeds.
//!
//! A caller hands in a decoded feed reading (mantissa, decimal scale,
//! confidence, publish time) together with the feed account's owner tag,
//! the current time and the acceptance thresholds; the library checks
//! ownership, freshness and confidence, and rescales the price to the
//! caller's desired decimal scale with checked, exact integer arithmetic.

pub mod convert;
pub mod errors;
pub mod feed;
pub mod pow10;
pub mod service;
pub mod validate;
