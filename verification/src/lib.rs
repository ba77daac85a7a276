//! A heartbeat pusher: the rules of a service that tells a monitoring endpoint
//! that it is alive, by one HTTP GET on a fixed interval, until a signal stops
//! it.
//!
//! The library holds what the service decides: how its settings are read
//! ([`config`], [`decimal`]), how the outcome of a push is reported ([`push`]),
//! what each event of the loop leads to ([`machine`]), and how a log line is
//! written ([`logging`]). Waiting for the timer and the signals, sending the
//! request and printing are left to the program that drives it.

pub mod config;
pub mod decimal;
pub mod logging;
pub mod machine;
pub mod push;
