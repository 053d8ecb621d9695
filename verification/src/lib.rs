//! Theme resolution and scheduling for a desktop appearance manager.
//!
//! A catalog holds named themes, some of them tied to a time-of-day window.
//! The library decides which theme a request selects, by explicit name or by
//! the wall-clock time, and whether a persisted lock suppresses the automatic
//! switch. Every decision is a verified function from plain values to plain
//! values; reading files, the clock and the desktop settings is left to the
//! program that drives the library.

pub mod cli;
pub mod clock;
pub mod clock_order;
pub mod clock_text;
pub mod command;
pub mod config;
pub mod context;
pub mod decimal;
pub mod gsettings;
pub mod handlers;
pub mod invocation;
pub mod logging;
pub mod parse_error;
pub mod report;
pub mod span;
pub mod text;
pub mod theme;
pub mod util;
