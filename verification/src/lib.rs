//! A reactive adapter for polling-based window event sources.
//!
//! The crate turns a non-blocking event source (anything that can answer
//! `should_close` and `poll_event`) into a set of typed reactive channels:
//! discrete streams for button and text events, and continuously sampled
//! signals for window geometry, cursor position, scroll-wheel accumulation
//! and focus. A fixed-tick scheduler paces rendering against a target frame
//! rate, draining all pending events each tick and absorbing clock drift
//! into its bookkeeping.

pub mod event;
pub mod scheduler;
pub mod sinks;
pub mod source_win;
pub mod stream;
