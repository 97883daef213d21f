//! A Pomodoro timer engine: the phase cycle, elapsed-time accounting and
//! settings of a focus/break timer, as a state machine over plain values.
//!
//! The engine never reads a clock. Every operation that depends on time takes
//! the current reading of a monotonic clock, in milliseconds, from its caller.
//! Nor does it talk to the user: an operation that has something to announce
//! returns a notice, and the caller delivers it.

pub mod app;
pub mod controller;
pub mod display;
pub mod notice;
pub mod phase;
pub mod settings;
pub mod theorems;
pub mod time;
