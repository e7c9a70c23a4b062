//! Triple-buffered video frame handoff between a decoder-driven producer
//! thread and a display-driven consumer thread, together with the ownership
//! protocol for the shared rendering context and the bookkeeping that keeps
//! the three GPU surfaces sized to the incoming frames.
//!
//! The GPU and windowing calls themselves live outside this crate; the
//! library holds the decisions: which surface each role points at, when a
//! completed frame changes hands, when the shared context may be used, and
//! when surfaces must be released and reallocated.

pub mod context;
pub mod ring;
pub mod session;
pub mod targets;
pub mod ui;
