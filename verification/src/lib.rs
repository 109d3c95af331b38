//! Runtime-decoupling core for an asynchronous server stack.
//!
//! This crate defines the abstractions through which a server performs
//! time-based suspension (sleep, deadline, periodic tick) and orchestrates
//! graceful shutdown of live connections, without hard-wiring itself to one
//! concrete concurrency runtime:
//!
//! - [`rt`] — the capability traits ([`rt::Timer`], [`rt::Sleep`],
//!   [`rt::Interval`], [`rt::Executor`]) and the uniform handles they hand
//!   out ([`rt::SleepHandle`], [`rt::TickSource`]);
//! - [`time`] — the plain nanosecond-counter time values the contracts speak
//!   of;
//! - [`sim`] — a deterministic, manually advanced clock implementing the
//!   capability traits;
//! - [`tim`] — the configured-or-absent timer selection, resolved once at
//!   server construction;
//! - [`drain`] — the one-shot broadcast channel that fans a shutdown trigger
//!   out to every in-flight connection and counts their releases down to
//!   zero;
//! - [`shutdown`] — the graceful-shutdown orchestrator driving the drain
//!   channel to completion;
//! - [`body`] — concatenation of buffered body chunks into one contiguous
//!   buffer.
//!
//! The decision logic of each component is specified and verified here; the
//! suspension itself (awaiting a wake-up, polling a socket) is the host
//! runtime's business, and the embedder drives these state machines with the
//! events it observes.

pub mod body;
pub mod drain;
pub mod rt;
pub mod shutdown;
pub mod sim;
pub mod tim;
pub mod time;
