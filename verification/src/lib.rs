//! Automation core for a text-driven remote session service.
//!
//! The library holds the verified logic of the system: the account store and
//! its mutations, the session state machine that turns streamed server text
//! into commands and terminal outcomes, the wire-frame codec, the server-list
//! parser, the job-queue selection and retry policy, and the single-flight
//! gate. Socket I/O, persistence, and the chat front end live outside, in the
//! surrounding application, which calls into this crate with plain values.

pub mod account;
pub mod notify;
pub mod queue;
pub mod schedule;
pub mod selection;
pub mod session;
pub mod store;
pub mod text;
pub mod wire;
