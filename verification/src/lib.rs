//! Decision logic for driving an operating-system event-tracing session.
//!
//! The tracing facility calls back into the process from arbitrary threads,
//! possibly after a session was asked to close. This crate holds the parts of
//! that interaction that can be reasoned about: the validity checks on raw
//! handles, the registry of live callback contexts, the dispatch decision taken
//! for every delivered record, and, for each session operation, what is asked
//! of the tracing facility and what its answer means.
//!
//! Nothing here talks to the operating system. Every operation is split in
//! two: a function that decides what to ask for, and a function that turns the
//! returned status into a typed result.

pub mod callback;
pub mod error;
pub mod handles;
pub mod provider;
pub mod registry;
pub mod session;
pub mod status;
pub mod subscription;
