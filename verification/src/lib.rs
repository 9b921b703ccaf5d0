//! Decision logic for filesystem operations: copy, move, delete, link,
//! list and enumerate volumes.
//!
//! The library performs no I/O. Each operation is a [`job::Job`] that asks its
//! driver to perform one [`host::Action`] at a time and decides, from the
//! [`host::Reply`], what to do next.
//!
//! - [`host`]: the actions and replies exchanged with the host.
//! - [`outcome`]: results, errors and their string-typed forms.
//! - [`messages`]: the texts shown to the caller.
//! - [`rules`]: the transition function that defines every operation.
//! - [`job`]: the executable jobs, proved to follow the rules.
//! - [`listing`]: which directory entries a listing hands out.
//! - [`volumes`]: mount points and drive letters.
//! - [`model`]: a mathematical filesystem, the reference host.
//! - [`laws`]: what the operations achieve, proved against the reference host.

pub mod host;
pub mod job;
pub mod laws;
pub mod listing;
pub mod messages;
pub mod model;
pub mod outcome;
pub mod rules;
pub mod volumes;
