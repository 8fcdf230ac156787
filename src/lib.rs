//! Lifecycle of GPU rendering objects, verified: shaders (new, loaded,
//! compiled), programs (new, linked) sharing compiled shaders by reference
//! count, vertex buffers, and single-use draw passes.
//!
//! The library issues no backend call itself. Each operation appends the
//! backend calls it makes to a queue of `Command`s, in order, and takes what
//! only the backend can tell (handles, compile and link status, logs,
//! uniform and attribute locations) as arguments; the caller performs the
//! queue against the real rendering API.

pub mod buffer;
pub mod command;
pub mod error;
pub mod pass;
pub mod program;
pub mod shader;
