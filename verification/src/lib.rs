//! The reactive core of a window-owning application shell.
//!
//! A host event loop drives the shell through two callbacks: one when the
//! application may create its window, one per window event. The decisions
//! made in those callbacks live here as functions from the adapter's state and
//! an event to the next state and the requests to hand back to the host, so
//! that every reaction has a contract. Creating the window, asking for a
//! redraw and stopping the loop are left to the caller.

pub mod engine;
pub mod event;
pub mod laws;
pub mod platform;

pub use crate::engine::Engine;
