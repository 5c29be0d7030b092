//! Negotiation and dispatch rules for a single-window GPU rendering environment.
//!
//! The crate holds the decisions of the environment: which surface format and
//! configuration are chosen, in which order the handshake with the platform
//! proceeds, and how window events drive the dispatch loop. Talking to the
//! window system and to the GPU is left to the caller, which performs each
//! requested action and reports what came of it.

pub mod builder;
pub mod driver;
pub mod env;
pub mod error;
pub mod scan;
pub mod surface;
