//! Verified cores of three small programs: a greeting service, a URL
//! shortener, and the per-frame simulation of a top-down ball game.
//!
//! Everything here is plain computation with contracts. Sockets, windows,
//! sprites and sound live with the caller.

pub mod address;
pub mod game;
pub mod hello;
pub mod id_provider;
pub mod shortener;
