//! Core of a party-style multiplayer racing game: phones connect as
//! controllers and a single-threaded simulation consumes their input.
//!
//! The crate covers the pieces whose correctness is subtle and proved here:
//! the wire codec for controller packets, the edge-latching button state
//! store, the player slot mapper, the connection-id registry, the
//! per-connection lifecycle state machine, the relay consumer that applies
//! network events to simulation state, and the track follower that turns
//! positions into monotonic lap/sector progress.
//!
//! Rendering, physics, asset loading and the actual network transport are
//! external collaborators: they hand this crate plain values (positions as
//! fixed-point coordinates, frames as byte strings) and read plain values
//! back.

pub mod codec;
pub mod config;
pub mod connection;
pub mod controls;
pub mod mapping;
pub mod protocol;
pub mod relay;
pub mod session;
pub mod track;
