//! Identity and trust for a federation of instances, each owning numbered
//! plots: who is calling, which instance owns a plot, and which plots trust
//! which. The library decides; its host talks to the database, the cache and
//! the peers.

use vstd::prelude::*;

pub mod api;
pub mod auth;
pub mod codec;
pub mod handshake;
pub mod instance;
pub mod keys;
pub mod store;
pub mod text;
pub mod world;

verus! {

/// Identifier of a plot. Real plots are never negative.
pub type PlotId = i32;

} // verus!
