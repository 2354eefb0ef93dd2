//! A verified environment control bridge: it exposes a continuously running
//! simulation to an external client as a synchronous, step/reset/observe
//! environment.
//!
//! The bridge owns one shared state block ([`state::AIGymState`]), the
//! arithmetic of the frame capture pipeline ([`capture`]), the tick gate that
//! decides each simulation tick whether to advance, pause or reset ([`gate`]),
//! and the control-server operations that answer the three client requests
//! ([`server`]).

use vstd::prelude::*;

pub mod capture;
pub mod gate;
pub mod server;
pub mod state;

verus! {

/// Largest reward magnitude the bridge accepts; keeps the difference of any
/// two recorded rewards inside `i64`.
pub const REWARD_LIMIT: i64 = 0x3fff_ffff_ffff_ffff;

} // verus!
