//! An entity synchronisation engine for a real-time multiplayer presence server.
use vstd::prelude::*;

pub mod channel;
pub mod components;
pub mod events;
pub mod laws;
pub mod messages;
pub mod resource;
pub mod simulation;
pub mod store;
pub mod users;

verus! {

} // verus!
