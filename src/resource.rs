//! Process-wide counters and rules owned by the simulation.
use vstd::prelude::*;

verus! {

/// The player cap that a new game starts with.
pub const DEFAULT_MAX_PLAYERS: u32 = 10;

/// Global counters of a running game.
#[derive(Clone, Copy, Debug, PartialEq, Eq, Structural)]
pub struct GameState {
    /// Number of entities currently online.
    pub total_players: u32,
    /// Number of ticks run so far.
    pub tick_count: u32,
}

impl GameState {
    pub fn new() -> (r: GameState)
        ensures
            r.total_players == 0,
            r.tick_count == 0,
    {
        GameState { total_players: 0, tick_count: 0 }
    }
}

/// Rules fixed when the game starts.
#[derive(Clone, Copy, Debug, PartialEq, Eq, Structural)]
pub struct GameRules {
    /// Connections beyond this many online players are not given an entity.
    pub max_players: u32,
}

} // verus!
