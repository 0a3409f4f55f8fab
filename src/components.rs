//! Components attached to every player entity, and the bundle that groups them.
use vstd::prelude::*;

verus! {

/// Whether the transport connection behind an entity is still alive.
#[derive(Clone, Copy, Debug, PartialEq, Eq, Structural)]
pub enum ConnectionStatus {
    Online,
    Offline,
}

/// A position on the game grid.
#[derive(Clone, Copy, Debug, PartialEq, Eq, Structural)]
pub struct Position {
    pub x: i16,
    pub y: i16,
}

impl Position {
    /// The origin, where every entity is spawned.
    pub open spec fn origin() -> Position {
        Position { x: 0, y: 0 }
    }
}

impl Default for Position {
    fn default() -> (r: Position)
        ensures
            r == Position::origin(),
    {
        Position { x: 0, y: 0 }
    }
}

/// The transport-level identifier of the connection that owns an entity.
#[derive(Debug)]
pub struct ConnectionId(pub String);

impl ConnectionId {
    /// An equal copy.
    pub fn duplicate(&self) -> (r: ConnectionId)
        ensures
            r == *self,
    {
        ConnectionId(self.0.clone())
    }
}

/// A display name chosen by a player.
#[derive(Debug)]
pub struct Username(pub String);

/// Marker carried by every player entity.
#[derive(Clone, Copy, Debug, PartialEq, Eq, Structural)]
pub struct Player;

/// Marker for an entity whose connection is alive.
#[derive(Clone, Copy, Debug, PartialEq, Eq, Structural)]
pub struct Online;

/// Marker for an entity whose connection has closed.
#[derive(Clone, Copy, Debug, PartialEq, Eq, Structural)]
pub struct Offline;

/// The identifier of an entity: its index in the entity store.
#[derive(Clone, Copy, Debug, PartialEq, Eq, Structural)]
pub struct Entity(pub usize);

/// A point in the plane.
#[derive(Clone, Copy, Debug, PartialEq, Eq, Structural)]
pub struct Point(pub i32, pub i32);

/// The full component set of a player entity.
#[derive(Debug)]
pub struct PlayerBundle {
    pub player: Player,
    pub name: String,
    pub position: Position,
    pub connection_id: ConnectionId,
    pub connection_status: ConnectionStatus,
}

impl PlayerBundle {
    /// The bundle of a freshly connected player: at the origin and online.
    pub open spec fn spawned(name: String, connection_id: String) -> PlayerBundle {
        PlayerBundle {
            player: Player,
            name,
            position: Position::origin(),
            connection_id: ConnectionId(connection_id),
            connection_status: ConnectionStatus::Online,
        }
    }

    pub fn new(name: String, connection_id: String) -> (r: PlayerBundle)
        ensures
            r == PlayerBundle::spawned(name, connection_id),
    {
        PlayerBundle {
            player: Player,
            name,
            position: Position { x: 0, y: 0 },
            connection_id: ConnectionId(connection_id),
            connection_status: ConnectionStatus::Online,
        }
    }

    /// An equal copy, detached from the store it was read from.
    pub fn snapshot(&self) -> (r: PlayerBundle)
        ensures
            r == *self,
    {
        PlayerBundle {
            player: self.player,
            name: self.name.clone(),
            position: self.position,
            connection_id: self.connection_id.duplicate(),
            connection_status: self.connection_status,
        }
    }

    pub open spec fn is_online_with(&self, connection_id: Seq<char>) -> bool {
        self.connection_id.0@ == connection_id && self.connection_status == ConnectionStatus::Online
    }
}

} // verus!
