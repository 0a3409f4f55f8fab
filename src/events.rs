//! Events that the network layer hands to the simulation.
use vstd::prelude::*;
use socketioxide::socket::DisconnectReason;

verus! {

/// Relies on socketioxide's `DisconnectReason`, carried through untouched.
#[verifier::external_type_specification]
#[verifier::external_body]
pub struct ExDisconnectReason(DisconnectReason);

/// Where an event came from.
#[derive(Clone, Debug)]
pub struct SocketContext {
    /// The transport-level connection identifier.
    pub socket_id: String,
    /// A server-generated opaque identifier of the player.
    pub player_id: u128,
}

/// One connection lifecycle or chat event.
#[derive(Debug)]
pub enum SocketEvent {
    Connected { context: SocketContext },
    Disconnected { context: SocketContext, reason: DisconnectReason },
    Message { context: SocketContext, content: String },
}

impl SocketEvent {
    /// The connection the event came from.
    pub open spec fn connection_id(&self) -> String {
        match self {
            SocketEvent::Connected { context } => context.socket_id,
            SocketEvent::Disconnected { context, .. } => context.socket_id,
            SocketEvent::Message { context, .. } => context.socket_id,
        }
    }
}

} // verus!
