//! The event channel between the network handlers and the simulation, and the
//! server that owns both ends of the simulation side.
use vstd::prelude::*;
use crossbeam_channel::{Receiver, Sender};
use crate::events::SocketEvent;
use crate::resource::GameRules;
use crate::simulation::{published, startup_system, tick, ClientSyncPacket, Simulation};
use crate::resource::GameState;

verus! {

/// Relies on crossbeam-channel's `Sender`, the producer end handed to network handlers.
#[verifier::external_type_specification]
#[verifier::external_body]
#[verifier::reject_recursive_types(T)]
pub struct ExSender<T>(Sender<T>);

/// Relies on crossbeam-channel's `Receiver`, the consumer end drained once per tick.
#[verifier::external_type_specification]
#[verifier::external_body]
#[verifier::reject_recursive_types(T)]
pub struct ExReceiver<T>(Receiver<T>);

pub type SocketEventSender = Sender<SocketEvent>;

pub type SocketEventReceiver = Receiver<SocketEvent>;

/// Relies on crossbeam_channel::unbounded: a new channel of unbounded capacity.
#[verifier::external_body]
pub fn create_socket_event_channel() -> (SocketEventSender, SocketEventReceiver) {
    crossbeam_channel::unbounded()
}

/// Relies on crossbeam_channel::Receiver::try_iter: takes every event queued at the
/// time of the call, in arrival order, without blocking. What is queued depends on
/// other threads, so nothing is promised of the result.
#[verifier::external_body]
fn drain_events(rx: &SocketEventReceiver) -> Vec<SocketEvent> {
    rx.try_iter().collect()
}

/// The consumer end of the event channel.
#[derive(Debug)]
pub struct SocketChannel(pub SocketEventReceiver);

/// A running game together with the channel it drains.
#[derive(Debug)]
pub struct GameServer {
    pub simulation: Simulation,
    pub socket_channel: SocketChannel,
}

impl GameServer {
    /// Drains the channel and runs one tick on what came out. Whatever was queued, the
    /// game moves by one tick over some sequence of events, and the packet describes the
    /// state after it.
    pub fn tick(&mut self) -> (r: Option<ClientSyncPacket>)
        requires
            old(self).simulation.wf(),
            old(self).simulation.game_state.tick_count < u32::MAX,
        ensures
            exists|evs: Seq<SocketEvent>| final(self).simulation.model() == #[trigger] tick(
                old(self).simulation.model(),
                evs,
            ),
            final(self).simulation.wf(),
            final(self).simulation.game_state.tick_count == old(self).simulation.game_state.tick_count + 1,
            published(r, final(self).simulation.model(), old(self).simulation.game_state.tick_count),
    {
        let events = drain_events(&self.socket_channel.0);
        let r = self.simulation.run_tick(&events);
        assert(final(self).simulation.model() == tick(old(self).simulation.model(), events@));
        r
    }
}

/// Sets up a game server: a fresh game with the default rules, and a channel whose
/// producer end is returned for the network handlers.
pub struct AzasTowerPlugin;

impl AzasTowerPlugin {
    pub fn build(&self) -> (r: (SocketEventSender, GameServer))
        ensures
            r.1.simulation.wf(),
            r.1.simulation.model().entities.len() == 0,
            r.1.simulation.model().messages.len() == 0,
            r.1.simulation.game_state.total_players == 0,
            r.1.simulation.game_state.tick_count == 0,
            r.1.simulation.rules.max_players == crate::resource::DEFAULT_MAX_PLAYERS,
    {
        let mut state = GameState::new();
        let rules: GameRules = startup_system(&mut state);
        let (tx, rx) = create_socket_event_channel();
        (tx, GameServer { simulation: Simulation::new(rules), socket_channel: SocketChannel(rx) })
    }
}

} // verus!
