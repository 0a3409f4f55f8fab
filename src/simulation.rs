//! The tick-driven scheduler: drains events into the entity store, advances the
//! counters and builds the packet of what changed.
use vstd::prelude::*;
use crate::components::{Entity, PlayerBundle, Position};
use crate::events::SocketEvent;
use crate::messages::{GlobalMessages, ServerMessage};
use crate::resource::{GameRules, GameState, DEFAULT_MAX_PLAYERS};
use crate::store::{
    changed_since, count_online, lemma_count_online_push,
    lemma_count_online_update, went_offline, with_position, EntityRecord, EntityStore,
};

verus! {

/// The state of a running game as a mathematical value.
pub struct SimView {
    pub entities: Seq<EntityRecord>,
    pub state: GameState,
    pub messages: Seq<ServerMessage>,
    pub rules: GameRules,
}

impl SimView {
    /// The counters agree with the store, and no change is stamped past the next broadcast.
    pub open spec fn wf(&self) -> bool {
        &&& self.state.total_players == count_online(self.entities)
        &&& self.state.total_players <= self.rules.max_players
        &&& forall|j: int| 0 <= j < self.entities.len()
            ==> self.entities[j].changed_at <= self.state.tick_count + 1
    }

    /// The stamp of a change made before the next broadcast.
    pub open spec fn stamp(&self) -> u32 {
        (self.state.tick_count + 1) as u32
    }
}

/// The game after entity `id` moves to `position` between two ticks.
pub open spec fn moved(s: SimView, id: int, position: Position) -> SimView {
    SimView { entities: s.entities.update(id, with_position(s.entities[id], position, s.stamp())), ..s }
}

/// What one drained event does to the game.
pub open spec fn step(s: SimView, ev: SocketEvent) -> SimView {
    match ev {
        SocketEvent::Connected { context } => {
            if s.state.total_players < s.rules.max_players {
                SimView {
                    entities: s.entities.push(
                        EntityRecord {
                            bundle: PlayerBundle::spawned(context.socket_id, context.socket_id),
                            changed_at: s.stamp(),
                        },
                    ),
                    state: GameState { total_players: (s.state.total_players + 1) as u32, ..s.state },
                    ..s
                }
            } else {
                s
            }
        },
        SocketEvent::Disconnected { context, .. } => {
            let entities = went_offline(s.entities, context.socket_id@, s.stamp());
            SimView {
                entities,
                state: GameState { total_players: count_online(entities) as u32, ..s.state },
                ..s
            }
        },
        SocketEvent::Message { context, content } => SimView {
            messages: s.messages.push(ServerMessage::from_user(context.socket_id, content)),
            ..s
        },
    }
}

/// What a sequence of drained events does, in arrival order.
pub open spec fn apply(s: SimView, evs: Seq<SocketEvent>) -> SimView
    decreases evs.len(),
{
    if evs.len() == 0 {
        s
    } else {
        step(apply(s, evs.drop_last()), evs.last())
    }
}

/// One tick: drain the events, then advance the tick counter.
pub open spec fn tick(s: SimView, evs: Seq<SocketEvent>) -> SimView {
    let d = apply(s, evs);
    SimView { state: GameState { tick_count: (d.state.tick_count + 1) as u32, ..d.state }, ..d }
}

/// A packet is sent when an entity changed after `since` or there are messages to relay.
pub open spec fn publish_due(s: SimView, since: u32) -> bool {
    changed_since(s.entities, since).len() > 0 || s.messages.len() > 0
}

pub proof fn lemma_step_wf(s: SimView, ev: SocketEvent)
    requires
        s.wf(),
        s.state.tick_count < u32::MAX,
    ensures
        step(s, ev).wf(),
        step(s, ev).state.tick_count == s.state.tick_count,
        step(s, ev).rules == s.rules,
{
    match ev {
        SocketEvent::Connected { context } => {
            if s.state.total_players < s.rules.max_players {
                lemma_count_online_push(
                    s.entities,
                    EntityRecord {
                        bundle: PlayerBundle::spawned(context.socket_id, context.socket_id),
                        changed_at: s.stamp(),
                    },
                );
            }
        },
        SocketEvent::Disconnected { context, .. } => {
            lemma_went_offline_count(s.entities, context.socket_id@, s.stamp());
        },
        SocketEvent::Message { .. } => {},
    }
}

/// Taking entities offline never raises the online count.
pub proof fn lemma_went_offline_count(rs: Seq<EntityRecord>, connection_id: Seq<char>, stamp: u32)
    ensures
        count_online(went_offline(rs, connection_id, stamp)) <= count_online(rs),
    decreases rs.len(),
{
    if rs.len() > 0 {
        lemma_went_offline_count(rs.drop_last(), connection_id, stamp);
        assert(went_offline(rs, connection_id, stamp).drop_last() =~= went_offline(
            rs.drop_last(),
            connection_id,
            stamp,
        ));
    }
}

pub proof fn lemma_apply_wf(s: SimView, evs: Seq<SocketEvent>)
    requires
        s.wf(),
        s.state.tick_count < u32::MAX,
    ensures
        apply(s, evs).wf(),
        apply(s, evs).state.tick_count == s.state.tick_count,
        apply(s, evs).rules == s.rules,
    decreases evs.len(),
{
    if evs.len() > 0 {
        lemma_apply_wf(s, evs.drop_last());
        lemma_step_wf(apply(s, evs.drop_last()), evs.last());
    }
}

/// The packet holds the counters and messages of `s` and the entities changed after `since`.
pub open spec fn packet_of(p: ClientSyncPacket, s: SimView, since: u32) -> bool {
    &&& p.game_state == s.state
    &&& p.global_messages@ == s.messages
    &&& p.entities@ == changed_since(s.entities, since)
}

/// What a tick hands to the broadcast publisher, given the state after it.
pub open spec fn published(r: Option<ClientSyncPacket>, s: SimView, since: u32) -> bool {
    match r {
        Some(p) => publish_due(s, since) && packet_of(p, s, since),
        None => !publish_due(s, since),
    }
}

/// The state sent to every client after a tick.
#[derive(Debug)]
pub struct ClientSyncPacket {
    pub game_state: GameState,
    /// Every message received so far, oldest first.
    pub global_messages: Vec<ServerMessage>,
    /// The entities changed during the tick.
    pub entities: Vec<PlayerBundle>,
}

/// The scheduler and the state it owns.
#[derive(Debug)]
pub struct Simulation {
    pub store: EntityStore,
    pub game_state: GameState,
    pub global_messages: GlobalMessages,
    pub rules: GameRules,
}

/// Sets up a new game: the default player cap, and no player yet.
pub fn startup_system(game_state: &mut GameState) -> (rules: GameRules)
    ensures
        final(game_state).total_players == 0,
        final(game_state).tick_count == old(game_state).tick_count,
        rules.max_players == DEFAULT_MAX_PLAYERS,
{
    game_state.total_players = 0;
    GameRules { max_players: DEFAULT_MAX_PLAYERS }
}

/// Advances the tick counter.
pub fn update_game_state_system(game_state: &mut GameState)
    requires
        old(game_state).tick_count < u32::MAX,
    ensures
        final(game_state).tick_count == old(game_state).tick_count + 1,
        final(game_state).total_players == old(game_state).total_players,
{
    game_state.tick_count = game_state.tick_count + 1;
}

impl Simulation {
    pub open spec fn model(&self) -> SimView {
        SimView {
            entities: self.store.records@,
            state: self.game_state,
            messages: self.global_messages.0@,
            rules: self.rules,
        }
    }

    pub open spec fn wf(&self) -> bool {
        self.model().wf()
    }

    /// A game with no entity, no message, and counters at zero.
    pub fn new(rules: GameRules) -> (r: Simulation)
        ensures
            r.wf(),
            r.model().entities.len() == 0,
            r.model().messages.len() == 0,
            r.game_state.total_players == 0,
            r.game_state.tick_count == 0,
            r.rules == rules,
    {
        Simulation {
            store: EntityStore::new(),
            game_state: GameState::new(),
            global_messages: GlobalMessages::new(),
            rules,
        }
    }

    /// Applies one drained event.
    pub fn apply_event(&mut self, ev: &SocketEvent)
        requires
            old(self).wf(),
            old(self).game_state.tick_count < u32::MAX,
        ensures
            final(self).model() == step(old(self).model(), *ev),
            final(self).wf(),
    {
        proof {
            lemma_step_wf(self.model(), *ev);
        }
        let stamp = self.game_state.tick_count + 1;
        match ev {
            SocketEvent::Connected { context } => {
                if self.game_state.total_players < self.rules.max_players {
                    self.store.spawn(context.socket_id.clone(), context.socket_id.clone(), stamp);
                    self.game_state.total_players = self.game_state.total_players + 1;
                }
            },
            SocketEvent::Disconnected { context, .. } => {
                let n = self.store.set_offline_by_connection_id(&context.socket_id, stamp);
                self.game_state.total_players = self.game_state.total_players - n as u32;
            },
            SocketEvent::Message { context, content } => {
                self.global_messages.0.push(ServerMessage::from_user_exec(context, content));
            },
        }
    }

    /// Applies drained events in arrival order.
    pub fn socket_event_receiver_system(&mut self, events: &Vec<SocketEvent>)
        requires
            old(self).wf(),
            old(self).game_state.tick_count < u32::MAX,
        ensures
            final(self).model() == apply(old(self).model(), events@),
            final(self).wf(),
            final(self).game_state.tick_count == old(self).game_state.tick_count,
    {
        let ghost start = self.model();
        let mut i: usize = 0;
        while i < events.len()
            invariant
                i <= events@.len(),
                self.model() == apply(start, events@.take(i as int)),
                self.wf(),
                self.game_state.tick_count == start.state.tick_count,
                start.state.tick_count < u32::MAX,
            decreases events@.len() - i,
        {
            assert(events@.take(i + 1).drop_last() =~= events@.take(i as int));
            self.apply_event(&events[i]);
            i = i + 1;
        }
        assert(events@.take(events@.len() as int) =~= events@);
    }

    /// The packet to broadcast: counters, all messages, and the entities changed after
    /// tick `since`; none when no entity changed and there is no message.
    pub fn client_sync_system(&self, since: u32) -> (r: Option<ClientSyncPacket>)
        ensures
            published(r, self.model(), since),
    {
        let entities = self.store.snapshot_changed_since(since);
        if entities.len() == 0 && self.global_messages.0.len() == 0 {
            None
        } else {
            Some(
                ClientSyncPacket {
                    game_state: self.game_state,
                    global_messages: self.global_messages.to_vec(),
                    entities,
                },
            )
        }
    }

    /// Runs one tick on the drained events: apply them, advance the tick counter, and
    /// build the packet of what changed during the tick.
    pub fn run_tick(&mut self, events: &Vec<SocketEvent>) -> (r: Option<ClientSyncPacket>)
        requires
            old(self).wf(),
            old(self).game_state.tick_count < u32::MAX,
        ensures
            final(self).model() == tick(old(self).model(), events@),
            final(self).wf(),
            final(self).game_state.tick_count == old(self).game_state.tick_count + 1,
            published(r, final(self).model(), old(self).game_state.tick_count),
    {
        let since = self.game_state.tick_count;
        self.socket_event_receiver_system(events);
        update_game_state_system(&mut self.game_state);
        self.client_sync_system(since)
    }

    /// Moves an entity; the move is broadcast with the next tick.
    pub fn move_entity(&mut self, id: Entity, position: Position)
        requires
            old(self).wf(),
            old(self).game_state.tick_count < u32::MAX,
            id.0 < old(self).store.records@.len(),
        ensures
            final(self).model() == moved(old(self).model(), id.0 as int, position),
            final(self).wf(),
    {
        proof {
            let es = self.store.records@;
            lemma_count_online_update(es, id.0 as int, with_position(es[id.0 as int], position, self.model().stamp()));
        }
        let stamp = self.game_state.tick_count + 1;
        self.store.set_position(id, position, stamp);
    }
}

} // verus!
