//! Properties of the tick scheduler that hold for every game and every event stream.
use vstd::prelude::*;
use crate::components::{ConnectionStatus, Position};
use crate::events::SocketEvent;
use crate::resource::GameState;
use crate::simulation::{apply, lemma_apply_wf, moved, step, tick, SimView};
use crate::store::{changed_since, lemma_changed_since_none, lemma_changed_since_single, with_position};

verus! {

/// The game after one tick for each batch of events, in order.
pub open spec fn run_ticks(s: SimView, batches: Seq<Seq<SocketEvent>>) -> SimView
    decreases batches.len(),
{
    if batches.len() == 0 {
        s
    } else {
        tick(run_ticks(s, batches.drop_last()), batches.last())
    }
}

pub proof fn lemma_tick_wf(s: SimView, evs: Seq<SocketEvent>)
    requires
        s.wf(),
        s.state.tick_count < u32::MAX,
    ensures
        tick(s, evs).wf(),
        tick(s, evs).state.tick_count == s.state.tick_count + 1,
        tick(s, evs).rules == s.rules,
{
    lemma_apply_wf(s, evs);
}

/// After N ticks the tick counter is exactly N higher, whatever events were drained.
pub proof fn law_tick_count_advances(s: SimView, batches: Seq<Seq<SocketEvent>>)
    requires
        s.wf(),
        s.state.tick_count + batches.len() <= u32::MAX,
    ensures
        run_ticks(s, batches).state.tick_count == s.state.tick_count + batches.len(),
        run_ticks(s, batches).wf(),
    decreases batches.len(),
{
    if batches.len() > 0 {
        law_tick_count_advances(s, batches.drop_last());
        lemma_tick_wf(run_ticks(s, batches.drop_last()), batches.last());
    }
}

/// A tick on an empty channel changes nothing but the tick counter.
pub proof fn law_empty_drain_only_ticks(s: SimView)
    ensures
        tick(s, Seq::<SocketEvent>::empty()) == (SimView {
            state: GameState { tick_count: (s.state.tick_count + 1) as u32, ..s.state },
            ..s
        }),
{
}

/// When nothing changed since the last broadcast, a tick without events reports no
/// changed entity; when one entity moved, it reports exactly that entity.
pub proof fn law_changed_set_is_exact(s: SimView, id: int, position: Position)
    requires
        s.wf(),
        s.state.tick_count < u32::MAX,
        forall|j: int| 0 <= j < s.entities.len() ==> s.entities[j].changed_at <= s.state.tick_count,
        0 <= id < s.entities.len(),
    ensures
        changed_since(tick(s, Seq::empty()).entities, s.state.tick_count) == Seq::<crate::components::PlayerBundle>::empty(),
        changed_since(tick(moved(s, id, position), Seq::empty()).entities, s.state.tick_count)
            == seq![with_position(s.entities[id], position, s.stamp()).bundle],
{
    lemma_changed_since_none(s.entities, s.state.tick_count);
    let m = moved(s, id, position);
    assert(tick(m, Seq::empty()).entities == m.entities);
    lemma_changed_since_single(m.entities, s.state.tick_count, id);
}

pub open spec fn is_disconnect_of(ev: SocketEvent, connection_id: Seq<char>) -> bool {
    ev is Disconnected && ev.connection_id()@ == connection_id
}

pub open spec fn is_offline(s: SimView, i: int) -> bool {
    s.entities[i].bundle.connection_status == ConnectionStatus::Offline
}

/// How one event can change an entity: rows are only added, keep their connection,
/// stay offline once offline, and go offline only on a disconnect of their connection.
pub proof fn lemma_step_frame(a: SimView, ev: SocketEvent)
    ensures
        step(a, ev).entities.len() >= a.entities.len(),
        forall|i: int| 0 <= i < a.entities.len()
            ==> #[trigger] step(a, ev).entities[i].bundle.connection_id == a.entities[i].bundle.connection_id,
        forall|i: int| 0 <= i < a.entities.len() && is_offline(a, i) ==> #[trigger] is_offline(step(a, ev), i),
        forall|i: int| 0 <= i < step(a, ev).entities.len() && #[trigger] is_offline(step(a, ev), i)
            && !(i < a.entities.len() && is_offline(a, i))
            ==> i < a.entities.len() && is_disconnect_of(ev, step(a, ev).entities[i].bundle.connection_id.0@),
{
}

/// Every entity that went offline did so on a disconnect of its own connection, drained
/// after the entity was spawned.
pub proof fn law_offline_follows_disconnect(s: SimView, evs: Seq<SocketEvent>)
    ensures
        forall|i: int| 0 <= i < apply(s, evs).entities.len() && #[trigger] is_offline(apply(s, evs), i)
            && !(i < s.entities.len() && is_offline(s, i))
            ==> exists|k: int| 0 <= k < evs.len()
                && is_disconnect_of(#[trigger] evs[k], apply(s, evs).entities[i].bundle.connection_id.0@)
                && i < apply(s, evs.take(k)).entities.len(),
    decreases evs.len(),
{
    if evs.len() > 0 {
        let p = evs.drop_last();
        let a = apply(s, p);
        let b = apply(s, evs);
        law_offline_follows_disconnect(s, p);
        lemma_step_frame(a, evs.last());
        assert forall|i: int| 0 <= i < b.entities.len() && #[trigger] is_offline(b, i)
            && !(i < s.entities.len() && is_offline(s, i))
            implies exists|k: int| 0 <= k < evs.len()
                && is_disconnect_of(#[trigger] evs[k], b.entities[i].bundle.connection_id.0@)
                && i < apply(s, evs.take(k)).entities.len() by {
            if i < a.entities.len() && is_offline(a, i) {
                let k = choose|k: int| 0 <= k < p.len()
                    && is_disconnect_of(#[trigger] p[k], a.entities[i].bundle.connection_id.0@)
                    && i < apply(s, p.take(k)).entities.len();
                assert(p.take(k) =~= evs.take(k));
                assert(evs[k] == p[k]);
                assert(b.entities[i].bundle.connection_id == a.entities[i].bundle.connection_id);
            } else {
                let k = evs.len() - 1;
                assert(evs.take(k) =~= p);
                assert(evs[k] == evs.last());
            }
        }
    }
}

} // verus!
