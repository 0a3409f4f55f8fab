//! The entity store: an append-only table of player entities with change tracking.
use vstd::prelude::*;
use crate::components::{ConnectionStatus, Entity, PlayerBundle, Position};

verus! {

/// One row of the store: an entity's components and the tick in whose broadcast
/// its latest change belongs.
#[derive(Debug)]
pub struct EntityRecord {
    pub bundle: PlayerBundle,
    pub changed_at: u32,
}

/// All entities ever spawned, in spawn order. An entity's identifier is its row.
#[derive(Debug)]
pub struct EntityStore {
    pub records: Vec<EntityRecord>,
}

/// The row after the entity's status is set, stamped with `stamp`.
pub open spec fn with_status(r: EntityRecord, status: ConnectionStatus, stamp: u32) -> EntityRecord {
    EntityRecord { bundle: PlayerBundle { connection_status: status, ..r.bundle }, changed_at: stamp }
}

/// The row after the entity moves to `position`, stamped with `stamp`.
pub open spec fn with_position(r: EntityRecord, position: Position, stamp: u32) -> EntityRecord {
    EntityRecord { bundle: PlayerBundle { position, ..r.bundle }, changed_at: stamp }
}

pub open spec fn online_count(r: EntityRecord) -> nat {
    if r.bundle.connection_status == ConnectionStatus::Online { 1 } else { 0 }
}

/// How many entities are online.
pub open spec fn count_online(rs: Seq<EntityRecord>) -> nat
    decreases rs.len(),
{
    if rs.len() == 0 { 0 } else { count_online(rs.drop_last()) + online_count(rs.last()) }
}

/// The components of the entities changed after tick `since`, in spawn order.
pub open spec fn changed_since(rs: Seq<EntityRecord>, since: u32) -> Seq<PlayerBundle>
    decreases rs.len(),
{
    if rs.len() == 0 {
        seq![]
    } else if rs.last().changed_at > since {
        changed_since(rs.drop_last(), since).push(rs.last().bundle)
    } else {
        changed_since(rs.drop_last(), since)
    }
}

/// The rows after every online entity of `connection_id` goes offline, stamped with `stamp`.
pub open spec fn went_offline(rs: Seq<EntityRecord>, connection_id: Seq<char>, stamp: u32) -> Seq<EntityRecord> {
    Seq::new(
        rs.len(),
        |i: int|
            if rs[i].bundle.is_online_with(connection_id) {
                with_status(rs[i], ConnectionStatus::Offline, stamp)
            } else {
                rs[i]
            },
    )
}

pub proof fn lemma_count_online_bound(rs: Seq<EntityRecord>)
    ensures
        count_online(rs) <= rs.len(),
    decreases rs.len(),
{
    if rs.len() > 0 {
        lemma_count_online_bound(rs.drop_last());
    }
}

pub proof fn lemma_count_online_push(rs: Seq<EntityRecord>, r: EntityRecord)
    ensures
        count_online(rs.push(r)) == count_online(rs) + online_count(r),
{
    assert(rs.push(r).drop_last() =~= rs);
}

pub proof fn lemma_count_online_update(rs: Seq<EntityRecord>, i: int, r: EntityRecord)
    requires
        0 <= i < rs.len(),
    ensures
        count_online(rs.update(i, r)) + online_count(rs[i]) == count_online(rs) + online_count(r),
    decreases rs.len(),
{
    if i < rs.len() - 1 {
        assert(rs.update(i, r).drop_last() =~= rs.drop_last().update(i, r));
        lemma_count_online_update(rs.drop_last(), i, r);
    } else {
        assert(rs.update(i, r).drop_last() =~= rs.drop_last());
    }
}

/// Nothing is reported as changed after the latest stamp.
pub proof fn lemma_changed_since_none(rs: Seq<EntityRecord>, since: u32)
    requires
        forall|j: int| 0 <= j < rs.len() ==> rs[j].changed_at <= since,
    ensures
        changed_since(rs, since) == Seq::<PlayerBundle>::empty(),
    decreases rs.len(),
{
    if rs.len() > 0 {
        lemma_changed_since_none(rs.drop_last(), since);
    }
}

/// A store where only row `i` changed after `since` reports that row alone.
pub proof fn lemma_changed_since_single(rs: Seq<EntityRecord>, since: u32, i: int)
    requires
        0 <= i < rs.len(),
        rs[i].changed_at > since,
        forall|j: int| 0 <= j < rs.len() && j != i ==> rs[j].changed_at <= since,
    ensures
        changed_since(rs, since) == seq![rs[i].bundle],
    decreases rs.len(),
{
    if i < rs.len() - 1 {
        lemma_changed_since_single(rs.drop_last(), since, i);
    } else {
        lemma_changed_since_none(rs.drop_last(), since);
        assert(Seq::<PlayerBundle>::empty().push(rs[i].bundle) =~= seq![rs[i].bundle]);
    }
}

impl EntityStore {
    pub open spec fn len(&self) -> nat {
        self.records@.len()
    }

    pub fn new() -> (r: EntityStore)
        ensures
            r.records@.len() == 0,
    {
        EntityStore { records: Vec::new() }
    }

    /// Number of entities ever spawned.
    pub fn entity_count(&self) -> (r: usize)
        ensures
            r == self.records@.len(),
    {
        self.records.len()
    }

    /// Adds an online entity at the origin; its row counts as changed at `stamp`.
    pub fn spawn(&mut self, name: String, connection_id: String, stamp: u32) -> (id: Entity)
        ensures
            id.0 == old(self).records@.len(),
            final(self).records@ == old(self).records@.push(
                EntityRecord { bundle: PlayerBundle::spawned(name, connection_id), changed_at: stamp },
            ),
    {
        let id = Entity(self.records.len());
        self.records.push(EntityRecord { bundle: PlayerBundle::new(name, connection_id), changed_at: stamp });
        id
    }

    /// The components of an entity.
    pub fn get(&self, id: Entity) -> (r: &PlayerBundle)
        requires
            id.0 < self.records@.len(),
        ensures
            *r == self.records@[id.0 as int].bundle,
    {
        &self.records[id.0].bundle
    }

    /// The most recently spawned entity of a connection, if any.
    pub fn find_by_connection_id(&self, connection_id: &String) -> (r: Option<Entity>)
        ensures
            match r {
                Some(id) => id.0 < self.records@.len()
                    && self.records@[id.0 as int].bundle.connection_id.0@ == connection_id@
                    && forall|j: int| id.0 < j < self.records@.len()
                        ==> self.records@[j].bundle.connection_id.0@ != connection_id@,
                None => forall|j: int| 0 <= j < self.records@.len()
                    ==> self.records@[j].bundle.connection_id.0@ != connection_id@,
            },
    {
        let mut i: usize = self.records.len();
        while i > 0
            invariant
                i <= self.records@.len(),
                forall|j: int| i <= j < self.records@.len()
                    ==> self.records@[j].bundle.connection_id.0@ != connection_id@,
            decreases i,
        {
            i = i - 1;
            if self.records[i].bundle.connection_id.0 == *connection_id {
                return Some(Entity(i));
            }
        }
        None
    }

    /// Sets an entity's status and stamps the change.
    pub fn set_status(&mut self, id: Entity, status: ConnectionStatus, stamp: u32)
        requires
            id.0 < old(self).records@.len(),
        ensures
            final(self).records@ == old(self).records@.update(
                id.0 as int,
                with_status(old(self).records@[id.0 as int], status, stamp),
            ),
    {
        let b = &self.records[id.0].bundle;
        let bundle = PlayerBundle {
            player: b.player,
            name: b.name.clone(),
            position: b.position,
            connection_id: b.connection_id.duplicate(),
            connection_status: status,
        };
        self.records[id.0] = EntityRecord { bundle, changed_at: stamp };
    }

    /// Moves an entity and stamps the change.
    pub fn set_position(&mut self, id: Entity, position: Position, stamp: u32)
        requires
            id.0 < old(self).records@.len(),
        ensures
            final(self).records@ == old(self).records@.update(
                id.0 as int,
                with_position(old(self).records@[id.0 as int], position, stamp),
            ),
    {
        let b = &self.records[id.0].bundle;
        let bundle = PlayerBundle {
            player: b.player,
            name: b.name.clone(),
            position,
            connection_id: b.connection_id.duplicate(),
            connection_status: b.connection_status,
        };
        self.records[id.0] = EntityRecord { bundle, changed_at: stamp };
    }

    /// Sets every online entity of a connection offline; returns how many there were.
    pub fn set_offline_by_connection_id(&mut self, connection_id: &String, stamp: u32) -> (n: usize)
        ensures
            final(self).records@ == went_offline(old(self).records@, connection_id@, stamp),
            n + count_online(final(self).records@) == count_online(old(self).records@),
    {
        let ghost start = self.records@;
        let mut n: usize = 0;
        let mut i: usize = 0;
        proof {
            lemma_count_online_bound(start);
        }
        while i < self.records.len()
            invariant
                self.records@.len() == start.len(),
                i <= start.len(),
                forall|j: int| 0 <= j < i ==> self.records@[j] == went_offline(start, connection_id@, stamp)[j],
                forall|j: int| i <= j < start.len() ==> self.records@[j] == start[j],
                n + count_online(self.records@) == count_online(start),
                n <= i,
            decreases start.len() - i,
        {
            let b = &self.records[i].bundle;
            if b.connection_id.0 == *connection_id && b.connection_status == ConnectionStatus::Online {
                let bundle = PlayerBundle {
                    player: b.player,
                    name: b.name.clone(),
                    position: b.position,
                    connection_id: b.connection_id.duplicate(),
                    connection_status: ConnectionStatus::Offline,
                };
                let rec = EntityRecord { bundle, changed_at: stamp };
                proof {
                    lemma_count_online_update(self.records@, i as int, rec);
                }
                self.records[i] = rec;
                n = n + 1;
            }
            i = i + 1;
        }
        assert(self.records@ =~= went_offline(start, connection_id@, stamp));
        n
    }

    /// Copies of the components of every entity changed after tick `since`, in spawn order.
    pub fn snapshot_changed_since(&self, since: u32) -> (r: Vec<PlayerBundle>)
        ensures
            r@ == changed_since(self.records@, since),
    {
        let mut out: Vec<PlayerBundle> = Vec::new();
        let mut i: usize = 0;
        while i < self.records.len()
            invariant
                i <= self.records@.len(),
                out@ == changed_since(self.records@.take(i as int), since),
            decreases self.records@.len() - i,
        {
            assert(self.records@.take(i + 1).drop_last() =~= self.records@.take(i as int));
            if self.records[i].changed_at > since {
                out.push(self.records[i].bundle.snapshot());
            }
            i = i + 1;
        }
        assert(self.records@.take(self.records@.len() as int) =~= self.records@);
        out
    }
}

} // verus!
