//! A registry of connected users keyed by connection id, with partial updates.
use vstd::prelude::*;
use crate::components::Point;

verus! {

/// A connected user.
#[derive(Debug)]
pub struct User {
    pub name: String,
    pub position: Point,
}

impl User {
    /// An equal copy.
    pub fn duplicate(&self) -> (r: User)
        ensures
            r == *self,
    {
        User { name: self.name.clone(), position: self.position }
    }
}

impl Default for User {
    /// An unnamed user at the origin.
    fn default() -> (r: User)
        ensures
            r.name@.len() == 0,
            r.position == Point(0, 0),
    {
        User { name: String::new(), position: Point(0, 0) }
    }
}

/// The fields of a user to replace; `None` keeps the current value.
#[derive(Debug)]
pub struct UserUpdate {
    pub name: Option<String>,
    pub position: Option<Point>,
}

/// `user` with the fields that `update` holds replaced.
pub open spec fn updated(user: User, update: UserUpdate) -> User {
    User {
        name: match update.name {
            Some(n) => n,
            None => user.name,
        },
        position: match update.position {
            Some(p) => p,
            None => user.position,
        },
    }
}

/// One registered user and the connection id it is keyed by.
#[derive(Debug)]
pub struct UserEntry {
    pub id: String,
    pub user: User,
}

/// The user registered under `id`.
pub open spec fn lookup(us: Seq<UserEntry>, id: Seq<char>) -> Option<User>
    decreases us.len(),
{
    if us.len() == 0 {
        None
    } else if us.last().id@ == id {
        Some(us.last().user)
    } else {
        lookup(us.drop_last(), id)
    }
}

/// No two entries share an id.
pub open spec fn unique_ids(us: Seq<UserEntry>) -> bool {
    forall|i: int, j: int| 0 <= i < us.len() && 0 <= j < us.len() && i != j ==> us[i].id@ != us[j].id@
}

proof fn lemma_lookup_absent(us: Seq<UserEntry>, id: Seq<char>)
    requires
        forall|j: int| 0 <= j < us.len() ==> us[j].id@ != id,
    ensures
        lookup(us, id) == None::<User>,
    decreases us.len(),
{
    if us.len() > 0 {
        lemma_lookup_absent(us.drop_last(), id);
    }
}

proof fn lemma_lookup_at(us: Seq<UserEntry>, i: int)
    requires
        unique_ids(us),
        0 <= i < us.len(),
    ensures
        lookup(us, us[i].id@) == Some(us[i].user),
    decreases us.len(),
{
    if i < us.len() - 1 {
        lemma_lookup_at(us.drop_last(), i);
    }
}

proof fn lemma_lookup_update_other(us: Seq<UserEntry>, i: int, e: UserEntry, id: Seq<char>)
    requires
        0 <= i < us.len(),
        us[i].id@ == e.id@,
        id != e.id@,
    ensures
        lookup(us.update(i, e), id) == lookup(us, id),
    decreases us.len(),
{
    if i < us.len() - 1 {
        assert(us.update(i, e).drop_last() =~= us.drop_last().update(i, e));
        lemma_lookup_update_other(us.drop_last(), i, e, id);
    } else {
        assert(us.update(i, e).drop_last() =~= us.drop_last());
    }
}

proof fn lemma_lookup_remove(us: Seq<UserEntry>, i: int, id: Seq<char>)
    requires
        unique_ids(us),
        0 <= i < us.len(),
    ensures
        lookup(us.remove(i), id) == if id == us[i].id@ { None } else { lookup(us, id) },
    decreases us.len(),
{
    if i < us.len() - 1 {
        assert(us.remove(i).drop_last() =~= us.drop_last().remove(i));
        assert(us.remove(i).last() == us.last());
        lemma_lookup_remove(us.drop_last(), i, id);
    } else {
        assert(us.remove(i) =~= us.drop_last());
        if id == us[i].id@ {
            lemma_lookup_absent(us.drop_last(), id);
        }
    }
}

/// Every connected user, keyed by connection id.
#[derive(Debug)]
pub struct InnerGameState {
    pub users: Vec<UserEntry>,
}

impl InnerGameState {
    pub open spec fn wf(&self) -> bool {
        unique_ids(self.users@)
    }

    pub open spec fn user(&self, id: Seq<char>) -> Option<User> {
        lookup(self.users@, id)
    }

    pub fn new() -> (r: InnerGameState)
        ensures
            r.wf(),
            forall|id: Seq<char>| r.user(id) is None,
    {
        InnerGameState { users: Vec::new() }
    }

    fn index_of(&self, id: &String) -> (r: Option<usize>)
        ensures
            match r {
                Some(i) => i < self.users@.len() && self.users@[i as int].id@ == id@,
                None => forall|j: int| 0 <= j < self.users@.len() ==> self.users@[j].id@ != id@,
            },
    {
        let mut i: usize = 0;
        while i < self.users.len()
            invariant
                i <= self.users@.len(),
                forall|j: int| 0 <= j < i ==> self.users@[j].id@ != id@,
            decreases self.users@.len() - i,
        {
            if self.users[i].id == *id {
                return Some(i);
            }
            i = i + 1;
        }
        None
    }

    /// Registers `user` under `id`, replacing any user already there.
    pub fn add_user(&mut self, id: String, user: User)
        requires
            old(self).wf(),
        ensures
            final(self).wf(),
            forall|k: Seq<char>| #[trigger] final(self).user(k)
                == if k == id@ { Some(user) } else { old(self).user(k) },
    {
        let ghost us = self.users@;
        let ghost e = UserEntry { id, user };
        match self.index_of(&id) {
            Some(i) => {
                self.users[i] = UserEntry { id, user };
                proof {
                    assert forall|k: Seq<char>| #[trigger] lookup(self.users@, k)
                        == if k == e.id@ { Some(e.user) } else { lookup(us, k) } by {
                        if k == e.id@ {
                            lemma_lookup_at(self.users@, i as int);
                        } else {
                            lemma_lookup_update_other(us, i as int, e, k);
                        }
                    }
                }
            },
            None => {
                self.users.push(UserEntry { id, user });
                assert(forall|k: Seq<char>| #[trigger] lookup(self.users@, k)
                    == if k == e.id@ { Some(e.user) } else { lookup(us, k) }) by {
                    assert(self.users@.drop_last() =~= us);
                }
            },
        }
    }

    /// Unregisters the user under `id`, if any.
    pub fn remove_user(&mut self, id: &String)
        requires
            old(self).wf(),
        ensures
            final(self).wf(),
            forall|k: Seq<char>| #[trigger] final(self).user(k)
                == if k == id@ { None } else { old(self).user(k) },
    {
        let ghost us = self.users@;
        match self.index_of(id) {
            Some(i) => {
                self.users.remove(i);
                proof {
                    assert forall|k: Seq<char>| #[trigger] lookup(self.users@, k)
                        == if k == id@ { None } else { lookup(us, k) } by {
                        lemma_lookup_remove(us, i as int, k);
                    }
                    assert forall|a: int, b: int| 0 <= a < self.users@.len() && 0 <= b < self.users@.len() && a != b
                        implies self.users@[a].id@ != self.users@[b].id@ by {
                        let a0 = if a < i { a } else { a + 1 };
                        let b0 = if b < i { b } else { b + 1 };
                        assert(self.users@[a] == us[a0]);
                        assert(self.users@[b] == us[b0]);
                    }
                }
            },
            None => {
                proof {
                    assert forall|k: Seq<char>| #[trigger] lookup(self.users@, k)
                        == if k == id@ { None } else { lookup(us, k) } by {
                        if k == id@ {
                            lemma_lookup_absent(us, k);
                        }
                    }
                }
            },
        }
    }

    /// Replaces the fields that `update` holds of the user under `id`; returns a copy
    /// of the updated user, or `None` when no user is registered there.
    pub fn update_user(&mut self, id: &String, update: UserUpdate) -> (r: Option<User>)
        requires
            old(self).wf(),
        ensures
            final(self).wf(),
            match old(self).user(id@) {
                None => r is None && final(self).users@ == old(self).users@,
                Some(u) => r == Some(updated(u, update)) && forall|k: Seq<char>| #[trigger] final(self).user(k)
                    == if k == id@ { Some(updated(u, update)) } else { old(self).user(k) },
            },
    {
        let ghost us = self.users@;
        match self.index_of(id) {
            Some(i) => {
                proof {
                    lemma_lookup_at(us, i as int);
                }
                let cur = &self.users[i];
                let name = match update.name {
                    Some(n) => n,
                    None => cur.user.name.clone(),
                };
                let position = match update.position {
                    Some(p) => p,
                    None => cur.user.position,
                };
                let user = User { name, position };
                let copy = user.duplicate();
                let e = UserEntry { id: cur.id.clone(), user };
                proof {
                    assert forall|k: Seq<char>| #[trigger] lookup(us.update(i as int, e), k)
                        == if k == e.id@ { Some(e.user) } else { lookup(us, k) } by {
                        if k == e.id@ {
                            lemma_lookup_at(us.update(i as int, e), i as int);
                        } else {
                            lemma_lookup_update_other(us, i as int, e, k);
                        }
                    }
                }
                self.users[i] = e;
                Some(copy)
            },
            None => {
                proof {
                    lemma_lookup_absent(us, id@);
                }
                None
            },
        }
    }

    /// A copy of the user under `id`.
    pub fn get_user(&self, id: &String) -> (r: Option<User>)
        requires
            self.wf(),
        ensures
            r == self.user(id@),
    {
        match self.index_of(id) {
            Some(i) => {
                proof {
                    lemma_lookup_at(self.users@, i as int);
                }
                Some(self.users[i].user.duplicate())
            },
            None => {
                proof {
                    lemma_lookup_absent(self.users@, id@);
                }
                None
            },
        }
    }

    /// A copy of the whole registry.
    pub fn get_snapshot(&self) -> (r: InnerGameState)
        ensures
            r.users@ == self.users@,
    {
        let mut users: Vec<UserEntry> = Vec::new();
        let mut i: usize = 0;
        while i < self.users.len()
            invariant
                i <= self.users@.len(),
                users@ == self.users@.take(i as int),
            decreases self.users@.len() - i,
        {
            let e = &self.users[i];
            users.push(UserEntry { id: e.id.clone(), user: e.user.duplicate() });
            i = i + 1;
            assert(users@ =~= self.users@.take(i as int));
        }
        assert(self.users@.take(self.users@.len() as int) =~= self.users@);
        InnerGameState { users }
    }
}

} // verus!
