//! The in-memory session store: sessions in insertion order, identifiers
//! unique. The host application wraps one store in a lock and holds the
//! lock for the whole of an instruction's run, so no two operations on the
//! same session ever interleave.

use vstd::prelude::*;
use vstd::string::*;
use crate::outside::new_session_id;
use crate::text::str_eq;
use crate::types::Session;

verus! {

/// The owned collection of live sessions.
#[derive(Debug)]
pub struct SessionStore {
    pub sessions: Vec<Session>,
}

/// The store's invariant: no two sessions share an identifier.
pub open spec fn store_wf(st: SessionStore) -> bool {
    forall|i: int, j: int|
        0 <= i < j < st.sessions@.len() ==> st.sessions@[i].id@ != st.sessions@[j].id@
}

/// Whether some stored session carries the identifier.
pub open spec fn store_has(st: SessionStore, id: Seq<char>) -> bool {
    exists|i: int| 0 <= i < st.sessions@.len() && st.sessions@[i].id@ == id
}

impl SessionStore {
    /// An empty store.
    pub fn new() -> (st: Self)
        ensures
            store_wf(st),
            st.sessions@.len() == 0,
    {
        Self { sessions: Vec::new() }
    }

    /// The position of the session with the given identifier, if present.
    pub fn find(&self, id: &String) -> (r: Option<usize>)
        ensures
            match r {
                Some(i) => i < self.sessions@.len() && self.sessions@[i as int].id@ == id@,
                None => !store_has(*self, id@),
            },
    {
        let n = self.sessions.len();
        let mut k: usize = 0;
        while k < n
            invariant
                n == self.sessions@.len(),
                k <= n,
                forall|i: int| 0 <= i < k ==> self.sessions@[i].id@ != id@,
            decreases n - k,
        {
            if str_eq(self.sessions[k].id.as_str(), id.as_str()) {
                return Some(k);
            }
            k += 1;
        }
        None
    }

    /// Adds the session when its identifier is new; an already-present
    /// identifier leaves the store unchanged.
    pub fn insert(&mut self, session: Session) -> (r: bool)
        requires
            store_wf(*old(self)),
        ensures
            store_wf(*final(self)),
            r == !store_has(*old(self), session.id@),
            r ==> final(self).sessions@ == old(self).sessions@.push(session),
            !r ==> *final(self) == *old(self),
    {
        match self.find(&session.id) {
            Some(i) => {
                proof {
                    assert(store_has(*self, session.id@));
                }
                false
            },
            None => {
                self.sessions.push(session);
                proof {
                    let v = self.sessions@;
                    let before = old(self).sessions@;
                    assert forall|i: int, j: int| 0 <= i < j < v.len() implies v[i].id@
                        != v[j].id@ by {
                        if j < before.len() {
                        } else {
                            assert(v[j] == session);
                            assert(!(exists|t: int|
                                0 <= t < before.len() && before[t].id@ == session.id@));
                        }
                    }
                }
                true
            },
        }
    }

    /// Creates a fresh session under a newly drawn identifier and returns
    /// the identifier; in the (never expected) case that the drawn
    /// identifier collides with a stored one, nothing changes. On an empty
    /// store no collision is possible, so creation always succeeds there.
    pub fn create(&mut self) -> (r: Option<String>)
        requires
            store_wf(*old(self)),
        ensures
            store_wf(*final(self)),
            old(self).sessions@.len() == 0 ==> r is Some,
            match r {
                Some(id) => {
                    &&& final(self).sessions@.len() == old(self).sessions@.len() + 1
                    &&& final(self).sessions@.drop_last() == old(self).sessions@
                    &&& final(self).sessions@.last().id@ == id@
                    &&& final(self).sessions@.last().messages@.len() == 0
                    &&& final(self).sessions@.last().images@.len() == 0
                },
                None => *final(self) == *old(self),
            },
    {
        let id = new_session_id();
        let session = Session::new(id.clone());
        let ghost before = self.sessions@;
        if self.insert(session) {
            proof {
                assert(self.sessions@.drop_last() =~= before);
            }
            Some(id)
        } else {
            None
        }
    }

    /// Takes the session with the given identifier out of the store; the
    /// other sessions keep their order. `None` when no session carries it.
    pub fn remove(&mut self, id: &String) -> (r: Option<Session>)
        requires
            store_wf(*old(self)),
        ensures
            store_wf(*final(self)),
            match r {
                Some(s) => {
                    &&& store_has(*old(self), id@)
                    &&& s.id@ == id@
                    &&& !store_has(*final(self), id@)
                    &&& exists|i: int|
                        0 <= i < old(self).sessions@.len() && old(self).sessions@[i] == s
                            && final(self).sessions@ == old(self).sessions@.subrange(0, i)
                            + old(self).sessions@.subrange(
                            i + 1,
                            old(self).sessions@.len() as int,
                        )
                },
                None => !store_has(*old(self), id@) && *final(self) == *old(self),
            },
    {
        match self.find(id) {
            None => None,
            Some(i) => {
                let ghost before = self.sessions@;
                let s = self.sessions.remove(i);
                proof {
                    assert(before[i as int].id@ == id@);
                    assert(self.sessions@ =~= before.subrange(0, i as int) + before.subrange(
                        i + 1,
                        before.len() as int,
                    ));
                    let v = self.sessions@;
                    assert forall|p: int, q: int| 0 <= p < q < v.len() implies v[p].id@
                        != v[q].id@ by {
                        let p0 = if p < i { p } else { p + 1 };
                        let q0 = if q < i { q } else { q + 1 };
                        assert(v[p] == before[p0]);
                        assert(v[q] == before[q0]);
                    }
                    assert(!store_has(*self, id@)) by {
                        if store_has(*self, id@) {
                            let k = choose|k: int|
                                0 <= k < v.len() && v[k].id@ == id@;
                            let k0 = if k < i { k } else { k + 1 };
                            assert(v[k] == before[k0]);
                            assert(before[k0].id@ == before[i as int].id@);
                        }
                    }
                }
                Some(s)
            },
        }
    }
}

} // verus!
