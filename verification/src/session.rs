//! R2 session records and the registry mapping `ws_id` to a session.
//!
//! The registry is the controller's view of the connected remotes; the
//! outbound sinks themselves live in the I/O shell, keyed by the same ids.

use vstd::prelude::*;
use crate::text::str_eq_str;

verus! {

/// Per-R2-session record.  Only the controller mutates it.
#[derive(Clone, Debug)]
pub struct R2Session {
    /// Opaque session identifier, unique per live session.
    pub ws_id: String,
    /// When set, outbound traffic to this remote is dropped.
    pub standby: bool,
    /// Entity ids the remote subscribed to.
    pub subscribed_entities: Vec<String>,
    /// Latched request: the remote wants the HA connection up.
    pub ha_connect: bool,
    /// Pending R2 request id awaiting the next `get_states` result.
    pub get_available_entities_id: Option<u32>,
    /// Pending R2 request id awaiting the next entity-states projection.
    pub get_entity_states_id: Option<u32>,
}

/// The set of entity-id views held in a vector.
pub open spec fn entity_set(s: Seq<String>) -> Set<Seq<char>> {
    Set::new(|x: Seq<char>| exists|i: int| 0 <= i < s.len() && s[i]@ == x)
}

impl R2Session {
    /// A fresh session with default flags.
    pub fn new(ws_id: String) -> (s: R2Session)
        ensures
            s.ws_id == ws_id,
            !s.standby,
            s.subscribed_entities@ =~= Seq::<String>::empty(),
            !s.ha_connect,
            s.get_available_entities_id is None,
            s.get_entity_states_id is None,
    {
        R2Session {
            ws_id,
            standby: false,
            subscribed_entities: Vec::new(),
            ha_connect: false,
            get_available_entities_id: None,
            get_entity_states_id: None,
        }
    }
}

/// There is a session with this id.
pub open spec fn has_id(s: Seq<R2Session>, id: Seq<char>) -> bool {
    exists|i: int| 0 <= i < s.len() && s[i].ws_id@ == id
}

/// All session ids are distinct.
pub open spec fn distinct_ids(s: Seq<R2Session>) -> bool {
    forall|i: int, j: int| 0 <= i < j < s.len() ==> s[i].ws_id@ != s[j].ws_id@
}

/// The registry of live R2 sessions.
#[derive(Debug)]
pub struct SessionRegistry {
    pub items: Vec<R2Session>,
}

impl SessionRegistry {
    pub open spec fn wf(self) -> bool {
        distinct_ids(self.items@)
    }

    pub fn new() -> (r: SessionRegistry)
        ensures
            r.items@ =~= Seq::<R2Session>::empty(),
            r.wf(),
    {
        SessionRegistry { items: Vec::new() }
    }

    /// Index of the session with this id, if any.
    pub fn find(&self, ws_id: &str) -> (r: Option<usize>)
        ensures
            (match r {
                Some(i) => i < self.items@.len() && self.items@[i as int].ws_id@ == ws_id@,
                None => !has_id(self.items@, ws_id@),
            }),
    {
        let n = self.items.len();
        let mut i: usize = 0;
        while i < n
            invariant
                i <= n,
                n == self.items@.len(),
                forall|j: int| 0 <= j < i ==> self.items@[j].ws_id@ != ws_id@,
            decreases n - i,
        {
            if str_eq_str(self.items[i].ws_id.as_str(), ws_id) {
                return Some(i);
            }
            i = i + 1;
        }
        None
    }

    /// Register a session, replacing any existing one with the same id,
    /// as a map insertion does.
    pub fn insert(&mut self, session: R2Session)
        requires
            old(self).wf(),
        ensures
            final(self).wf(),
            has_id(final(self).items@, session.ws_id@),
            (if has_id(old(self).items@, session.ws_id@) {
                exists|i: int|
                    0 <= i < old(self).items@.len()
                        && old(self).items@[i].ws_id@ == session.ws_id@
                        && final(self).items@ =~= old(self).items@.update(i, session)
            } else {
                final(self).items@ =~= old(self).items@.push(session)
            }),
    {
        match self.find(session.ws_id.as_str()) {
            Some(i) => {
                let ghost prev = self.items@;
                let ghost sg = session;
                self.items[i] = session;
                proof {
                    assert(self.items@ =~= prev.update(i as int, sg));
                    assert(self.items@[i as int].ws_id@ == sg.ws_id@);
                }
            },
            None => {
                let ghost prev = self.items@;
                let ghost sg = session;
                self.items.push(session);
                proof {
                    assert(self.items@[prev.len() as int].ws_id@ == sg.ws_id@);
                }
            },
        }
    }

    /// Drop the session with this id, if present.
    pub fn remove(&mut self, ws_id: &str) -> (removed: bool)
        requires
            old(self).wf(),
        ensures
            final(self).wf(),
            removed == has_id(old(self).items@, ws_id@),
            !has_id(final(self).items@, ws_id@),
            (if removed {
                exists|i: int|
                    0 <= i < old(self).items@.len()
                        && old(self).items@[i].ws_id@ == ws_id@
                        && final(self).items@ =~= old(self).items@.remove(i)
            } else {
                final(self).items@ =~= old(self).items@
            }),
    {
        match self.find(ws_id) {
            Some(i) => {
                let ghost prev = self.items@;
                let _dropped = self.items.remove(i);
                proof {
                    assert(self.items@ =~= prev.remove(i as int));
                    assert forall|j: int| 0 <= j < self.items@.len()
                        implies self.items@[j].ws_id@ != ws_id@ by {
                        if j < i {
                            assert(self.items@[j] == prev[j]);
                        } else {
                            assert(self.items@[j] == prev[j + 1]);
                        }
                    }
                }
                true
            },
            None => false,
        }
    }

    /// Clear or set the standby flag of the session at `i`.
    pub fn set_standby_at(&mut self, i: usize, v: bool)
        requires
            i < old(self).items@.len(),
        ensures
            final(self).items@ =~= old(self).items@.update(
                i as int,
                (R2Session { standby: v, ..old(self).items@[i as int] }),
            ),
    {
        self.items[i].standby = v;
    }

    /// Latch or clear the session's wish for an HA connection.
    pub fn set_ha_connect_at(&mut self, i: usize, v: bool)
        requires
            i < old(self).items@.len(),
        ensures
            final(self).items@ =~= old(self).items@.update(
                i as int,
                (R2Session { ha_connect: v, ..old(self).items@[i as int] }),
            ),
    {
        self.items[i].ha_connect = v;
    }

    /// Record or clear the pending available-entities request id.
    pub fn set_avail_id_at(&mut self, i: usize, v: Option<u32>)
        requires
            i < old(self).items@.len(),
        ensures
            final(self).items@ =~= old(self).items@.update(
                i as int,
                (R2Session { get_available_entities_id: v, ..old(self).items@[i as int] }),
            ),
    {
        self.items[i].get_available_entities_id = v;
    }

    /// Record or clear the pending entity-states request id.
    pub fn set_states_id_at(&mut self, i: usize, v: Option<u32>)
        requires
            i < old(self).items@.len(),
        ensures
            final(self).items@ =~= old(self).items@.update(
                i as int,
                (R2Session { get_entity_states_id: v, ..old(self).items@[i as int] }),
            ),
    {
        self.items[i].get_entity_states_id = v;
    }

    /// Union the session's subscriptions with the given entity ids.
    pub fn append_subscribed_at(&mut self, i: usize, entity_ids: Vec<String>)
        requires
            i < old(self).items@.len(),
        ensures
            final(self).items@ =~= old(self).items@.update(
                i as int,
                (R2Session {
                    subscribed_entities: final(self).items@[i as int].subscribed_entities,
                    ..old(self).items@[i as int]
                }),
            ),
            final(self).items@[i as int].subscribed_entities@
                =~= old(self).items@[i as int].subscribed_entities@ + entity_ids@,
    {
        let mut ids = entity_ids;
        self.items[i].subscribed_entities.append(&mut ids);
    }

    /// Remove every subscription whose id occurs in `entity_ids`.
    pub fn remove_subscribed_at(&mut self, i: usize, entity_ids: &Vec<String>)
        requires
            i < old(self).items@.len(),
        ensures
            final(self).items@ =~= old(self).items@.update(
                i as int,
                (R2Session {
                    subscribed_entities: final(self).items@[i as int].subscribed_entities,
                    ..old(self).items@[i as int]
                }),
            ),
            final(self).items@[i as int].subscribed_entities@
                =~= old(self).items@[i as int].subscribed_entities@.filter(
                |e: String| !entity_set(entity_ids@).contains(e@),
            ),
    {
        let ghost pred = |e: String| !entity_set(entity_ids@).contains(e@);
        let n = self.items[i].subscribed_entities.len();
        let mut kept: Vec<String> = Vec::new();
        let mut j: usize = 0;
        while j < n
            invariant
                j <= n,
                i < self.items@.len(),
                n == self.items@[i as int].subscribed_entities@.len(),
                kept@ =~= self.items@[i as int].subscribed_entities@.take(j as int).filter(pred),
                pred == (|e: String| !entity_set(entity_ids@).contains(e@)),
            decreases n - j,
        {
            let ghost subs = self.items@[i as int].subscribed_entities@;
            let e = self.items[i].subscribed_entities[j].clone();
            let dropped = contains_str(entity_ids, e.as_str());
            proof {
                lemma_filter_take_step(subs, pred, j as int);
                assert(subs.take(j as int + 1) =~= subs.take(j as int).push(subs[j as int]));
            }
            if !dropped {
                kept.push(e);
            }
            j = j + 1;
        }
        proof {
            assert(self.items@[i as int].subscribed_entities@.take(n as int)
                =~= self.items@[i as int].subscribed_entities@);
        }
        self.items[i].subscribed_entities = kept;
    }
}

/// Whether some element of `v` has the same characters as `s`.
pub fn contains_str(v: &Vec<String>, s: &str) -> (r: bool)
    ensures
        r == entity_set(v@).contains(s@),
{
    let n = v.len();
    let mut i: usize = 0;
    while i < n
        invariant
            i <= n,
            n == v@.len(),
            forall|j: int| 0 <= j < i ==> v@[j]@ != s@,
        decreases n - i,
    {
        if str_eq_str(v[i].as_str(), s) {
            proof {
                assert(entity_set(v@).contains(s@));
            }
            return true;
        }
        i = i + 1;
    }
    proof {
        if entity_set(v@).contains(s@) {
            let j = choose|j: int| 0 <= j < v@.len() && v@[j]@ == s@;
            assert(false);
        }
    }
    false
}

/// `filter` over one more element appends that element exactly when the
/// predicate holds of it.
pub proof fn lemma_filter_take_step<A>(s: Seq<A>, pred: spec_fn(A) -> bool, j: int)
    requires
        0 <= j < s.len(),
    ensures
        s.take(j + 1).filter(pred) =~= if pred(s[j]) {
            s.take(j).filter(pred).push(s[j])
        } else {
            s.take(j).filter(pred)
        },
{
    reveal(Seq::filter);
    assert(s.take(j + 1).drop_last() =~= s.take(j));
    assert(s.take(j + 1).last() == s[j]);
}

/// Concatenating subscription lists unions their entity sets: what a
/// `subscribe_events` request does, read at the set level.
pub proof fn lemma_entity_set_concat(a: Seq<String>, b: Seq<String>)
    ensures
        entity_set(a + b) =~= entity_set(a).union(entity_set(b)),
{
    assert forall|x: Seq<char>| entity_set(a + b).contains(x)
        implies entity_set(a).union(entity_set(b)).contains(x) by {
        let i = choose|i: int| 0 <= i < (a + b).len() && (a + b)[i]@ == x;
        if i < a.len() {
            assert(a[i]@ == x);
        } else {
            assert(b[i - a.len()]@ == x);
        }
    }
    assert forall|x: Seq<char>| entity_set(a).union(entity_set(b)).contains(x)
        implies entity_set(a + b).contains(x) by {
        if entity_set(a).contains(x) {
            let i = choose|i: int| 0 <= i < a.len() && a[i]@ == x;
            assert((a + b)[i]@ == x);
        } else {
            let i = choose|i: int| 0 <= i < b.len() && b[i]@ == x;
            assert((a + b)[a.len() + i]@ == x);
        }
    }
}

/// Replacing a record without changing its id keeps the ids distinct.
pub proof fn lemma_update_keeps_distinct(s: Seq<R2Session>, i: int, v: R2Session)
    requires
        distinct_ids(s),
        0 <= i < s.len(),
        v.ws_id@ == s[i].ws_id@,
    ensures
        distinct_ids(s.update(i, v)),
{
}

/// Appending one id inserts its view into the entity set.
pub proof fn lemma_entity_set_push(s: Seq<String>, e: String)
    ensures
        entity_set(s.push(e)) =~= entity_set(s).insert(e@),
{
    assert forall|x: Seq<char>| entity_set(s.push(e)).contains(x)
        implies entity_set(s).insert(e@).contains(x) by {
        let i = choose|i: int| 0 <= i < s.push(e).len() && s.push(e)[i]@ == x;
        if i < s.len() {
            assert(s[i]@ == x);
        }
    }
    assert forall|x: Seq<char>| entity_set(s).insert(e@).contains(x)
        implies entity_set(s.push(e)).contains(x) by {
        if x == e@ {
            assert(s.push(e)[s.len() as int]@ == x);
        } else {
            let i = choose|i: int| 0 <= i < s.len() && s[i]@ == x;
            assert(s.push(e)[i]@ == x);
        }
    }
}

/// The empty subscription list has an empty entity set.
pub proof fn lemma_entity_set_empty(s: Seq<String>)
    requires
        s.len() == 0,
    ensures
        entity_set(s) =~= Set::<Seq<char>>::empty(),
{
    assert forall|x: Seq<char>| !entity_set(s).contains(x) by {
        if entity_set(s).contains(x) {
            let i = choose|i: int| 0 <= i < s.len() && s[i]@ == x;
            assert(false);
        }
    }
}

/// Filtering out the ids in `t` leaves exactly the set difference: what
/// an `unsubscribe_events` request does, read at the set level.
pub proof fn lemma_entity_set_filter_diff(s: Seq<String>, t: Seq<String>)
    ensures
        entity_set(s.filter(|e: String| !entity_set(t).contains(e@)))
            =~= entity_set(s).difference(entity_set(t)),
    decreases s.len(),
{
    let pred = |e: String| !entity_set(t).contains(e@);
    reveal(Seq::filter);
    if s.len() == 0 {
        lemma_entity_set_empty(s);
        lemma_entity_set_empty(s.filter(pred));
    } else {
        let d = s.drop_last();
        let e = s.last();
        lemma_entity_set_filter_diff(d, t);
        assert(s =~= d.push(e));
        lemma_entity_set_push(d, e);
        assert(entity_set(s) =~= entity_set(d).insert(e@));
        assert(s.filter(pred) == if pred(e) {
            d.filter(pred).push(e)
        } else {
            d.filter(pred)
        });
        if pred(e) {
            lemma_entity_set_push(d.filter(pred), e);
        }
    }
}

} // verus!
