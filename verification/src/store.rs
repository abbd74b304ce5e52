//! The per-process store of conversation sessions.
//!
//! One store instance maps each conversation identifier to the
//! [`ConversationToken`] of its most recently completed create, refresh or
//! reconnect call.  The store is modelled as a `Map` from the identifier's
//! character sequence to the token's mathematical value; every write is a
//! whole-value insert at one key, so a read always sees either the previous
//! or the new session, never a partial one.

use vstd::prelude::*;

use crate::directline::{ConversationToken, ConversationTokenV};

verus! {

/// Compares two string slices by their character sequences.
pub fn str_eq(a: &str, b: &str) -> (r: bool)
    ensures
        r == (a@ == b@),
{
    let sa = a.to_owned();
    let sb = b.to_owned();
    sa == sb
}

/// Mapping from conversation identifier to the session of the most recently
/// completed write for that identifier.  Keys are unique by construction.
#[derive(Debug)]
pub struct SessionStore {
    entries: Vec<(String, ConversationToken)>,
}

/// The map denoted by a sequence of keyed entries: later entries win.
spec fn entries_map(s: Seq<(String, ConversationToken)>) -> Map<Seq<char>, ConversationTokenV>
    decreases s.len(),
{
    if s.len() == 0 {
        Map::empty()
    } else {
        entries_map(s.drop_last()).insert(s.last().0@, s.last().1@)
    }
}

/// Every key of the map comes from some entry of the sequence, with that
/// entry's value where the key occurs only once.
proof fn lemma_entries_map_index(s: Seq<(String, ConversationToken)>, i: int)
    requires
        0 <= i < s.len(),
        forall|p: int, q: int| 0 <= p < q < s.len() ==> s[p].0@ != s[q].0@,
    ensures
        entries_map(s).contains_key(s[i].0@),
        entries_map(s)[s[i].0@] == s[i].1@,
    decreases s.len(),
{
    if i == s.len() - 1 {
    } else {
        lemma_entries_map_index(s.drop_last(), i);
        assert(s.drop_last()[i] == s[i]);
        assert(s[i].0@ != s.last().0@);
    }
}

/// A key no entry carries is absent from the map.
proof fn lemma_entries_map_absent(s: Seq<(String, ConversationToken)>, k: Seq<char>)
    requires
        forall|i: int| 0 <= i < s.len() ==> s[i].0@ != k,
    ensures
        !entries_map(s).contains_key(k),
    decreases s.len(),
{
    if s.len() > 0 {
        lemma_entries_map_absent(s.drop_last(), k);
    }
}

/// Replacing the entry at `i` by one with the same key turns the map into
/// an insert at that key.
proof fn lemma_entries_map_update(
    s: Seq<(String, ConversationToken)>,
    i: int,
    p: (String, ConversationToken),
)
    requires
        0 <= i < s.len(),
        forall|x: int, y: int| 0 <= x < y < s.len() ==> s[x].0@ != s[y].0@,
        p.0@ == s[i].0@,
    ensures
        entries_map(s.update(i, p)) =~= entries_map(s).insert(p.0@, p.1@),
    decreases s.len(),
{
    let su = s.update(i, p);
    if i == s.len() - 1 {
        assert(su.drop_last() =~= s.drop_last());
    } else {
        lemma_entries_map_update(s.drop_last(), i, p);
        assert(su.drop_last() =~= s.drop_last().update(i, p));
        assert(su.last() == s.last());
        assert(p.0@ != s.last().0@);
    }
}

impl View for SessionStore {
    type V = Map<Seq<char>, ConversationTokenV>;

    closed spec fn view(&self) -> Map<Seq<char>, ConversationTokenV> {
        entries_map(self.entries@)
    }
}

impl SessionStore {
    /// Internal invariant: no two entries share a key.
    pub closed spec fn wf(&self) -> bool {
        forall|i: int, j: int|
            0 <= i < j < self.entries@.len() ==> self.entries@[i].0@ != self.entries@[j].0@
    }

    /// An empty store: no conversation has a session.
    pub fn new() -> (s: SessionStore)
        ensures
            s.wf(),
            s@ =~= Map::<Seq<char>, ConversationTokenV>::empty(),
    {
        SessionStore { entries: Vec::new() }
    }

    /// The index of the entry keyed `id`, if any.
    fn find(&self, id: &str) -> (r: Option<usize>)
        ensures
            match r {
                Some(i) => i < self.entries@.len() && self.entries@[i as int].0@ == id@,
                None => forall|i: int| 0 <= i < self.entries@.len() ==> self.entries@[i].0@ != id@,
            },
    {
        let n = self.entries.len();
        let mut i: usize = 0;
        while i < n
            invariant
                n == self.entries@.len(),
                i <= n,
                forall|j: int| 0 <= j < i ==> self.entries@[j].0@ != id@,
            decreases n - i,
        {
            if str_eq(self.entries[i].0.as_str(), id) {
                return Some(i);
            }
            i = i + 1;
        }
        None
    }

    /// Whether `id` has a session.
    pub fn contains(&self, id: &str) -> (r: bool)
        requires
            self.wf(),
        ensures
            r == self@.contains_key(id@),
    {
        match self.find(id) {
            Some(i) => {
                proof {
                    lemma_entries_map_index(self.entries@, i as int);
                }
                true
            },
            None => {
                proof {
                    lemma_entries_map_absent(self.entries@, id@);
                }
                false
            },
        }
    }

    /// A copy of the session stored for `id`: the value of the most
    /// recently completed write at that key, or nothing when no create or
    /// reconnect has run for it.
    pub fn get(&self, id: &str) -> (r: Option<ConversationToken>)
        requires
            self.wf(),
        ensures
            r is Some <==> self@.contains_key(id@),
            r matches Some(t) ==> t@ == self@[id@],
    {
        match self.find(id) {
            Some(i) => {
                proof {
                    lemma_entries_map_index(self.entries@, i as int);
                }
                Some(self.entries[i].1.duplicate())
            },
            None => {
                proof {
                    lemma_entries_map_absent(self.entries@, id@);
                }
                None
            },
        }
    }

    /// Stores `val` as the session of `key`, replacing whatever was there:
    /// the write is whole-value, so the previous session at that key is no
    /// longer returned by any later read, and no other key changes.
    pub fn upsert(&mut self, key: String, val: ConversationToken)
        requires
            old(self).wf(),
        ensures
            final(self).wf(),
            final(self)@ =~= old(self)@.insert(key@, val@),
    {
        let ghost s0 = self.entries@;
        match self.find(key.as_str()) {
            Some(i) => {
                proof {
                    lemma_entries_map_update(s0, i as int, (key, val));
                }
                self.entries.set(i, (key, val));
            },
            None => {
                self.entries.push((key, val));
                proof {
                    assert(self.entries@.drop_last() =~= s0);
                }
            },
        }
    }
}

/// Law: over any sequence of writes for one conversation identifier, the
/// last completed write wins.  Inserting `t1` then `t2` at `id` leaves the
/// store exactly as a single insert of `t2` would: a read of `id` returns
/// `t2`, and every other identifier keeps its previous session.
pub proof fn lemma_last_completed_write_wins(
    m: Map<Seq<char>, ConversationTokenV>,
    id: Seq<char>,
    t1: ConversationTokenV,
    t2: ConversationTokenV,
)
    ensures
        m.insert(id, t1).insert(id, t2) =~= m.insert(id, t2),
        m.insert(id, t1).insert(id, t2)[id] == t2,
        forall|k: Seq<char>|
            k != id && m.contains_key(k) ==> m.insert(id, t1).insert(id, t2)[k] == m[k],
{
}

} // verus!
