//! The registry of live connections: a map from the caller's identifier to
//! the handle registered under it.

use vstd::prelude::*;
use crate::handle::ConnectionHandle;

verus! {

struct Entry<S> {
    key: String,
    handle: ConnectionHandle<S>,
}

spec fn key_at<S>(entries: Seq<Entry<S>>, i: int) -> Seq<char> {
    entries[i].key@
}

spec fn holds<S>(entries: Seq<Entry<S>>, key: Seq<char>) -> bool {
    exists|i: int| 0 <= i < entries.len() && #[trigger] key_at(entries, i) == key
}

spec fn slot<S>(entries: Seq<Entry<S>>, key: Seq<char>) -> int {
    choose|i: int| 0 <= i < entries.len() && #[trigger] key_at(entries, i) == key
}

spec fn distinct<S>(entries: Seq<Entry<S>>) -> bool {
    forall|i: int, j: int|
        0 <= i < j < entries.len() ==> #[trigger] key_at(entries, i) != #[trigger] key_at(entries, j)
}

spec fn as_map<S>(entries: Seq<Entry<S>>) -> Map<Seq<char>, ConnectionHandle<S>> {
    Map::new(|key: Seq<char>| holds(entries, key), |key: Seq<char>| entries[slot(entries, key)].handle)
}

spec fn prefix_keys<S>(entries: Seq<Entry<S>>, n: int) -> Set<Seq<char>> {
    Set::new(|key: Seq<char>| exists|i: int| 0 <= i < n && #[trigger] key_at(entries, i) == key)
}

proof fn lemma_prefix_size<S>(entries: Seq<Entry<S>>, n: int)
    requires
        distinct(entries),
        0 <= n <= entries.len(),
    ensures
        prefix_keys(entries, n).finite(),
        prefix_keys(entries, n).len() == n,
    decreases n,
{
    if n == 0 {
        assert(prefix_keys(entries, 0) =~= Set::empty());
    } else {
        lemma_prefix_size(entries, n - 1);
        let last = key_at(entries, n - 1);
        assert(!prefix_keys(entries, n - 1).contains(last));
        assert(prefix_keys(entries, n) =~= prefix_keys(entries, n - 1).insert(last));
    }
}

fn position<S>(entries: &Vec<Entry<S>>, key: &str) -> (found: Option<usize>)
    ensures
        match found {
            Some(i) => i < entries.len() && key_at(entries@, i as int) == key@,
            None => !holds(entries@, key@),
        },
{
    let wanted = String::from_str(key);
    let mut i: usize = 0;
    while i < entries.len()
        invariant
            i <= entries.len(),
            wanted@ == key@,
            forall|j: int| 0 <= j < i ==> #[trigger] key_at(entries@, j) != key@,
        decreases entries.len() - i,
    {
        if entries[i].key == wanted {
            return Some(i);
        }
        i += 1;
    }
    None
}

fn put<S>(entries: &mut Vec<Entry<S>>, key: String, handle: ConnectionHandle<S>) -> (replaced: Option<
    ConnectionHandle<S>,
>)
    requires
        distinct(old(entries)@),
    ensures
        distinct(final(entries)@),
        as_map(final(entries)@) == as_map(old(entries)@).insert(key@, handle),
        match replaced {
            Some(previous) => holds(old(entries)@, key@) && previous == as_map(old(entries)@)[key@],
            None => !holds(old(entries)@, key@),
        },
{
    let ghost before = entries@;
    let found = position(entries, key.as_str());
    match found {
        Some(i) => {
            assert(holds(before, key@));
            let previous = entries.remove(i);
            let entry = Entry { key, handle };
            entries.insert(i, entry);
            proof {
                let after = entries@;
                assert forall|j: int| 0 <= j < after.len() implies #[trigger] key_at(after, j) == key_at(
                    before,
                    j,
                ) by {}
                assert forall|q: Seq<char>| holds(after, q) == holds(before, q) by {
                    if holds(before, q) {
                        assert(key_at(after, slot(before, q)) == q);
                    }
                    if holds(after, q) {
                        assert(key_at(before, slot(after, q)) == q);
                    }
                }
                assert forall|q: Seq<char>| holds(before, q) && q != key@ implies slot(after, q) == slot(
                    before,
                    q,
                ) by {
                    assert(key_at(before, slot(after, q)) == q);
                    assert(key_at(before, slot(before, q)) == q);
                }
                assert(slot(after, key@) == i) by {
                    assert(key_at(after, i as int) == key@);
                    assert(holds(after, key@));
                }
                assert(slot(before, key@) == i);
                assert(as_map(after) =~= as_map(before).insert(key@, handle));
            }
            Some(previous.handle)
        },
        None => {
            let entry = Entry { key, handle };
            entries.push(entry);
            proof {
                let after = entries@;
                let n = before.len() as int;
                assert forall|j: int| 0 <= j < n implies #[trigger] key_at(after, j) == key_at(before, j) by {}
                assert(key_at(after, n) == key@);
                assert forall|q: Seq<char>| holds(after, q) == (holds(before, q) || q == key@) by {
                    if holds(before, q) {
                        assert(key_at(after, slot(before, q)) == q);
                    }
                    if q == key@ {
                        assert(key_at(after, n) == q);
                    }
                    if holds(after, q) && q != key@ {
                        assert(key_at(before, slot(after, q)) == q);
                    }
                }
                assert forall|q: Seq<char>| holds(before, q) implies slot(after, q) == slot(before, q) by {
                    assert(key_at(after, slot(before, q)) == q);
                    assert(holds(after, q));
                    assert(key_at(before, slot(after, q)) == q);
                }
                assert(slot(after, key@) == n) by {
                    assert(holds(after, key@));
                }
                assert(as_map(after) =~= as_map(before).insert(key@, handle));
            }
            None
        },
    }
}

fn take_out<S>(entries: &mut Vec<Entry<S>>, key: &str) -> (removed: Option<ConnectionHandle<S>>)
    requires
        distinct(old(entries)@),
    ensures
        distinct(final(entries)@),
        as_map(final(entries)@) == as_map(old(entries)@).remove(key@),
        match removed {
            Some(handle) => holds(old(entries)@, key@) && handle == as_map(old(entries)@)[key@],
            None => !holds(old(entries)@, key@),
        },
{
    let ghost before = entries@;
    match position(entries, key) {
        Some(i) => {
            assert(holds(before, key@));
            let entry = entries.remove(i);
            proof {
                let after = entries@;
                assert forall|j: int| 0 <= j < after.len() implies #[trigger] key_at(after, j) == (if j < i {
                    key_at(before, j)
                } else {
                    key_at(before, j + 1)
                }) by {}
                assert forall|q: Seq<char>| holds(after, q) == (holds(before, q) && q != key@) by {
                    if holds(before, q) && q != key@ {
                        let b = slot(before, q);
                        if b < i {
                            assert(key_at(after, b) == q);
                        } else {
                            assert(key_at(after, b - 1) == q);
                        }
                    }
                    if holds(after, q) {
                        let a = slot(after, q);
                        if a < i {
                            assert(key_at(before, a) == q);
                        } else {
                            assert(key_at(before, a + 1) == q);
                        }
                    }
                }
                assert forall|q: Seq<char>| holds(after, q) implies after[slot(after, q)].handle == before[slot(
                    before,
                    q,
                )].handle by {
                    let a = slot(after, q);
                    assert(key_at(before, slot(before, q)) == q);
                    if a < i {
                        assert(key_at(before, a) == q);
                    } else {
                        assert(key_at(before, a + 1) == q);
                    }
                }
                assert(slot(before, key@) == i);
                assert(as_map(after) =~= as_map(before).remove(key@));
            }
            Some(entry.handle)
        },
        None => {
            assert(as_map(entries@) =~= as_map(before).remove(key@));
            None
        },
    }
}

/// The registry. Its view is the map from each registered identifier to
/// its handle.
pub struct ConnectionPool<S> {
    entries: Vec<Entry<S>>,
}

impl<S> View for ConnectionPool<S> {
    type V = Map<Seq<char>, ConnectionHandle<S>>;

    closed spec fn view(&self) -> Map<Seq<char>, ConnectionHandle<S>> {
        as_map(self.entries@)
    }
}

impl<S> ConnectionPool<S> {
    #[verifier::type_invariant]
    spec fn no_key_twice(&self) -> bool {
        distinct(self.entries@)
    }

    /// An empty registry.
    pub fn new() -> (pool: Self)
        ensures
            pool@ == Map::<Seq<char>, ConnectionHandle<S>>::empty(),
    {
        let pool = ConnectionPool { entries: Vec::new() };
        assert(pool@ =~= Map::<Seq<char>, ConnectionHandle<S>>::empty());
        pool
    }

    /// The number of live connections.
    pub fn len(&self) -> (n: usize)
        ensures
            self@.dom().finite(),
            n == self@.dom().len(),
    {
        proof {
            use_type_invariant(self);
            lemma_prefix_size(self.entries@, self.entries.len() as int);
            assert(prefix_keys(self.entries@, self.entries.len() as int) =~= self@.dom());
        }
        self.entries.len()
    }

    /// The handle registered under an identifier, if there is one.
    pub fn get(&self, conn_id: &str) -> (found: Option<&ConnectionHandle<S>>)
        ensures
            match found {
                Some(handle) => self@.contains_key(conn_id@) && *handle == self@[conn_id@],
                None => !self@.contains_key(conn_id@),
            },
    {
        proof {
            use_type_invariant(self);
        }
        match position(&self.entries, conn_id) {
            Some(i) => {
                assert(holds(self.entries@, conn_id@));
                Some(&self.entries[i].handle)
            },
            None => None,
        }
    }

    /// Registers a handle under an identifier. A handle that was registered
    /// under the same identifier is replaced, and handed back.
    pub fn insert(&mut self, conn_id: String, handle: ConnectionHandle<S>) -> (replaced: Option<
        ConnectionHandle<S>,
    >)
        ensures
            final(self)@ == old(self)@.insert(conn_id@, handle),
            match replaced {
                Some(previous) => old(self)@.contains_key(conn_id@) && previous == old(self)@[conn_id@],
                None => !old(self)@.contains_key(conn_id@),
            },
    {
        proof {
            use_type_invariant(&*self);
        }
        let mut entries: Vec<Entry<S>> = Vec::new();
        core::mem::swap(&mut self.entries, &mut entries);
        let replaced = put(&mut entries, conn_id, handle);
        core::mem::swap(&mut self.entries, &mut entries);
        replaced
    }

    /// Takes the handle registered under an identifier out of the registry.
    pub fn remove(&mut self, conn_id: &str) -> (removed: Option<ConnectionHandle<S>>)
        ensures
            final(self)@ == old(self)@.remove(conn_id@),
            match removed {
                Some(handle) => old(self)@.contains_key(conn_id@) && handle == old(self)@[conn_id@],
                None => !old(self)@.contains_key(conn_id@),
            },
    {
        proof {
            use_type_invariant(&*self);
        }
        let mut entries: Vec<Entry<S>> = Vec::new();
        core::mem::swap(&mut self.entries, &mut entries);
        let removed = take_out(&mut entries, conn_id);
        core::mem::swap(&mut self.entries, &mut entries);
        removed
    }
}

} // verus!
