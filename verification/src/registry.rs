//! Connection registry: a map from client identifier to the token of that
//! connection's outbound-write handle.
//!
//! The registry is the one piece of state shared by every connection handler
//! and the lifecycle controller.  It is stored as a vector of entries with
//! pairwise-distinct identifiers; its mathematical view is the finite map
//! from identifier to handle token.

use vstd::prelude::*;

verus! {

use vstd::map::*;

/// One registry entry: a client identifier and the token under which the
/// host process keeps that connection's outbound-write handle.
#[derive(Debug)]
pub struct Entry {
    pub id: String,
    pub handle: u64,
}

/// The map described by a sequence of entries; a later entry for the same
/// identifier wins, as an insert replaces what was there.
pub open spec fn entries_map(s: Seq<Entry>) -> Map<Seq<char>, u64>
    decreases s.len(),
{
    if s.len() == 0 {
        Map::empty()
    } else {
        entries_map(s.drop_last()).insert(s.last().id@, s.last().handle)
    }
}

/// No two entries carry the same identifier.
pub open spec fn distinct_ids(s: Seq<Entry>) -> bool {
    forall|i: int, j: int| 0 <= i < j < s.len() ==> s[i].id@ != s[j].id@
}

/// Thread-safe in the host through one lock around the whole server state;
/// here the registry itself, with insert, remove, lookup and enumeration.
pub struct ConnectionRegistry {
    entries: Vec<Entry>,
}

impl View for ConnectionRegistry {
    type V = Map<Seq<char>, u64>;

    closed spec fn view(&self) -> Map<Seq<char>, u64> {
        entries_map(self.entries@)
    }
}

/// An identifier is in the map exactly when some entry carries it.
pub proof fn lemma_entries_map_contains(s: Seq<Entry>, id: Seq<char>)
    ensures
        entries_map(s).dom().contains(id) <==> (exists|i: int|
            0 <= i < s.len() && s[i].id@ == id),
    decreases s.len(),
{
    if s.len() > 0 {
        lemma_entries_map_contains(s.drop_last(), id);
        if s.last().id@ == id {
            assert(s[s.len() - 1].id@ == id);
        } else {
            if exists|i: int| 0 <= i < s.len() && s[i].id@ == id {
                let i = choose|i: int| 0 <= i < s.len() && s[i].id@ == id;
                assert(s.drop_last()[i].id@ == id);
            }
        }
    }
}

/// The map is finite and, with distinct identifiers, has one element per entry.
pub proof fn lemma_entries_map_len(s: Seq<Entry>)
    requires
        distinct_ids(s),
    ensures
        entries_map(s).dom().finite(),
        entries_map(s).dom().len() == s.len(),
    decreases s.len(),
{
    if s.len() == 0 {
    } else {
        assert(distinct_ids(s.drop_last()));
        lemma_entries_map_len(s.drop_last());
        lemma_entries_map_contains(s.drop_last(), s.last().id@);
        assert(forall|i: int| 0 <= i < s.len() - 1 ==> s[i].id@ != s.last().id@);
        assert(!entries_map(s.drop_last()).dom().contains(s.last().id@));
    }
}

/// With distinct identifiers, each entry's handle is what the map gives.
pub proof fn lemma_entries_map_index(s: Seq<Entry>, i: int)
    requires
        distinct_ids(s),
        0 <= i < s.len(),
    ensures
        entries_map(s)[s[i].id@] == s[i].handle,
    decreases s.len(),
{
    if i == s.len() - 1 {
    } else {
        assert(distinct_ids(s.drop_last()));
        lemma_entries_map_index(s.drop_last(), i);
        assert(s.drop_last()[i] == s[i]);
        assert(s[i].id@ != s.last().id@);
    }
}

/// Removing the entry at `i` removes exactly that identifier from the map.
pub proof fn lemma_entries_map_remove(s: Seq<Entry>, i: int)
    requires
        distinct_ids(s),
        0 <= i < s.len(),
    ensures
        distinct_ids(s.remove(i)),
        entries_map(s.remove(i)) == entries_map(s).remove(s[i].id@),
    decreases s.len(),
{
    assert(distinct_ids(s.remove(i)));
    if i == s.len() - 1 {
        assert(s.remove(i) =~= s.drop_last());
        lemma_entries_map_contains(s.drop_last(), s[i].id@);
        assert(!entries_map(s.drop_last()).dom().contains(s[i].id@));
        assert_maps_equal!(
            entries_map(s.drop_last()).insert(s.last().id@, s.last().handle)
                .remove(s[i].id@),
            entries_map(s.drop_last())
        );
    } else {
        assert(distinct_ids(s.drop_last()));
        lemma_entries_map_remove(s.drop_last(), i);
        assert(s.remove(i).drop_last() =~= s.drop_last().remove(i));
        assert(s.remove(i).last() == s.last());
        assert(s[i].id@ != s.last().id@);
        assert_maps_equal!(
            entries_map(s.drop_last()).remove(s[i].id@)
                .insert(s.last().id@, s.last().handle),
            entries_map(s.drop_last()).insert(s.last().id@, s.last().handle)
                .remove(s[i].id@)
        );
    }
}

impl ConnectionRegistry {
    /// Identifiers are pairwise distinct; every operation preserves this.
    pub closed spec fn wf(self) -> bool {
        distinct_ids(self.entries@)
    }

    /// The entries as a sequence, for contracts that speak of enumeration.
    pub closed spec fn entries_seq(self) -> Seq<Entry> {
        self.entries@
    }

    pub proof fn lemma_view_is_entries(self)
        ensures
            self@ == entries_map(self.entries_seq()),
    {
    }

    /// Well-formedness is exactly pairwise-distinct identifiers.
    pub proof fn lemma_wf_distinct(self)
        requires
            self.wf(),
        ensures
            distinct_ids(self.entries_seq()),
    {
    }

    /// One map element per entry.
    pub proof fn lemma_dom_len(self)
        requires
            self.wf(),
        ensures
            self@.dom().finite(),
            self@.dom().len() == self.entries_seq().len(),
    {
        lemma_entries_map_len(self.entries@);
    }

    /// An empty registry.
    pub fn new() -> (r: ConnectionRegistry)
        ensures
            r.wf(),
            r@ == Map::<Seq<char>, u64>::empty(),
            r.entries_seq().len() == 0,
    {
        ConnectionRegistry { entries: Vec::new() }
    }

    /// Index of the entry carrying `id`, if one does.
    fn find(&self, id: &str) -> (r: Option<usize>)
        requires
            self.wf(),
        ensures
            match r {
                Some(i) => i < self.entries@.len() && self.entries@[i as int].id@ == id@,
                None => forall|i: int|
                    0 <= i < self.entries@.len() ==> self.entries@[i].id@ != id@,
            },
    {
        let n = self.entries.len();
        for i in 0..n
            invariant
                n == self.entries@.len(),
                forall|j: int| 0 <= j < i ==> self.entries@[j].id@ != id@,
        {
            if str_eq(self.entries[i].id.as_str(), id) {
                return Some(i);
            }
        }
        None
    }

    /// Whether `id` is registered.
    pub fn contains(&self, id: &str) -> (r: bool)
        requires
            self.wf(),
        ensures
            r == self@.dom().contains(id@),
    {
        proof {
            lemma_entries_map_contains(self.entries@, id@);
        }
        self.find(id).is_some()
    }

    /// The handle token registered under `id`, or nothing.
    pub fn get(&self, id: &str) -> (r: Option<u64>)
        requires
            self.wf(),
        ensures
            r == if self@.dom().contains(id@) {
                Some(self@[id@])
            } else {
                None::<u64>
            },
    {
        proof {
            lemma_entries_map_contains(self.entries@, id@);
        }
        match self.find(id) {
            Some(i) => {
                proof {
                    lemma_entries_map_index(self.entries@, i as int);
                }
                Some(self.entries[i].handle)
            },
            None => None,
        }
    }

    /// Adds or replaces the handle for `id`; last write wins.
    pub fn insert(&mut self, id: String, handle: u64)
        requires
            old(self).wf(),
        ensures
            final(self).wf(),
            final(self)@ == old(self)@.insert(id@, handle),
    {
        self.remove(&id);
        proof {
            lemma_entries_map_contains(self.entries@, id@);
            assert(!self@.dom().contains(id@));
        }
        let ghost pre = self.entries@;
        self.entries.push(Entry { id, handle });
        proof {
            assert(self.entries@.drop_last() =~= pre);
            assert(forall|i: int|
                0 <= i < pre.len() ==> #[trigger] pre[i].id@ != self.entries@.last().id@)
                by {
                if exists|i: int| 0 <= i < pre.len() && #[trigger] pre[i].id@
                    == self.entries@.last().id@ {
                    let i = choose|i: int|
                        0 <= i < pre.len() && #[trigger] pre[i].id@
                            == self.entries@.last().id@;
                    lemma_entries_map_contains(pre, pre[i].id@);
                }
            }
        }
    }

    /// Removes the entry for `id` if present; a no-op otherwise.
    pub fn remove(&mut self, id: &str)
        requires
            old(self).wf(),
        ensures
            final(self).wf(),
            final(self)@ == old(self)@.remove(id@),
    {
        match self.find(id) {
            Some(i) => {
                proof {
                    lemma_entries_map_remove(self.entries@, i as int);
                }
                self.entries.remove(i);
            },
            None => {
                proof {
                    lemma_entries_map_contains(self.entries@, id@);
                    assert(!self@.dom().contains(id@));
                    assert_maps_equal!(self@.remove(id@), self@);
                }
            },
        }
    }

    /// The registered identifiers, one for each entry, in registry order.
    pub fn snapshot(&self) -> (r: Vec<String>)
        requires
            self.wf(),
        ensures
            r@.len() == self.entries_seq().len(),
            forall|i: int| 0 <= i < r@.len() ==> r@[i]@ == self.entries_seq()[i].id@,
            forall|i: int| 0 <= i < r@.len() ==> self@.dom().contains(r@[i]@),
            forall|id: Seq<char>|
                self@.dom().contains(id) ==> exists|i: int| 0 <= i < r@.len() && r@[i]@ == id,
    {
        let n = self.entries.len();
        let mut out: Vec<String> = Vec::new();
        for i in 0..n
            invariant
                n == self.entries@.len(),
                out@.len() == i,
                forall|j: int| 0 <= j < i ==> out@[j]@ == self.entries@[j].id@,
        {
            out.push(self.entries[i].id.clone());
        }
        proof {
            assert forall|id: Seq<char>| self@.dom().contains(id) implies exists|i: int|
                0 <= i < out@.len() && out@[i]@ == id by {
                lemma_entries_map_contains(self.entries@, id);
                let i = choose|i: int|
                    0 <= i < self.entries@.len() && self.entries@[i].id@ == id;
                assert(out@[i]@ == id);
            }
            assert forall|i: int| 0 <= i < out@.len() implies self@.dom().contains(out@[i]@) by {
                lemma_entries_map_contains(self.entries@, out@[i]@);
            }
        }
        out
    }

    /// How many connections are registered.
    pub fn len(&self) -> (r: usize)
        requires
            self.wf(),
        ensures
            r == self.entries_seq().len(),
            r == self@.dom().len(),
    {
        proof {
            lemma_entries_map_len(self.entries@);
        }
        self.entries.len()
    }

    /// A copy of the entries, identifier for identifier, handle for handle;
    /// what a broadcast walks.
    pub fn entries_copy(&self) -> (r: Vec<Entry>)
        requires
            self.wf(),
        ensures
            r@ == self.entries_seq(),
    {
        let n = self.entries.len();
        let mut out: Vec<Entry> = Vec::new();
        for i in 0..n
            invariant
                n == self.entries@.len(),
                out@.len() == i,
                forall|j: int| 0 <= j < i ==> out@[j] == self.entries@[j],
        {
            out.push(Entry { id: self.entries[i].id.clone(), handle: self.entries[i].handle });
        }
        proof {
            assert(out@ =~= self.entries@);
        }
        out
    }

    /// Empties the registry, handing every entry back so the caller can
    /// close each handle.
    pub fn drain(&mut self) -> (out: Vec<Entry>)
        requires
            old(self).wf(),
        ensures
            final(self).wf(),
            final(self)@ == Map::<Seq<char>, u64>::empty(),
            final(self).entries_seq().len() == 0,
            out@ == old(self).entries_seq(),
            entries_map(out@) == old(self)@,
    {
        let mut taken: Vec<Entry> = Vec::new();
        core::mem::swap(&mut taken, &mut self.entries);
        taken
    }
}

/// Equality of two string slices, decided through their owned forms, whose
/// comparison vstd specifies.
pub fn str_eq(a: &str, b: &str) -> (r: bool)
    ensures
        r == (a@ == b@),
{
    a.to_owned() == b.to_owned()
}

} // verus!
