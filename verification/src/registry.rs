//! The capability registry: a mapping from interface identifier to
//! dispatch-table pointer.
//!
//! Keys are unique and insertion order is irrelevant, so the registry is
//! modeled as a `Map<u32, u64>`.  The executable representation is a vector
//! of entries with pairwise-distinct keys.

use vstd::prelude::*;

verus! {

/// Mapping from interface identifier to dispatch-table pointer.
pub struct Registry {
    entries: Vec<(u32, u64)>,
}

/// The map an entry sequence denotes; later entries would win, though a
/// well-formed registry never repeats a key.
pub open spec fn entries_map(s: Seq<(u32, u64)>) -> Map<u32, u64>
    decreases s.len(),
{
    if s.len() == 0 {
        Map::empty()
    } else {
        entries_map(s.drop_last()).insert(s.last().0, s.last().1)
    }
}

/// The keys of `entries_map` are exactly the keys of the entries.
pub proof fn lemma_entries_map_dom(s: Seq<(u32, u64)>, k: u32)
    ensures
        entries_map(s).dom().contains(k) <==> exists|i: int|
            0 <= i < s.len() && (#[trigger] s[i]).0 == k,
    decreases s.len(),
{
    if s.len() > 0 {
        lemma_entries_map_dom(s.drop_last(), k);
        if s.last().0 == k {
            assert((s[s.len() - 1]).0 == k);
        } else if entries_map(s).dom().contains(k) {
            let i = choose|i: int| 0 <= i < s.drop_last().len() && (#[trigger] s.drop_last()[i]).0
                == k;
            assert((s[i]).0 == k);
        } else {
            assert forall|i: int| 0 <= i < s.len() && (#[trigger] s[i]).0 == k implies false by {
                assert(s.drop_last()[i] == s[i]);
            }
        }
    }
}

/// With pairwise-distinct keys, any entry holding key `k` gives the map's
/// value at `k`.
pub proof fn lemma_entries_map_at(s: Seq<(u32, u64)>, i: int)
    requires
        unique_keys(s),
        0 <= i < s.len(),
    ensures
        entries_map(s).dom().contains(s[i].0),
        entries_map(s)[s[i].0] == s[i].1,
    decreases s.len(),
{
    if i == s.len() - 1 {
        lemma_entries_map_dom(s, s[i].0);
    } else {
        lemma_entries_map_at(s.drop_last(), i);
        assert(s.drop_last()[i] == s[i]);
        assert(s.last().0 != s[i].0);
    }
}

/// No two entries share a key.
pub open spec fn unique_keys(s: Seq<(u32, u64)>) -> bool {
    forall|i: int, j: int| 0 <= i < j < s.len() ==> (#[trigger] s[i]).0 != (#[trigger] s[j]).0
}

impl Registry {
    /// Pairwise-distinct keys: the representation invariant.
    pub closed spec fn wf(&self) -> bool {
        unique_keys(self.entries@)
    }

    /// The mapping this registry denotes.
    pub closed spec fn as_map(&self) -> Map<u32, u64> {
        entries_map(self.entries@)
    }

    /// An empty registry.
    pub fn new() -> (r: Registry)
        ensures
            r.wf(),
            r.as_map() == Map::<u32, u64>::empty(),
    {
        Registry { entries: Vec::new() }
    }

    /// Looks an interface identifier up.
    pub fn lookup(&self, key: u32) -> (r: Option<u64>)
        requires
            self.wf(),
        ensures
            r matches Some(v) ==> self.as_map().dom().contains(key) && self.as_map()[key] == v,
            r is None ==> !self.as_map().dom().contains(key),
    {
        let n = self.entries.len();
        let mut i: usize = 0;
        while i < n
            invariant
                n == self.entries@.len(),
                0 <= i <= n,
                self.wf(),
                forall|j: int| 0 <= j < i ==> (#[trigger] self.entries@[j]).0 != key,
            decreases n - i,
        {
            let (k, v) = self.entries[i];
            if k == key {
                proof {
                    lemma_entries_map_at(self.entries@, i as int);
                }
                return Some(v);
            }
            i += 1;
        }
        proof {
            lemma_entries_map_dom(self.entries@, key);
        }
        None
    }

    /// Whether an interface identifier is present.
    pub fn contains(&self, key: u32) -> (r: bool)
        requires
            self.wf(),
        ensures
            r == self.as_map().dom().contains(key),
    {
        match self.lookup(key) {
            Some(_) => true,
            None => false,
        }
    }

    /// Inserts a (key, value) entry, overwriting any prior entry of the key.
    pub fn insert(&mut self, key: u32, val: u64)
        requires
            old(self).wf(),
        ensures
            final(self).wf(),
            final(self).as_map() == old(self).as_map().insert(key, val),
    {
        let n = self.entries.len();
        let mut i: usize = 0;
        while i < n
            invariant
                n == self.entries@.len(),
                0 <= i <= n,
                self.wf(),
                *self == *old(self),
                forall|j: int| 0 <= j < i ==> (#[trigger] self.entries@[j]).0 != key,
            decreases n - i,
        {
            let (k, _) = self.entries[i];
            if k == key {
                proof {
                    lemma_entries_map_update(self.entries@, i as int, val);
                }
                self.entries.set(i, (key, val));
                return ;
            }
            i += 1;
        }
        proof {
            lemma_entries_map_dom(self.entries@, key);
            assert(self.entries@.push((key, val)).drop_last() =~= self.entries@);
        }
        self.entries.push((key, val));
    }

    /// A copy of this registry, denoting the same mapping; dispatch tables
    /// are (type, interface) constants, so copying them keeps them valid.
    pub fn duplicate(&self) -> (r: Registry)
        requires
            self.wf(),
        ensures
            r.wf(),
            r.as_map() == self.as_map(),
    {
        let n = self.entries.len();
        let mut out: Vec<(u32, u64)> = Vec::new();
        let mut i: usize = 0;
        while i < n
            invariant
                n == self.entries@.len(),
                0 <= i <= n,
                out@ =~= self.entries@.take(i as int),
            decreases n - i,
        {
            let (k, v) = self.entries[i];
            out.push((k, v));
            i += 1;
        }
        proof {
            assert(out@ =~= self.entries@);
        }
        Registry { entries: out }
    }
}

/// Overwriting the value of the entry at `i` (whose key is unique in `s`)
/// updates the denoted map at that key alone.
pub proof fn lemma_entries_map_update(s: Seq<(u32, u64)>, i: int, val: u64)
    requires
        unique_keys(s),
        0 <= i < s.len(),
    ensures
        unique_keys(s.update(i, (s[i].0, val))),
        entries_map(s.update(i, (s[i].0, val))) == entries_map(s).insert(s[i].0, val),
    decreases s.len(),
{
    let key = s[i].0;
    let t = s.update(i, (key, val));
    assert forall|p: int, q: int| 0 <= p < q < t.len() implies (#[trigger] t[p]).0 != (
    #[trigger] t[q]).0 by {
        assert(t[p].0 == s[p].0 && t[q].0 == s[q].0);
    }
    if i == s.len() - 1 {
        assert(t.drop_last() =~= s.drop_last());
        assert(entries_map(t) =~= entries_map(s).insert(key, val));
    } else {
        lemma_entries_map_update(s.drop_last(), i, val);
        assert(t.drop_last() =~= s.drop_last().update(i, (key, val)));
        assert(s.last().0 != key);
        assert(t.last() == s.last());
        assert(entries_map(t) == entries_map(s.drop_last()).insert(key, val).insert(
            s.last().0,
            s.last().1,
        ));
        assert(entries_map(t) =~= entries_map(s).insert(key, val));
    }
}

} // verus!
