//! The registry: a map from claim to ownership record, kept as a vector of entries
//! in strictly rising key order and searched by bisection.

use vstd::prelude::*;
use crate::order::{
    lemma_lex_less_total, lemma_lex_less_transitive, lex_compare, lex_less, Lex,
};
use crate::record::{OwnershipRecord, OwnershipRecordView};

verus! {

/// One claim with its record.
struct Entry {
    key: Vec<u8>,
    record: OwnershipRecord,
}

/// The key of the `i`-th entry.
spec fn key_at(s: Seq<Entry>, i: int) -> Seq<u8> {
    s[i].key@
}

/// The keys rise strictly from each entry to the next, so none occurs twice.
spec fn sorted(s: Seq<Entry>) -> bool {
    forall|i: int, j: int|
        0 <= i < j < s.len() ==> lex_less(#[trigger] key_at(s, i), #[trigger] key_at(s, j))
}

/// Some entry has the key `k`.
spec fn holds(s: Seq<Entry>, k: Seq<u8>) -> bool {
    exists|i: int| 0 <= i < s.len() && #[trigger] key_at(s, i) == k
}

/// The place of an entry with the key `k`.
spec fn index_of(s: Seq<Entry>, k: Seq<u8>) -> int {
    choose|i: int| 0 <= i < s.len() && #[trigger] key_at(s, i) == k
}

/// The map that the entries spell out.
spec fn as_map(s: Seq<Entry>) -> Map<Seq<u8>, OwnershipRecordView> {
    Map::new(|k: Seq<u8>| holds(s, k), |k: Seq<u8>| s[index_of(s, k)].record@)
}

/// Every key before `p` comes before `k`, and `k` comes before every key from `p` on.
spec fn splits_at(s: Seq<Entry>, k: Seq<u8>, p: int) -> bool {
    &&& 0 <= p <= s.len()
    &&& forall|j: int| 0 <= j < p ==> lex_less(#[trigger] key_at(s, j), k)
    &&& forall|j: int| p <= j < s.len() ==> lex_less(k, #[trigger] key_at(s, j))
}

/// In a sorted sequence a key is found at one place only, and the map holds its record.
proof fn lemma_entry_in_map(s: Seq<Entry>, i: int)
    requires
        sorted(s),
        0 <= i < s.len(),
    ensures
        holds(s, key_at(s, i)),
        index_of(s, key_at(s, i)) == i,
        as_map(s).dom().contains(key_at(s, i)),
        as_map(s)[key_at(s, i)] == s[i].record@,
{
}

/// A key that falls between two neighbours is not among the keys.
proof fn lemma_split_means_absent(s: Seq<Entry>, k: Seq<u8>, p: int)
    requires
        splits_at(s, k, p),
    ensures
        !holds(s, k),
{
}

/// Putting a new entry where its key splits the sequence keeps the order and adds the
/// entry to the map.
proof fn lemma_insert_at(s: Seq<Entry>, p: int, e: Entry)
    requires
        sorted(s),
        splits_at(s, e.key@, p),
    ensures
        sorted(s.insert(p, e)),
        as_map(s.insert(p, e)) == as_map(s).insert(e.key@, e.record@),
{
    let t = s.insert(p, e);
    // The entries before `p` keep their places, those from `p` on move up by one.
    assert forall|i: int| 0 <= i < t.len() && i != p implies key_at(t, i) == key_at(
        s,
        if i < p {
            i
        } else {
            i - 1
        },
    ) by {}
    assert(sorted(t));
    lemma_entry_in_map(t, p);
    assert forall|k: Seq<u8>| holds(s, k) implies holds(t, k) by {
        let i = index_of(s, k);
        assert(key_at(t, if i < p { i } else { i + 1 }) == k);
    }
    assert forall|k: Seq<u8>| holds(t, k) && k != e.key@ implies holds(s, k) && as_map(t)[k]
        == as_map(s)[k] by {
        let i = index_of(t, k);
        let j = if i < p { i } else { i - 1 };
        assert(key_at(s, j) == k);
        lemma_entry_in_map(s, j);
    }
}

/// Putting an entry in the place of one with the same key keeps the order and
/// replaces the record in the map.
proof fn lemma_update_at(s: Seq<Entry>, p: int, e: Entry)
    requires
        sorted(s),
        0 <= p < s.len(),
        key_at(s, p) == e.key@,
    ensures
        sorted(s.update(p, e)),
        as_map(s.update(p, e)) == as_map(s).insert(e.key@, e.record@),
{
    let t = s.update(p, e);
    assert forall|i: int| 0 <= i < s.len() implies key_at(t, i) == key_at(s, i) by {}
    assert(sorted(t));
    lemma_entry_in_map(t, p);
    assert forall|k: Seq<u8>| holds(s, k) implies holds(t, k) by {
        assert(key_at(t, index_of(s, k)) == k);
    }
    assert forall|k: Seq<u8>| holds(t, k) && k != e.key@ implies holds(s, k) && as_map(t)[k]
        == as_map(s)[k] by {
        let i = index_of(t, k);
        assert(key_at(s, i) == k);
        lemma_entry_in_map(s, i);
    }
}

/// Taking an entry out keeps the order and removes its key from the map.
proof fn lemma_remove_at(s: Seq<Entry>, p: int)
    requires
        sorted(s),
        0 <= p < s.len(),
    ensures
        sorted(s.remove(p)),
        as_map(s.remove(p)) == as_map(s).remove(key_at(s, p)),
{
    let t = s.remove(p);
    // The entries before `p` keep their places, those after it move down by one.
    assert forall|i: int| 0 <= i < t.len() implies key_at(t, i) == key_at(
        s,
        if i < p {
            i
        } else {
            i + 1
        },
    ) by {}
    assert(sorted(t));
    assert forall|k: Seq<u8>| holds(s, k) && k != key_at(s, p) implies holds(t, k) by {
        let i = index_of(s, k);
        assert(key_at(t, if i < p { i } else { i - 1 }) == k);
    }
    assert forall|k: Seq<u8>| holds(t, k) implies holds(s, k) && k != key_at(s, p) && as_map(
        t,
    )[k] == as_map(s)[k] by {
        let i = index_of(t, k);
        let j = if i < p { i } else { i + 1 };
        assert(key_at(s, j) == k);
        lemma_entry_in_map(s, j);
        lemma_entry_in_map(s, p);
    }
}

/// The keys of the entries, in their order.
spec fn keys(s: Seq<Entry>) -> Seq<Seq<u8>> {
    Seq::new(s.len(), |i: int| key_at(s, i))
}

/// A sorted sequence spells out a map with as many keys as it has entries.
proof fn lemma_as_many_keys_as_entries(s: Seq<Entry>)
    requires
        sorted(s),
    ensures
        as_map(s).dom().finite(),
        as_map(s).dom().len() == s.len(),
{
    let ks = keys(s);
    assert forall|i: int, j: int| 0 <= i < j < ks.len() implies ks[i] != ks[j] by {
        assert(lex_less(key_at(s, i), key_at(s, j)));
    }
    ks.unique_seq_to_set();
    assert forall|k: Seq<u8>| holds(s, k) implies ks.contains(k) by {
        assert(ks[index_of(s, k)] == k);
    }
    assert(as_map(s).dom() =~= ks.to_set());
}

/// The registry's state: which claims are live, and the ownership record of each.
pub struct Registry {
    entries: Vec<Entry>,
}

impl View for Registry {
    type V = Map<Seq<u8>, OwnershipRecordView>;

    closed spec fn view(&self) -> Map<Seq<u8>, OwnershipRecordView> {
        as_map(self.entries@)
    }
}

impl Registry {
    #[verifier::type_invariant]
    spec fn well_formed(self) -> bool {
        sorted(self.entries@)
    }

    /// A registry without claims.
    pub fn new() -> (registry: Registry)
        ensures
            registry@ == Map::<Seq<u8>, OwnershipRecordView>::empty(),
    {
        Registry { entries: Vec::new() }
    }

    /// How many claims are live.
    pub fn len(&self) -> (n: usize)
        ensures
            self@.dom().finite(),
            n == self@.dom().len(),
    {
        proof {
            use_type_invariant(self);
            lemma_as_many_keys_as_entries(self.entries@);
        }
        self.entries.len()
    }

    /// Whether no claim is live.
    pub fn is_empty(&self) -> (r: bool)
        ensures
            r == (self@ == Map::<Seq<u8>, OwnershipRecordView>::empty()),
    {
        proof {
            use_type_invariant(self);
            if self.entries@.len() > 0 {
                lemma_entry_in_map(self.entries@, 0);
            } else {
                assert(self@ =~= Map::<Seq<u8>, OwnershipRecordView>::empty());
            }
        }
        self.entries.len() == 0
    }

    /// Looks for `key` by bisection: the place where it is, or else the place where it
    /// would have to go.
    fn search(&self, key: &[u8]) -> (r: Result<usize, usize>)
        ensures
            match r {
                Ok(i) => i < self.entries@.len() && key_at(self.entries@, i as int) == key@,
                Err(p) => splits_at(self.entries@, key@, p as int),
            },
    {
        proof {
            use_type_invariant(self);
        }
        let mut lo: usize = 0;
        let mut hi: usize = self.entries.len();
        while lo < hi
            invariant
                sorted(self.entries@),
                lo <= hi <= self.entries@.len(),
                forall|j: int| 0 <= j < lo ==> lex_less(#[trigger] key_at(self.entries@, j), key@),
                forall|j: int|
                    hi <= j < self.entries@.len() ==> lex_less(
                        key@,
                        #[trigger] key_at(self.entries@, j),
                    ),
            decreases hi - lo,
        {
            let mid: usize = lo + (hi - lo) / 2;
            let ghost mid_key = key_at(self.entries@, mid as int);
            match lex_compare(self.entries[mid].key.as_slice(), key) {
                Lex::Equal => {
                    return Ok(mid);
                },
                Lex::Less => {
                    proof {
                        assert forall|j: int| 0 <= j < mid + 1 implies lex_less(
                            #[trigger] key_at(self.entries@, j),
                            key@,
                        ) by {
                            if j < mid {
                                lemma_lex_less_transitive(key_at(self.entries@, j), mid_key, key@);
                            }
                        }
                    }
                    lo = mid + 1;
                },
                Lex::Greater => {
                    proof {
                        lemma_lex_less_total(mid_key, key@);
                        assert forall|j: int| mid <= j < self.entries@.len() implies lex_less(
                            key@,
                            #[trigger] key_at(self.entries@, j),
                        ) by {
                            if mid < j {
                                lemma_lex_less_transitive(key@, mid_key, key_at(self.entries@, j));
                            }
                        }
                    }
                    hi = mid;
                },
            }
        }
        Err(lo)
    }

    /// Whether `key` is a live claim.
    pub fn contains_key(&self, key: &[u8]) -> (r: bool)
        ensures
            r == self@.dom().contains(key@),
    {
        proof {
            use_type_invariant(self);
        }
        match self.search(key) {
            Ok(i) => {
                proof {
                    lemma_entry_in_map(self.entries@, i as int);
                }
                true
            },
            Err(p) => {
                proof {
                    lemma_split_means_absent(self.entries@, key@, p as int);
                }
                false
            },
        }
    }

    /// The record of `key`, if it is a live claim.
    pub fn get(&self, key: &[u8]) -> (r: Option<&OwnershipRecord>)
        ensures
            match r {
                Some(record) => self@.dom().contains(key@) && record@ == self@[key@],
                None => !self@.dom().contains(key@),
            },
    {
        proof {
            use_type_invariant(self);
        }
        match self.search(key) {
            Ok(i) => {
                proof {
                    lemma_entry_in_map(self.entries@, i as int);
                }
                Some(&self.entries[i].record)
            },
            Err(p) => {
                proof {
                    lemma_split_means_absent(self.entries@, key@, p as int);
                }
                None
            },
        }
    }

    /// Sets the record of `key`, whether or not the key was there before.
    pub fn insert(&mut self, key: Vec<u8>, record: OwnershipRecord)
        ensures
            final(self)@ == old(self)@.insert(key@, record@),
    {
        proof {
            use_type_invariant(&*self);
        }
        let found = self.search(key.as_slice());
        let entry = Entry { key, record };
        let mut entries: Vec<Entry> = Vec::new();
        std::mem::swap(&mut entries, &mut self.entries);
        match found {
            Ok(i) => {
                proof {
                    lemma_update_at(entries@, i as int, entry);
                }
                entries.set(i, entry);
            },
            Err(p) => {
                proof {
                    lemma_insert_at(entries@, p as int, entry);
                }
                entries.insert(p, entry);
            },
        }
        self.entries = entries;
    }

    /// Takes `key` out, if it is there.
    pub fn remove(&mut self, key: &[u8])
        ensures
            final(self)@ == old(self)@.remove(key@),
    {
        proof {
            use_type_invariant(&*self);
        }
        match self.search(key) {
            Ok(i) => {
                let mut entries: Vec<Entry> = Vec::new();
                std::mem::swap(&mut entries, &mut self.entries);
                proof {
                    lemma_remove_at(entries@, i as int);
                }
                entries.remove(i);
                self.entries = entries;
            },
            Err(p) => {
                proof {
                    lemma_split_means_absent(self.entries@, key@, p as int);
                }
            },
        }
    }
}

} // verus!
