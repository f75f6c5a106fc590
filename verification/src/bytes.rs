//! Byte strings in lexicographic order, and a map keyed by them.

use vstd::prelude::*;

verus! {

/// Whether `a` comes before `b` in lexicographic order.
pub open spec fn precedes(a: Seq<u8>, b: Seq<u8>) -> bool
    decreases a.len(),
{
    if b.len() == 0 {
        false
    } else if a.len() == 0 {
        true
    } else if a[0] != b[0] {
        a[0] < b[0]
    } else {
        precedes(a.drop_first(), b.drop_first())
    }
}

/// Nothing comes before itself.
pub proof fn lemma_precedes_irreflexive(a: Seq<u8>)
    ensures
        !precedes(a, a),
    decreases a.len(),
{
    if a.len() > 0 {
        lemma_precedes_irreflexive(a.drop_first());
    }
}

/// Lexicographic order is transitive.
pub proof fn lemma_precedes_transitive(a: Seq<u8>, b: Seq<u8>, c: Seq<u8>)
    requires
        precedes(a, b),
        precedes(b, c),
    ensures
        precedes(a, c),
    decreases a.len(),
{
    if a.len() > 0 && a[0] == b[0] && b[0] == c[0] {
        lemma_precedes_transitive(a.drop_first(), b.drop_first(), c.drop_first());
    }
}

/// Of two different byte strings one comes before the other.
pub proof fn lemma_precedes_total(a: Seq<u8>, b: Seq<u8>)
    ensures
        a == b || precedes(a, b) || precedes(b, a),
    decreases a.len(),
{
    if a.len() == 0 || b.len() == 0 {
        assert(a.len() == 0 && b.len() == 0 ==> a =~= b);
    } else if a[0] == b[0] {
        lemma_precedes_total(a.drop_first(), b.drop_first());
        if a.drop_first() == b.drop_first() {
            assert(a =~= seq![a[0]] + a.drop_first());
            assert(b =~= seq![b[0]] + b.drop_first());
        }
    }
}

/// Equal first bytes do not decide the order.
proof fn lemma_precedes_after_common_prefix(a: Seq<u8>, b: Seq<u8>, n: int)
    requires
        0 <= n <= a.len(),
        n <= b.len(),
        a.take(n) == b.take(n),
    ensures
        precedes(a, b) == precedes(a.skip(n), b.skip(n)),
    decreases n,
{
    if n == 0 {
        assert(a.skip(0) =~= a);
        assert(b.skip(0) =~= b);
    } else {
        assert(a.take(n)[0] == a[0] && b.take(n)[0] == b[0]);
        assert(a.drop_first().take(n - 1) =~= a.take(n).drop_first());
        assert(b.drop_first().take(n - 1) =~= b.take(n).drop_first());
        lemma_precedes_after_common_prefix(a.drop_first(), b.drop_first(), n - 1);
        assert(a.drop_first().skip(n - 1) =~= a.skip(n));
        assert(b.drop_first().skip(n - 1) =~= b.skip(n));
    }
}

/// Where one byte string stands in relation to another.
#[derive(Clone, Copy, Debug, PartialEq, Eq, Structural)]
pub enum Place {
    /// Before the other.
    Before,
    /// The same byte string.
    Same,
    /// After the other.
    After,
}

/// Places `a` in relation to `b`.
pub fn place(a: &[u8], b: &[u8]) -> (placed: Place)
    ensures
        match placed {
            Place::Before => precedes(a@, b@),
            Place::Same => a@ == b@,
            Place::After => precedes(b@, a@),
        },
{
    let mut i: usize = 0;
    while i < a.len() && i < b.len()
        invariant
            i <= a@.len(),
            i <= b@.len(),
            a@.take(i as int) == b@.take(i as int),
        decreases a@.len() - i,
    {
        if a[i] != b[i] {
            proof {
                lemma_precedes_after_common_prefix(a@, b@, i as int);
                lemma_precedes_after_common_prefix(b@, a@, i as int);
            }
            if a[i] < b[i] {
                return Place::Before;
            } else {
                return Place::After;
            }
        }
        assert(a@.take(i + 1) =~= a@.take(i as int).push(a@[i as int]));
        assert(b@.take(i + 1) =~= b@.take(i as int).push(b@[i as int]));
        i = i + 1;
    }
    proof {
        lemma_precedes_after_common_prefix(a@, b@, i as int);
        lemma_precedes_after_common_prefix(b@, a@, i as int);
    }
    if i < b.len() {
        Place::Before
    } else if i < a.len() {
        Place::After
    } else {
        assert(a@.take(i as int) =~= a@);
        assert(b@.take(i as int) =~= b@);
        Place::Same
    }
}

/// Whether two byte strings are the same.
pub fn same_bytes(a: &[u8], b: &[u8]) -> (same: bool)
    ensures
        same == (a@ == b@),
{
    proof {
        lemma_precedes_irreflexive(a@);
    }
    match place(a, b) {
        Place::Same => true,
        _ => false,
    }
}

/// Copies a byte string.
pub fn copy_bytes(bytes: &[u8]) -> (copy: Vec<u8>)
    ensures
        copy@ == bytes@,
{
    let mut copy: Vec<u8> = Vec::new();
    copy.extend_from_slice(bytes);
    assert(copy@ =~= bytes@);
    copy
}

/// A map from byte strings to values, kept in lexicographic key order.
#[derive(Debug, PartialEq, Eq)]
pub struct ByteMap<V> {
    entries: Vec<(Vec<u8>, V)>,
}

/// The order is the lexicographic one: `a` comes before `b` where they agree up to a place at
/// which `a` has the smaller byte, or at which `a` ends and `b` goes on.
pub proof fn law_order_is_lexicographic(a: Seq<u8>, b: Seq<u8>, n: int)
    requires
        0 <= n <= a.len(),
        n <= b.len(),
        forall|i: int| 0 <= i < n ==> #[trigger] a[i] == b[i],
    ensures
        n == a.len() && n < b.len() ==> precedes(a, b) && !precedes(b, a),
        n < a.len() && n < b.len() && a[n] < b[n] ==> precedes(a, b) && !precedes(b, a),
        n == a.len() && n == b.len() ==> !precedes(a, b) && !precedes(b, a),
    decreases n,
{
    if n > 0 {
        let (rest, other) = (a.drop_first(), b.drop_first());
        assert(a[0] == b[0]);
        assert forall|i: int| 0 <= i < n - 1 implies #[trigger] rest[i] == other[i] by {
            assert(a[i + 1] == b[i + 1]);
        }
        law_order_is_lexicographic(rest, other, n - 1);
    }
}

/// Whether the keys of `entries` strictly ascend.
pub open spec fn ascending<V>(entries: Seq<(Vec<u8>, V)>) -> bool {
    forall|i: int, j: int|
        0 <= i < j < entries.len() ==> precedes(#[trigger] entries[i].0@, #[trigger] entries[j].0@)
}

/// Whether some entry has the key `key`.
pub open spec fn has_key<V>(entries: Seq<(Vec<u8>, V)>, key: Seq<u8>) -> bool {
    exists|i: int| 0 <= i < entries.len() && #[trigger] entries[i].0@ == key
}

/// The map that `entries` lists.
pub open spec fn listed<V>(entries: Seq<(Vec<u8>, V)>) -> Map<Seq<u8>, V> {
    Map::new(
        |key: Seq<u8>| has_key(entries, key),
        |key: Seq<u8>|
            entries[choose|i: int| 0 <= i < entries.len() && #[trigger] entries[i].0@ == key].1,
    )
}

/// In a list with ascending keys each entry is what the map holds under its key.
pub proof fn lemma_listed<V>(entries: Seq<(Vec<u8>, V)>, i: int)
    requires
        ascending(entries),
        0 <= i < entries.len(),
    ensures
        listed(entries).contains_key(entries[i].0@),
        listed(entries)[entries[i].0@] == entries[i].1,
{
    let key = entries[i].0@;
    assert(has_key(entries, key));
    let j = choose|j: int| 0 <= j < entries.len() && #[trigger] entries[j].0@ == key;
    lemma_precedes_irreflexive(key);
    assert(i == j);
}

/// One more entry brings its key and no other.
pub proof fn lemma_has_key_push<V>(entries: Seq<(Vec<u8>, V)>, i: int)
    requires
        0 <= i < entries.len(),
    ensures
        forall|key: Seq<u8>| #[trigger]
            has_key(entries.take(i + 1), key) <==> has_key(entries.take(i), key) || key
                == entries[i].0@,
{
    assert forall|key: Seq<u8>| #[trigger]
        has_key(entries.take(i + 1), key) <==> has_key(entries.take(i), key) || key
            == entries[i].0@ by {
        if has_key(entries.take(i), key) {
            let j = choose|j: int|
                0 <= j < entries.take(i).len() && #[trigger] entries.take(i)[j].0@ == key;
            assert(entries.take(i + 1)[j].0@ == key);
        }
        if key == entries[i].0@ {
            assert(entries.take(i + 1)[i].0@ == key);
        }
        if has_key(entries.take(i + 1), key) {
            let j = choose|j: int|
                0 <= j < entries.take(i + 1).len() && #[trigger] entries.take(i + 1)[j].0@ == key;
            if j < i {
                assert(entries.take(i)[j].0@ == key);
            }
        }
    }
}

impl<V> View for ByteMap<V> {
    type V = Map<Seq<u8>, V>;

    closed spec fn view(&self) -> Map<Seq<u8>, V> {
        listed(self.entries@)
    }
}

impl<V> ByteMap<V> {
    #[verifier::type_invariant]
    spec fn in_order(self) -> bool {
        ascending(self.entries@)
    }

    /// Builds the empty map.
    pub fn new() -> (map: Self)
        ensures
            map@ == Map::<Seq<u8>, V>::empty(),
    {
        let map = ByteMap { entries: Vec::new() };
        assert(map@ =~= Map::<Seq<u8>, V>::empty());
        map
    }

    /// The entries in ascending key order.
    pub closed spec fn in_key_order(self) -> Seq<(Vec<u8>, V)> {
        self.entries@
    }

    /// The entries in ascending key order.
    pub fn entries(&self) -> (entries: &Vec<(Vec<u8>, V)>)
        ensures
            entries@ == self.in_key_order(),
            ascending(entries@),
            listed(entries@) == self@,
    {
        proof {
            use_type_invariant(&*self);
        }
        &self.entries
    }

    /// Gives up the map for its entries in ascending key order.
    pub fn into_entries(self) -> (entries: Vec<(Vec<u8>, V)>)
        ensures
            ascending(entries@),
            listed(entries@) == self@,
    {
        proof {
            use_type_invariant(&self);
        }
        self.entries
    }

    /// The number of entries whose keys come before `key`.
    fn rank(&self, key: &[u8]) -> (rank: usize)
        ensures
            rank <= self.entries@.len(),
            forall|i: int| 0 <= i < rank ==> precedes(#[trigger] self.entries@[i].0@, key@),
            forall|i: int|
                rank <= i < self.entries@.len() ==> #[trigger] self.entries@[i].0@ == key@ || precedes(
                    key@,
                    self.entries@[i].0@,
                ),
            has_key(self.entries@, key@) <==> rank < self.entries@.len()
                && self.entries@[rank as int].0@ == key@,
    {
        proof {
            use_type_invariant(&*self);
            lemma_precedes_irreflexive(key@);
        }
        let mut rank: usize = 0;
        while rank < self.entries.len()
            invariant
                rank <= self.entries@.len(),
                ascending(self.entries@),
                !precedes(key@, key@),
                forall|i: int| 0 <= i < rank ==> precedes(#[trigger] self.entries@[i].0@, key@),
            decreases self.entries@.len() - rank,
        {
            match place(self.entries[rank].0.as_slice(), key) {
                Place::Before => {
                    rank = rank + 1;
                },
                _ => {
                    proof {
                        lemma_tail(self.entries@, rank as int, key@);
                    }
                    return rank;
                },
            }
        }
        rank
    }

    /// Puts `value` under `key`, in place of what the map held there.
    pub fn insert(&mut self, key: Vec<u8>, value: V)
        ensures
            final(self)@ == old(self)@.insert(key@, value),
    {
        proof {
            use_type_invariant(&*self);
        }
        let rank: usize = self.rank(key.as_slice());
        let ghost before = self.entries@;
        let ghost key_text = key@;
        let ghost entry = (key, value);
        let mut entries: Vec<(Vec<u8>, V)> = Vec::new();
        core::mem::swap(&mut entries, &mut self.entries);
        if rank < entries.len() && same_bytes(entries[rank].0.as_slice(), key.as_slice()) {
            entries.set(rank, (key, value));
            proof {
                lemma_update(before, rank as int, entry);
            }
        } else {
            entries.insert(rank, (key, value));
            proof {
                lemma_insert(before, rank as int, entry);
            }
        }
        self.entries = entries;
    }

    /// Takes `key` out of the map.
    pub fn remove(&mut self, key: &[u8])
        ensures
            final(self)@ == old(self)@.remove(key@),
    {
        proof {
            use_type_invariant(&*self);
        }
        let rank: usize = self.rank(key);
        let ghost before = self.entries@;
        if rank < self.entries.len() && same_bytes(self.entries[rank].0.as_slice(), key) {
            let mut entries: Vec<(Vec<u8>, V)> = Vec::new();
            core::mem::swap(&mut entries, &mut self.entries);
            let _removed = entries.remove(rank);
            proof {
                lemma_remove(before, rank as int);
            }
            self.entries = entries;
        } else {
            assert(!has_key(before, key@));
            assert(self@ =~= old(self)@.remove(key@));
        }
    }

    /// Whether the map holds `key`.
    pub fn contains_key(&self, key: &[u8]) -> (held: bool)
        ensures
            held == self@.contains_key(key@),
    {
        let rank: usize = self.rank(key);
        rank < self.entries.len() && same_bytes(self.entries[rank].0.as_slice(), key)
    }
}

proof fn lemma_tail<V>(entries: Seq<(Vec<u8>, V)>, rank: int, key: Seq<u8>)
    requires
        ascending(entries),
        0 <= rank < entries.len(),
        entries[rank].0@ == key || precedes(key, entries[rank].0@),
        forall|i: int| 0 <= i < rank ==> precedes(#[trigger] entries[i].0@, key),
    ensures
        forall|i: int|
            rank <= i < entries.len() ==> #[trigger] entries[i].0@ == key || precedes(
                key,
                entries[i].0@,
            ),
        has_key(entries, key) <==> entries[rank].0@ == key,
{
    lemma_precedes_irreflexive(key);
    assert forall|i: int| rank <= i < entries.len() implies #[trigger] entries[i].0@ == key
        || precedes(key, entries[i].0@) by {
        if rank < i && entries[rank].0@ != key {
            lemma_precedes_transitive(key, entries[rank].0@, entries[i].0@);
        }
    }
    if has_key(entries, key) {
        let i = choose|i: int| 0 <= i < entries.len() && #[trigger] entries[i].0@ == key;
        if rank < i && entries[rank].0@ != key {
            lemma_precedes_transitive(key, entries[rank].0@, key);
        }
    }
}

proof fn lemma_update<V>(entries: Seq<(Vec<u8>, V)>, rank: int, entry: (Vec<u8>, V))
    requires
        ascending(entries),
        0 <= rank < entries.len(),
        entries[rank].0@ == entry.0@,
    ensures
        ascending(entries.update(rank, entry)),
        listed(entries.update(rank, entry)) == listed(entries).insert(entry.0@, entry.1),
{
    let after = entries.update(rank, entry);
    assert(ascending(after));
    let want = listed(entries).insert(entry.0@, entry.1);
    lemma_listed(after, rank);
    assert forall|key: Seq<u8>|
        #![trigger listed(after).dom().contains(key)]
        #![trigger want.dom().contains(key)]
        #![trigger listed(after)[key]]
        listed(after).dom().contains(key) == want.dom().contains(key) && (want.dom().contains(key)
            ==> listed(after)[key] == want[key]) by {
        if has_key(after, key) {
            let i = choose|i: int| 0 <= i < after.len() && #[trigger] after[i].0@ == key;
            lemma_listed(after, i);
            if i != rank {
                lemma_listed(entries, i);
                lemma_precedes_irreflexive(key);
                assert(after[i] == entries[i]);
                assert(key != entry.0@);
            }
        } else if has_key(entries, key) {
            let i = choose|i: int| 0 <= i < entries.len() && #[trigger] entries[i].0@ == key;
            assert(after[i].0@ == key);
        }
    }
    assert(listed(after) =~= want);
}

proof fn lemma_insert<V>(entries: Seq<(Vec<u8>, V)>, rank: int, entry: (Vec<u8>, V))
    requires
        ascending(entries),
        0 <= rank <= entries.len(),
        forall|i: int| 0 <= i < rank ==> precedes(#[trigger] entries[i].0@, entry.0@),
        forall|i: int| rank <= i < entries.len() ==> precedes(entry.0@, #[trigger] entries[i].0@),
    ensures
        ascending(entries.insert(rank, entry)),
        listed(entries.insert(rank, entry)) == listed(entries).insert(entry.0@, entry.1),
{
    let after = entries.insert(rank, entry);
    assert(ascending(after));
    let want = listed(entries).insert(entry.0@, entry.1);
    assert(after[rank] == entry);
    lemma_listed(after, rank);
    assert forall|key: Seq<u8>|
        #![trigger listed(after).dom().contains(key)]
        #![trigger want.dom().contains(key)]
        #![trigger listed(after)[key]]
        listed(after).dom().contains(key) == want.dom().contains(key) && (want.dom().contains(key)
            ==> listed(after)[key] == want[key]) by {
        if has_key(after, key) {
            let i = choose|i: int| 0 <= i < after.len() && #[trigger] after[i].0@ == key;
            lemma_listed(after, i);
            if i != rank {
                let j = if i < rank {
                    i
                } else {
                    i - 1
                };
                assert(after[i] == entries[j]);
                lemma_listed(entries, j);
                lemma_precedes_irreflexive(key);
                assert(key != entry.0@);
            }
        } else if has_key(entries, key) {
            let i = choose|i: int| 0 <= i < entries.len() && #[trigger] entries[i].0@ == key;
            let j = if i < rank {
                i
            } else {
                i + 1
            };
            assert(after[j] == entries[i]);
            assert(after[j].0@ == key);
        }
    }
    assert(listed(after) =~= want);
}

proof fn lemma_remove<V>(entries: Seq<(Vec<u8>, V)>, rank: int)
    requires
        ascending(entries),
        0 <= rank < entries.len(),
    ensures
        ascending(entries.remove(rank)),
        listed(entries.remove(rank)) == listed(entries).remove(entries[rank].0@),
{
    let after = entries.remove(rank);
    let gone = entries[rank].0@;
    assert(ascending(after));
    let want = listed(entries).remove(gone);
    lemma_precedes_irreflexive(gone);
    assert forall|key: Seq<u8>|
        #![trigger listed(after).dom().contains(key)]
        #![trigger want.dom().contains(key)]
        #![trigger listed(after)[key]]
        listed(after).dom().contains(key) == want.dom().contains(key) && (want.dom().contains(key)
            ==> listed(after)[key] == want[key]) by {
        if has_key(after, key) {
            let i = choose|i: int| 0 <= i < after.len() && #[trigger] after[i].0@ == key;
            let j = if i < rank {
                i
            } else {
                i + 1
            };
            assert(after[i] == entries[j]);
            lemma_listed(after, i);
            lemma_listed(entries, j);
            assert(key != gone);
        } else if has_key(entries, key) && key != gone {
            let i = choose|i: int| 0 <= i < entries.len() && #[trigger] entries[i].0@ == key;
            let j = if i < rank {
                i
            } else {
                i - 1
            };
            assert(after[j] == entries[i]);
            assert(after[j].0@ == key);
        }
    }
    assert(listed(after) =~= want);
}

} // verus!
