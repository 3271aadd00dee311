//! A map from strings to values whose entries are kept in the order of their
//! keys, so that walking it is deterministic. Keys are ordered as `str`
//! orders them: byte by byte over their UTF-8 encoding.

use vstd::prelude::*;
use vstd::utf8::encode_utf8;
use vstd::utf8::encode_utf8_decode_utf8;

verus! {

/// `a` and `b` agree on their first `k` bytes, and at position `k` either
/// `a` ends while `b` goes on, or `a` holds the smaller byte.
pub open spec fn differs_first_at(a: Seq<u8>, b: Seq<u8>, k: int) -> bool {
    &&& 0 <= k <= a.len()
    &&& k <= b.len()
    &&& a.take(k) == b.take(k)
    &&& if k == a.len() {
        k < b.len()
    } else {
        k < b.len() && a[k] < b[k]
    }
}

/// Strict lexicographic order on byte strings.
pub open spec fn bytes_precede(a: Seq<u8>, b: Seq<u8>) -> bool {
    exists|k: int| differs_first_at(a, b, k)
}

/// Strict order on keys: the lexicographic order of their UTF-8 encodings.
pub open spec fn key_precedes(a: Seq<char>, b: Seq<char>) -> bool {
    bytes_precede(encode_utf8(a), encode_utf8(b))
}

/// The keys of the entries strictly increase.
pub open spec fn ordered<T>(entries: Seq<(Seq<char>, T)>) -> bool {
    forall|i: int, j: int|
        0 <= i < j < entries.len() ==> key_precedes(
            (#[trigger] entries[i]).0,
            (#[trigger] entries[j]).0,
        )
}

/// Some entry has the key `k`.
pub open spec fn holds_key<T>(entries: Seq<(Seq<char>, T)>, k: Seq<char>) -> bool {
    exists|i: int| 0 <= i < entries.len() && (#[trigger] entries[i]).0 == k
}

/// The position of an entry with the key `k`, where there is one.
pub open spec fn slot_of<T>(entries: Seq<(Seq<char>, T)>, k: Seq<char>) -> int {
    choose|i: int| 0 <= i < entries.len() && (#[trigger] entries[i]).0 == k
}

/// The value stored under `k`, if any.
pub open spec fn lookup<T>(entries: Seq<(Seq<char>, T)>, k: Seq<char>) -> Option<T> {
    if holds_key(entries, k) {
        Some(entries[slot_of(entries, k)].1)
    } else {
        None
    }
}

/// The entries read as a mathematical map.
pub open spec fn as_map<T>(entries: Seq<(Seq<char>, T)>) -> Map<Seq<char>, T> {
    Map::new(|k: Seq<char>| holds_key(entries, k), |k: Seq<char>| entries[slot_of(entries, k)].1)
}

/// The keys of the entries, in their order.
pub open spec fn keys_of<T>(entries: Seq<(Seq<char>, T)>) -> Seq<Seq<char>> {
    Seq::new(entries.len(), |i: int| entries[i].0)
}

/// No byte string comes before itself.
pub proof fn lemma_bytes_precede_irreflexive(a: Seq<u8>)
    ensures
        !bytes_precede(a, a),
{
    assert forall|k: int| !differs_first_at(a, a, k) by {}
}

/// The order on byte strings is transitive.
pub proof fn lemma_bytes_precede_transitive(a: Seq<u8>, b: Seq<u8>, c: Seq<u8>)
    requires
        bytes_precede(a, b),
        bytes_precede(b, c),
    ensures
        bytes_precede(a, c),
{
    let k1 = choose|k: int| differs_first_at(a, b, k);
    let k2 = choose|k: int| differs_first_at(b, c, k);
    let k = if k1 <= k2 {
        k1
    } else {
        k2
    };
    assert forall|i: int| 0 <= i < k implies a[i] == c[i] by {
        assert(a.take(k1)[i] == b.take(k1)[i]);
        assert(b.take(k2)[i] == c.take(k2)[i]);
    }
    assert(a.take(k) =~= c.take(k));
    if k1 < k2 {
        assert(b.take(k2)[k1] == c.take(k2)[k1]);
    } else if k2 < k1 {
        assert(a.take(k1)[k2] == b.take(k1)[k2]);
    }
    assert(differs_first_at(a, c, k));
}

/// No key comes before itself.
pub proof fn lemma_key_precedes_irreflexive(a: Seq<char>)
    ensures
        !key_precedes(a, a),
{
    lemma_bytes_precede_irreflexive(encode_utf8(a));
}

/// The order on keys is transitive.
pub proof fn lemma_key_precedes_transitive(a: Seq<char>, b: Seq<char>, c: Seq<char>)
    requires
        key_precedes(a, b),
        key_precedes(b, c),
    ensures
        key_precedes(a, c),
{
    lemma_bytes_precede_transitive(encode_utf8(a), encode_utf8(b), encode_utf8(c));
}

/// In ordered entries a key occurs at one position only.
pub proof fn lemma_ordered_keys_distinct<T>(entries: Seq<(Seq<char>, T)>, i: int, j: int)
    requires
        ordered(entries),
        0 <= i < entries.len(),
        0 <= j < entries.len(),
        entries[i].0 == entries[j].0,
    ensures
        i == j,
{
    lemma_key_precedes_irreflexive(entries[i].0);
}

/// In ordered entries, the value found under the key of entry `i` is that
/// entry's value.
pub proof fn lemma_lookup_at<T>(entries: Seq<(Seq<char>, T)>, i: int)
    requires
        ordered(entries),
        0 <= i < entries.len(),
    ensures
        lookup(entries, entries[i].0) == Some(entries[i].1),
{
    let k = entries[i].0;
    assert(holds_key(entries, k));
    lemma_ordered_keys_distinct(entries, i, slot_of(entries, k));
}

/// What is found in the entries after the first is what is found in all of
/// them, but for the key of the first.
proof fn lemma_lookup_in_rest<T>(entries: Seq<(Seq<char>, T)>, k: Seq<char>)
    requires
        ordered(entries),
        entries.len() > 0,
    ensures
        ordered(entries.drop_first()),
        !holds_key(entries.drop_first(), entries[0].0),
        k != entries[0].0 ==> lookup(entries.drop_first(), k) == lookup(entries, k),
{
    let rest = entries.drop_first();
    assert forall|i: int, j: int| 0 <= i < j < rest.len() implies key_precedes(
        (#[trigger] rest[i]).0,
        (#[trigger] rest[j]).0,
    ) by {
        assert(rest[i] == entries[i + 1]);
        assert(rest[j] == entries[j + 1]);
    }
    if holds_key(rest, entries[0].0) {
        let i = slot_of(rest, entries[0].0);
        assert(rest[i] == entries[i + 1]);
        lemma_ordered_keys_distinct(entries, 0, i + 1);
    }
    if k != entries[0].0 {
        if holds_key(rest, k) {
            let i = slot_of(rest, k);
            assert(rest[i] == entries[i + 1]);
            lemma_lookup_at(rest, i);
            lemma_lookup_at(entries, i + 1);
        } else if holds_key(entries, k) {
            let i = slot_of(entries, k);
            assert(rest[i - 1] == entries[i]);
        }
    }
}

/// The order fixes the entries: ordered entries that hold the same values
/// under the same keys are the same entries in the same order.
pub proof fn lemma_ordered_entries_are_determined<T>(
    a: Seq<(Seq<char>, T)>,
    b: Seq<(Seq<char>, T)>,
)
    requires
        ordered(a),
        ordered(b),
        forall|k: Seq<char>| lookup(a, k) == lookup(b, k),
    ensures
        a == b,
    decreases a.len(),
{
    if a.len() == 0 {
        if b.len() > 0 {
            lemma_lookup_at(b, 0);
            assert(lookup(a, b[0].0) == lookup(b, b[0].0));
        }
        assert(a =~= b);
    } else {
        lemma_lookup_at(a, 0);
        assert(lookup(a, a[0].0) == lookup(b, a[0].0));
        let j = slot_of(b, a[0].0);
        lemma_lookup_at(b, 0);
        assert(lookup(a, b[0].0) == lookup(b, b[0].0));
        let i = slot_of(a, b[0].0);
        if j > 0 {
            if i > 0 {
                lemma_key_precedes_transitive(b[0].0, a[0].0, a[i].0);
            }
            lemma_key_precedes_irreflexive(b[0].0);
        }
        lemma_lookup_at(b, j);
        assert(a[0] == b[0]);
        let rest_a = a.drop_first();
        let rest_b = b.drop_first();
        assert forall|k: Seq<char>| lookup(rest_a, k) == lookup(rest_b, k) by {
            lemma_lookup_in_rest(a, k);
            lemma_lookup_in_rest(b, k);
            assert(lookup(a, k) == lookup(b, k));
        }
        lemma_lookup_in_rest(a, a[0].0);
        lemma_lookup_in_rest(b, b[0].0);
        lemma_ordered_entries_are_determined(rest_a, rest_b);
        assert(a =~= seq![a[0]] + rest_a);
        assert(b =~= seq![b[0]] + rest_b);
    }
}

/// Ordered entries that read as the same map are the same entries: what a
/// map holds fixes the order in which it is walked.
pub proof fn lemma_map_fixes_entries<T>(a: Seq<(Seq<char>, T)>, b: Seq<(Seq<char>, T)>)
    requires
        ordered(a),
        ordered(b),
        as_map(a) == as_map(b),
    ensures
        a == b,
{
    assert forall|k: Seq<char>| lookup(a, k) == lookup(b, k) by {
        assert(as_map(a).dom().contains(k) == holds_key(a, k));
        assert(as_map(b).dom().contains(k) == holds_key(b, k));
        if holds_key(a, k) {
            assert(as_map(a)[k] == a[slot_of(a, k)].1);
            assert(as_map(b)[k] == b[slot_of(b, k)].1);
        }
    }
    lemma_ordered_entries_are_determined(a, b);
}

/// How one key stands to another.
#[derive(Clone, Copy, Debug, PartialEq, Eq, Structural)]
pub enum Placement {
    Before,
    Same,
    After,
}

/// Where `a` stands relative to `b` in the order of keys.
pub fn place(a: &str, b: &str) -> (p: Placement)
    ensures
        p == Placement::Before ==> key_precedes(a@, b@),
        p == Placement::Same ==> a@ == b@,
        p == Placement::After ==> key_precedes(b@, a@),
{
    let x = a.as_bytes();
    let y = b.as_bytes();
    let mut i: usize = 0;
    while i < x.len() && i < y.len()
        invariant
            i <= x.len(),
            i <= y.len(),
            x@ == encode_utf8(a@),
            y@ == encode_utf8(b@),
            x@.take(i as int) == y@.take(i as int),
        decreases x.len() - i,
    {
        if x[i] < y[i] {
            assert(differs_first_at(x@, y@, i as int));
            return Placement::Before;
        }
        if y[i] < x[i] {
            assert(differs_first_at(y@, x@, i as int));
            return Placement::After;
        }
        assert(x@.take(i + 1) == x@.take(i as int).push(x@[i as int]));
        assert(y@.take(i + 1) == y@.take(i as int).push(y@[i as int]));
        i += 1;
    }
    if i < y.len() {
        assert(differs_first_at(x@, y@, i as int));
        Placement::Before
    } else if i < x.len() {
        assert(differs_first_at(y@, x@, i as int));
        Placement::After
    } else {
        proof {
            assert(x@.take(i as int) == x@);
            assert(y@.take(i as int) == y@);
            encode_utf8_decode_utf8(a@);
            encode_utf8_decode_utf8(b@);
        }
        Placement::Same
    }
}

/// A map from strings to values, ordered by key.
#[derive(Debug)]
pub struct StringMap<V: DeepView> {
    entries: Vec<(String, V)>,
}

impl<V: DeepView> DeepView for StringMap<V> {
    type V = Seq<(Seq<char>, V::V)>;

    closed spec fn deep_view(&self) -> Seq<(Seq<char>, V::V)> {
        self.entries.deep_view()
    }
}

impl<V: DeepView> View for StringMap<V> {
    type V = Seq<(Seq<char>, V::V)>;

    open spec fn view(&self) -> Seq<(Seq<char>, V::V)> {
        self.deep_view()
    }
}

impl<V: DeepView> StringMap<V> {
    #[verifier::type_invariant]
    spec fn keys_increase(&self) -> bool {
        ordered(self.entries.deep_view())
    }

    /// A map without entries.
    pub fn new() -> (m: Self)
        ensures
            m@ == Seq::<(Seq<char>, V::V)>::empty(),
    {
        let m = StringMap { entries: Vec::new() };
        assert(m.entries.deep_view() =~= Seq::<(Seq<char>, V::V)>::empty());
        m
    }

    /// The number of entries. Their keys strictly increase, as they do in
    /// every map.
    pub fn len(&self) -> (n: usize)
        ensures
            n == self@.len(),
            ordered(self@),
    {
        proof {
            use_type_invariant(self);
        }
        self.entries.len()
    }

    /// Whether the map has no entry.
    pub fn is_empty(&self) -> (empty: bool)
        ensures
            empty == (self@.len() == 0),
    {
        self.entries.len() == 0
    }

    /// The first position whose key does not come before `key`, and whether
    /// the entry there has that very key.
    fn locate(&self, key: &str) -> (at: (usize, bool))
        ensures
            at.0 <= self@.len(),
            forall|j: int| 0 <= j < at.0 ==> key_precedes((#[trigger] self@[j]).0, key@),
            at.1 ==> at.0 < self@.len() && self@[at.0 as int].0 == key@,
            !at.1 ==> forall|j: int|
                at.0 <= j < self@.len() ==> key_precedes(key@, (#[trigger] self@[j]).0),
            at.1 == holds_key(self@, key@),
    {
        proof {
            use_type_invariant(self);
        }
        let mut i: usize = 0;
        while i < self.entries.len()
            invariant
                i <= self.entries.len(),
                self@ == self.entries.deep_view(),
                ordered(self@),
                forall|j: int| 0 <= j < i ==> key_precedes((#[trigger] self@[j]).0, key@),
            decreases self.entries.len() - i,
        {
            match place(self.entries[i].0.as_str(), key) {
                Placement::Before => {
                    i += 1;
                },
                Placement::Same => {
                    assert(self@[i as int].0 == key@);
                    return (i, true);
                },
                Placement::After => {
                    proof {
                        let here = self@[i as int].0;
                        assert forall|j: int| i <= j < self@.len() implies key_precedes(
                            key@,
                            (#[trigger] self@[j]).0,
                        ) by {
                            if i < j {
                                lemma_key_precedes_transitive(key@, here, self@[j].0);
                            }
                        }
                        Self::lemma_absent(self@, key@, i as int);
                    }
                    return (i, false);
                },
            }
        }
        proof {
            Self::lemma_absent(self@, key@, i as int);
        }
        (i, false)
    }

    /// A key that parts the entries, the earlier ones before it and the
    /// later ones after it, is the key of none of them.
    proof fn lemma_absent(entries: Seq<(Seq<char>, V::V)>, key: Seq<char>, at: int)
        requires
            0 <= at <= entries.len(),
            forall|j: int| 0 <= j < at ==> key_precedes((#[trigger] entries[j]).0, key),
            forall|j: int| at <= j < entries.len() ==> key_precedes(key, (#[trigger] entries[j]).0),
        ensures
            !holds_key(entries, key),
    {
        lemma_key_precedes_irreflexive(key);
    }

    /// Whether `key` has an entry.
    pub fn contains_key(&self, key: &str) -> (found: bool)
        ensures
            found == as_map(self@).contains_key(key@),
    {
        self.locate(key).1
    }

    /// The value stored under `key`, if any.
    pub fn get(&self, key: &str) -> (found: Option<&V>)
        ensures
            found.deep_view() == as_map(self@).get(key@),
    {
        proof {
            use_type_invariant(self);
        }
        let at = self.locate(key);
        if at.1 {
            proof {
                lemma_lookup_at(self@, at.0 as int);
            }
            Some(&self.entries[at.0].1)
        } else {
            None
        }
    }

    /// Stores `value` under `key` and returns what was stored there before.
    /// The other entries stay as they were and the keys stay ordered.
    pub fn insert(&mut self, key: String, value: V) -> (previous: Option<V>)
        ensures
            as_map(final(self)@) == as_map(old(self)@).insert(key@, value.deep_view()),
            ordered(final(self)@),
            previous.deep_view() == as_map(old(self)@).get(key@),
            final(self)@.len() == old(self)@.len() + if previous is None {
                1nat
            } else {
                0nat
            },
    {
        proof {
            use_type_invariant(&*self);
        }
        let at = self.locate(key.as_str());
        let ghost before = self@;
        let ghost k = key@;
        let ghost v = value.deep_view();
        let mut taken = StringMap::new();
        core::mem::swap(self, &mut taken);
        let mut entries = taken.entries;
        assert(entries.deep_view() == before);
        if at.1 {
            let mut entry = (key, value);
            entries.set_and_swap(at.0, &mut entry);
            proof {
                assert(entries.deep_view() =~= before.update(at.0 as int, (k, v)));
                lemma_lookup_at(before, at.0 as int);
                Self::lemma_replaced(before, at.0 as int, v);
            }
            *self = StringMap { entries };
            Some(entry.1)
        } else {
            entries.insert(at.0, (key, value));
            proof {
                assert(entries.deep_view() =~= before.insert(at.0 as int, (k, v)));
                Self::lemma_inserted(before, at.0 as int, k, v);
            }
            *self = StringMap { entries };
            None
        }
    }

    /// Replacing the value of entry `at` changes what is found under that
    /// entry's key and nothing else.
    proof fn lemma_replaced(entries: Seq<(Seq<char>, V::V)>, at: int, v: V::V)
        requires
            ordered(entries),
            0 <= at < entries.len(),
        ensures
            ordered(entries.update(at, (entries[at].0, v))),
            as_map(entries.update(at, (entries[at].0, v))) == as_map(entries).insert(
                entries[at].0,
                v,
            ),
    {
        let k = entries[at].0;
        let after = entries.update(at, (k, v));
        assert forall|i: int, j: int| 0 <= i < j < after.len() implies key_precedes(
            (#[trigger] after[i]).0,
            (#[trigger] after[j]).0,
        ) by {
            assert(after[i].0 == entries[i].0);
            assert(after[j].0 == entries[j].0);
        }
        assert forall|q: Seq<char>| holds_key(after, q) == (q == k || holds_key(entries, q)) by {
            if holds_key(after, q) {
                let i = slot_of(after, q);
                assert(entries[i].0 == q);
            }
            if holds_key(entries, q) {
                let i = slot_of(entries, q);
                assert(after[i].0 == q);
            }
            if q == k {
                assert(after[at].0 == q);
            }
        }
        assert forall|q: Seq<char>| holds_key(after, q) implies #[trigger] as_map(after)[q]
            == as_map(entries).insert(k, v)[q] by {
            let i = slot_of(after, q);
            lemma_ordered_keys_distinct(after, i, i);
            if q == k {
                lemma_ordered_keys_distinct(after, i, at);
            } else {
                assert(entries[i].0 == q);
                lemma_ordered_keys_distinct(entries, i, slot_of(entries, q));
            }
        }
        assert(as_map(after) =~= as_map(entries).insert(k, v));
    }

    /// Putting a new key at the place the order gives it adds that entry
    /// and changes nothing else.
    proof fn lemma_inserted(entries: Seq<(Seq<char>, V::V)>, at: int, k: Seq<char>, v: V::V)
        requires
            ordered(entries),
            0 <= at <= entries.len(),
            forall|j: int| 0 <= j < at ==> key_precedes((#[trigger] entries[j]).0, k),
            forall|j: int| at <= j < entries.len() ==> key_precedes(k, (#[trigger] entries[j]).0),
        ensures
            ordered(entries.insert(at, (k, v))),
            as_map(entries.insert(at, (k, v))) == as_map(entries).insert(k, v),
    {
        let after = entries.insert(at, (k, v));
        assert forall|i: int, j: int| 0 <= i < j < after.len() implies key_precedes(
            (#[trigger] after[i]).0,
            (#[trigger] after[j]).0,
        ) by {
            if i < at {
                assert(after[i] == entries[i]);
            } else if i > at {
                assert(after[i] == entries[i - 1]);
            }
            if j < at {
                assert(after[j] == entries[j]);
            } else if j > at {
                assert(after[j] == entries[j - 1]);
            }
        }
        Self::lemma_absent(entries, k, at);
        assert forall|q: Seq<char>| holds_key(after, q) == (q == k || holds_key(entries, q)) by {
            if holds_key(after, q) && q != k {
                let i = slot_of(after, q);
                if i < at {
                    assert(entries[i].0 == q);
                } else {
                    assert(entries[i - 1].0 == q);
                }
            }
            if holds_key(entries, q) {
                let i = slot_of(entries, q);
                if i < at {
                    assert(after[i].0 == q);
                } else {
                    assert(after[i + 1].0 == q);
                }
            }
            if q == k {
                assert(after[at].0 == q);
            }
        }
        assert forall|q: Seq<char>| holds_key(after, q) implies #[trigger] as_map(after)[q]
            == as_map(entries).insert(k, v)[q] by {
            let i = slot_of(after, q);
            if q == k {
                lemma_ordered_keys_distinct(after, i, at);
            } else {
                let old_i = if i < at {
                    i
                } else {
                    i - 1
                };
                assert(entries[old_i] == after[i]);
                lemma_ordered_keys_distinct(entries, old_i, slot_of(entries, q));
            }
        }
        assert(as_map(after) =~= as_map(entries).insert(k, v));
    }

    /// Entry `i` in the order of the keys, if there are that many.
    pub fn entry_at(&self, i: usize) -> (entry: Option<(&String, &V)>)
        ensures
            entry.deep_view() == if i < self@.len() {
                Some(self@[i as int])
            } else {
                None
            },
    {
        if i < self.entries.len() {
            let held = &self.entries[i];
            Some((&held.0, &held.1))
        } else {
            None
        }
    }

    /// The keys, in their order.
    pub fn keys(&self) -> (names: Vec<String>)
        ensures
            names.deep_view() == keys_of(self@),
            ordered(self@),
    {
        proof {
            use_type_invariant(self);
        }
        let mut names: Vec<String> = Vec::new();
        let mut i: usize = 0;
        while i < self.entries.len()
            invariant
                i <= self.entries.len(),
                self@ == self.entries.deep_view(),
                names@.len() == i,
                forall|j: int| 0 <= j < i ==> (#[trigger] names@[j])@ == self@[j].0,
            decreases self.entries.len() - i,
        {
            names.push(self.entries[i].0.clone());
            i += 1;
        }
        assert(names.deep_view() =~= keys_of(self@));
        names
    }
}

impl<V: DeepView + Clone> Clone for StringMap<V> {
    /// A map with the same keys, each with a clone of its value.
    fn clone(&self) -> (copy: Self)
        ensures
            keys_of(copy@) == keys_of(self@),
    {
        proof {
            use_type_invariant(self);
        }
        let mut entries: Vec<(String, V)> = Vec::new();
        let mut i: usize = 0;
        while i < self.entries.len()
            invariant
                i <= self.entries.len(),
                entries@.len() == i,
                forall|j: int| 0 <= j < i ==> (#[trigger] entries@[j]).0@ == self.entries@[j].0@,
            decreases self.entries.len() - i,
        {
            entries.push((self.entries[i].0.clone(), self.entries[i].1.clone()));
            i += 1;
        }
        proof {
            let mine = self.entries.deep_view();
            let theirs = entries.deep_view();
            assert forall|a: int, b: int| 0 <= a < b < theirs.len() implies key_precedes(
                (#[trigger] theirs[a]).0,
                (#[trigger] theirs[b]).0,
            ) by {
                assert(theirs[a].0 == mine[a].0);
                assert(theirs[b].0 == mine[b].0);
            }
            assert(keys_of(theirs) =~= keys_of(mine));
        }
        StringMap { entries }
    }
}

impl<V: DeepView> Default for StringMap<V> {
    fn default() -> (m: Self)
        ensures
            m@ == Seq::<(Seq<char>, V::V)>::empty(),
    {
        StringMap::new()
    }
}

} // verus!
