//! Sets and maps keyed by strings, kept in the order of their keys, as the
//! ordered collections of the standard library keep them.

use vstd::prelude::*;
use crate::text::chars_of;

verus! {

/// `a` and `b` agree before position `k`, where `a` is less than `b`: `a`
/// ends there and `b` goes on, or `a` has the smaller character there.
pub open spec fn lt_at(a: Seq<char>, b: Seq<char>, k: int) -> bool {
    &&& 0 <= k <= a.len()
    &&& k <= b.len()
    &&& forall|j: int| 0 <= j < k ==> a[j] == b[j]
    &&& ((k == a.len() && k < b.len()) || (k < a.len() && k < b.len() && (a[k] as int) < (b[k] as int)))
}

/// `a` comes before `b` in lexicographic order of character codes, the order
/// of `String`.
pub open spec fn chars_lt(a: Seq<char>, b: Seq<char>) -> bool {
    exists|k: int| #[trigger] lt_at(a, b, k)
}

/// No string comes before itself.
pub proof fn lemma_lt_irreflexive(a: Seq<char>)
    ensures
        !chars_lt(a, a),
{
}

/// The order is transitive.
pub proof fn lemma_lt_transitive(a: Seq<char>, b: Seq<char>, c: Seq<char>)
    requires
        chars_lt(a, b),
        chars_lt(b, c),
    ensures
        chars_lt(a, c),
{
    let k1 = choose|k: int| #[trigger] lt_at(a, b, k);
    let k2 = choose|k: int| #[trigger] lt_at(b, c, k);
    if k1 < k2 {
        assert(lt_at(a, c, k1));
    } else if k2 < k1 {
        assert(lt_at(a, c, k2));
    } else {
        assert(lt_at(a, c, k1));
    }
}

/// Of two different strings, one comes before the other.
pub proof fn lemma_lt_total(a: Seq<char>, b: Seq<char>)
    ensures
        a == b || chars_lt(a, b) || chars_lt(b, a),
{
    if a != b {
        let n = if a.len() < b.len() { a.len() } else { b.len() };
        if forall|j: int| 0 <= j < n ==> a[j] == b[j] {
            if a.len() == b.len() {
                assert(a =~= b);
            } else if a.len() < b.len() {
                assert(lt_at(a, b, n as int));
            } else {
                assert(lt_at(b, a, n as int));
            }
        } else {
            let k = choose|j: int| 0 <= j < n && a[j] != b[j];
            let first = choose|j: int| 0 <= j <= k && a[j] != b[j] && forall|i: int| 0 <= i < j ==> a[i] == b[i];
            lemma_first_difference(a, b, k);
            let f = choose|j: int| 0 <= j <= k && a[j] != b[j] && (forall|i: int| 0 <= i < j ==> #[trigger] a[i] == b[i]);
            if (a[f] as int) < (b[f] as int) {
                assert(lt_at(a, b, f));
            } else {
                assert((a[f] as int) != (b[f] as int));
                assert(lt_at(b, a, f));
            }
        }
    }
}

/// Where two strings differ, there is a first place where they differ.
proof fn lemma_first_difference(a: Seq<char>, b: Seq<char>, k: int)
    requires
        0 <= k < a.len(),
        k < b.len(),
        a[k] != b[k],
    ensures
        exists|j: int| 0 <= j <= k && a[j] != b[j] && (forall|i: int| 0 <= i < j ==> #[trigger] a[i] == b[i]),
    decreases k,
{
    if forall|i: int| 0 <= i < k ==> #[trigger] a[i] == b[i] {
    } else {
        let k2 = choose|i: int| 0 <= i < k && a[i] != b[i];
        lemma_first_difference(a, b, k2);
    }
}

/// The order of two strings.
#[derive(Debug, Clone, Copy, PartialEq, Eq, Structural)]
pub enum StrOrder {
    Less,
    Equal,
    Greater,
}

/// Compares two character sequences in the order of `String`.
pub fn order_chars(a: &[char], b: &[char]) -> (r: StrOrder)
    ensures
        match r {
            StrOrder::Less => chars_lt(a@, b@),
            StrOrder::Equal => a@ == b@,
            StrOrder::Greater => chars_lt(b@, a@),
        },
{
    let mut i: usize = 0;
    while i < a.len() && i < b.len()
        invariant
            i <= a@.len(),
            i <= b@.len(),
            forall|j: int| 0 <= j < i ==> a@[j] == b@[j],
        decreases a.len() - i,
    {
        if a[i] != b[i] {
            if a[i] < b[i] {
                assert(lt_at(a@, b@, i as int));
                return StrOrder::Less;
            } else {
                assert(lt_at(b@, a@, i as int));
                return StrOrder::Greater;
            }
        }
        i += 1;
    }
    if a.len() == b.len() {
        assert(a@ =~= b@);
        StrOrder::Equal
    } else if i == a.len() {
        assert(lt_at(a@, b@, i as int));
        StrOrder::Less
    } else {
        assert(lt_at(b@, a@, i as int));
        StrOrder::Greater
    }
}

/// Compares two strings in the order of `String`.
pub fn order_str(a: &str, b: &str) -> (r: StrOrder)
    ensures
        match r {
            StrOrder::Less => chars_lt(a@, b@),
            StrOrder::Equal => a@ == b@,
            StrOrder::Greater => chars_lt(b@, a@),
        },
{
    let x = chars_of(a);
    let y = chars_of(b);
    order_chars(x.as_slice(), y.as_slice())
}

/// The contents of a sequence of strings.
pub open spec fn views(s: Seq<String>) -> Seq<Seq<char>> {
    s.map_values(|x: String| x@)
}

/// The keys of `s` strictly increase.
pub open spec fn sorted_keys(s: Seq<Seq<char>>) -> bool {
    forall|i: int, j: int| 0 <= i < j < s.len() ==> chars_lt(#[trigger] s[i], #[trigger] s[j])
}

/// A set of strings, kept in increasing order.
#[derive(Debug)]
pub struct StrSet {
    items: Vec<String>,
}

impl StrSet {
    /// The members, in increasing order.
    pub closed spec fn spec_items(&self) -> Seq<Seq<char>> {
        views(self.items@)
    }

    #[verifier::type_invariant]
    closed spec fn inv(&self) -> bool {
        sorted_keys(self.spec_items())
    }

    /// The members as a set.
    pub open spec fn spec_set(&self) -> Set<Seq<char>> {
        self.spec_items().to_set()
    }

    /// An empty set.
    pub fn new() -> (r: Self)
        ensures
            r.spec_items().len() == 0,
            r.spec_set() == Set::<Seq<char>>::empty(),
    {
        let r = StrSet { items: Vec::new() };
        assert(r.spec_items() =~= Seq::<Seq<char>>::empty());
        r
    }

    /// The number of members.
    pub fn len(&self) -> (r: usize)
        ensures
            r == self.spec_items().len(),
            r == self.spec_set().len(),
    {
        proof {
            use_type_invariant(self);
            lemma_sorted_no_duplicates(self.spec_items());
            self.spec_items().unique_seq_to_set();
        }
        self.items.len()
    }

    /// Where `key` is, or where it would go, and whether it is there.
    fn locate(&self, key: &str) -> (r: (usize, bool))
        ensures
            r.0 <= self.spec_items().len(),
            r.1 ==> r.0 < self.spec_items().len() && self.spec_items()[r.0 as int] == key@,
            !r.1 ==> forall|i: int| 0 <= i < self.spec_items().len() ==> self.spec_items()[i] != key@,
            forall|i: int| 0 <= i < r.0 ==> chars_lt(#[trigger] self.spec_items()[i], key@),
            !r.1 ==> forall|i: int| r.0 <= i < self.spec_items().len() ==> chars_lt(key@, #[trigger] self.spec_items()[i]),
    {
        proof {
            use_type_invariant(self);
        }
        let mut i: usize = 0;
        while i < self.items.len()
            invariant
                i <= self.items@.len(),
                sorted_keys(self.spec_items()),
                self.spec_items().len() == self.items@.len(),
                forall|j: int| 0 <= j < i ==> chars_lt(#[trigger] self.spec_items()[j], key@),
            decreases self.items.len() - i,
        {
            assert(self.spec_items()[i as int] == self.items@[i as int]@);
            match order_str(self.items[i].as_str(), key) {
                StrOrder::Less => {},
                StrOrder::Equal => {
                    return (i, true);
                },
                StrOrder::Greater => {
                    proof {
                        assert forall|j: int| 0 <= j < self.spec_items().len() implies self.spec_items()[j] != key@ by {
                            if j < i {
                                lemma_lt_irreflexive(key@);
                            } else if j > i {
                                lemma_lt_transitive(key@, self.spec_items()[i as int], self.spec_items()[j]);
                                lemma_lt_irreflexive(key@);
                            } else {
                                lemma_lt_irreflexive(key@);
                            }
                        }
                        assert forall|j: int| i <= j < self.spec_items().len() implies chars_lt(key@, #[trigger] self.spec_items()[j]) by {
                            if j > i {
                                lemma_lt_transitive(key@, self.spec_items()[i as int], self.spec_items()[j]);
                            }
                        }
                    }
                    return (i, false);
                },
            }
            i += 1;
        }
        proof {
            assert forall|j: int| 0 <= j < self.spec_items().len() implies self.spec_items()[j] != key@ by {
                lemma_lt_irreflexive(key@);
            }
        }
        (i, false)
    }

    /// Whether `key` is a member.
    pub fn contains(&self, key: &str) -> (r: bool)
        ensures
            r == self.spec_set().contains(key@),
    {
        let (_, found) = self.locate(key);
        found
    }

    /// Adds `key`; true when it was not there before.
    pub fn insert(&mut self, key: String) -> (r: bool)
        ensures
            r == !old(self).spec_set().contains(key@),
            final(self).spec_set() == old(self).spec_set().insert(key@),
    {
        let (i, found) = self.locate(key.as_str());
        if found {
            return false;
        }
        let ghost old_items = self.spec_items();
        proof {
            use_type_invariant(&*self);
        }
        let ghost k = key@;
        let mut items: Vec<String> = Vec::new();
        std::mem::swap(&mut items, &mut self.items);
        items.insert(i, key);
        proof {
            let new_items = views(items@);
            assert(new_items =~= old_items.insert(i as int, k));
            assert(sorted_keys(new_items)) by {
                assert forall|a: int, b: int| 0 <= a < b < new_items.len() implies chars_lt(#[trigger] new_items[a], #[trigger] new_items[b]) by {
                    if b < i {
                    } else if a > i {
                        assert(new_items[a] == old_items[a - 1] && new_items[b] == old_items[b - 1]);
                    } else if a == i {
                        assert(new_items[b] == old_items[b - 1]);
                    } else if b == i {
                    } else {
                        assert(new_items[b] == old_items[b - 1]);
                        lemma_lt_transitive(new_items[a], k, new_items[b]);
                    }
                }
            }
            assert(new_items.to_set() =~= old_items.to_set().insert(k)) by {
                assert forall|x: Seq<char>| new_items.to_set().contains(x) == old_items.to_set().insert(k).contains(x) by {
                    if new_items.contains(x) {
                        let p = choose|p: int| 0 <= p < new_items.len() && new_items[p] == x;
                        if p < i {
                            assert(old_items[p] == x);
                        } else if p > i {
                            assert(old_items[p - 1] == x);
                        }
                    }
                    if old_items.contains(x) {
                        let p = choose|p: int| 0 <= p < old_items.len() && old_items[p] == x;
                        if p < i {
                            assert(new_items[p] == x);
                        } else {
                            assert(new_items[p + 1] == x);
                        }
                    }
                    if x == k {
                        assert(new_items[i as int] == x);
                    }
                }
            }
        }
        self.items = items;
        true
    }

    /// Removes `key`; true when it was there.
    pub fn remove(&mut self, key: &str) -> (r: bool)
        ensures
            r == old(self).spec_set().contains(key@),
            final(self).spec_set() == old(self).spec_set().remove(key@),
    {
        let (i, found) = self.locate(key);
        if !found {
            proof {
                assert(self.spec_set() =~= self.spec_set().remove(key@));
            }
            return false;
        }
        let ghost old_items = self.spec_items();
        proof {
            use_type_invariant(&*self);
            lemma_sorted_no_duplicates(old_items);
        }
        let mut items: Vec<String> = Vec::new();
        std::mem::swap(&mut items, &mut self.items);
        items.remove(i);
        proof {
            let new_items = views(items@);
            assert(new_items =~= old_items.remove(i as int));
            assert(sorted_keys(new_items)) by {
                assert forall|a: int, b: int| 0 <= a < b < new_items.len() implies chars_lt(#[trigger] new_items[a], #[trigger] new_items[b]) by {
                    let ia = if a >= i { a + 1 } else { a };
                    let ib = if b >= i { b + 1 } else { b };
                    assert(new_items[a] == old_items[ia] && new_items[b] == old_items[ib]);
                }
            }
            assert(new_items.to_set() =~= old_items.to_set().remove(key@)) by {
                assert forall|x: Seq<char>| new_items.to_set().contains(x) == old_items.to_set().remove(key@).contains(x) by {
                    if new_items.contains(x) {
                        let p = choose|p: int| 0 <= p < new_items.len() && new_items[p] == x;
                        let q = if p >= i { p + 1 } else { p };
                        assert(old_items[q] == x);
                        assert(q != i);
                    }
                    if old_items.contains(x) && x != key@ {
                        let p = choose|p: int| 0 <= p < old_items.len() && old_items[p] == x;
                        assert(p != i);
                        if p < i {
                            assert(new_items[p] == x);
                        } else {
                            assert(new_items[p - 1] == x);
                        }
                    }
                }
            }
        }
        self.items = items;
        true
    }

    /// The members, in increasing order.
    pub fn items(&self) -> (r: &Vec<String>)
        ensures
            views(r@) == self.spec_items(),
    {
        &self.items
    }

    /// A copy of the set.
    pub fn copy(&self) -> (r: Self)
        ensures
            r.spec_items() == self.spec_items(),
    {
        proof {
            use_type_invariant(self);
        }
        let mut v: Vec<String> = Vec::new();
        let mut i: usize = 0;
        while i < self.items.len()
            invariant
                i <= self.items@.len(),
                views(v@) == self.spec_items().subrange(0, i as int),
            decreases self.items.len() - i,
        {
            let ghost prev = v@;
            let c = self.items[i].clone();
            v.push(c);
            proof {
                assert(views(prev).len() == i);
                assert(prev.len() == i);
                assert(v@ == prev.push(c));
                assert(c@ == self.spec_items()[i as int]);
                assert forall|j: int| 0 <= j < i + 1 implies #[trigger] views(v@)[j] == self.spec_items().subrange(0, i + 1)[j] by {
                    if j < i {
                        assert(v@[j] == prev[j]);
                        assert(views(prev)[j] == self.spec_items().subrange(0, i as int)[j]);
                    }
                }
                assert(views(v@) =~= self.spec_items().subrange(0, i + 1));
            }
            i += 1;
        }
        proof {
            assert(self.spec_items().subrange(0, self.items@.len() as int) =~= self.spec_items());
        }
        StrSet { items: v }
    }
}

/// A strictly increasing sequence has no repeats.
pub proof fn lemma_sorted_no_duplicates(s: Seq<Seq<char>>)
    requires
        sorted_keys(s),
    ensures
        s.no_duplicates(),
{
    assert forall|i: int, j: int| 0 <= i < s.len() && 0 <= j < s.len() && i != j implies s[i] != s[j] by {
        if i < j {
            assert(chars_lt(s[i], s[j]));
            lemma_lt_irreflexive(s[i]);
        } else {
            assert(chars_lt(s[j], s[i]));
            lemma_lt_irreflexive(s[j]);
        }
    }
}

/// The keys of a list of entries.
pub open spec fn entry_keys<V>(s: Seq<(String, V)>) -> Seq<Seq<char>> {
    s.map_values(|e: (String, V)| e.0@)
}

/// A map from strings to values, kept in increasing order of its keys.
#[derive(Debug)]
pub struct StrMap<V> {
    entries: Vec<(String, V)>,
}

impl<V> StrMap<V> {
    /// The entries, in increasing order of their keys.
    pub closed spec fn spec_entries(&self) -> Seq<(String, V)> {
        self.entries@
    }

    /// The keys, in increasing order.
    pub open spec fn spec_keys(&self) -> Seq<Seq<char>> {
        entry_keys(self.spec_entries())
    }

    #[verifier::type_invariant]
    closed spec fn inv(&self) -> bool {
        sorted_keys(entry_keys(self.entries@))
    }

    /// The value for `k`, if any.
    pub open spec fn spec_get(&self, k: Seq<char>) -> Option<V> {
        if exists|i: int| 0 <= i < self.spec_keys().len() && #[trigger] self.spec_keys()[i] == k {
            Some(self.spec_entries()[choose|i: int| 0 <= i < self.spec_keys().len() && #[trigger] self.spec_keys()[i] == k].1)
        } else {
            None
        }
    }

    /// The number of keys.
    pub open spec fn spec_len(&self) -> nat {
        self.spec_entries().len()
    }

    /// The keys are in increasing order, hence distinct.
    pub fn lemma_sorted(&self)
        ensures
            sorted_keys(self.spec_keys()),
            self.spec_keys().no_duplicates(),
            forall|i: int| 0 <= i < self.spec_len() ==> self.spec_get(#[trigger] self.spec_keys()[i]) == Some(self.spec_entries()[i].1),
    {
        proof {
            use_type_invariant(self);
            lemma_sorted_no_duplicates(self.spec_keys());
            assert forall|i: int| 0 <= i < self.spec_len() implies self.spec_get(#[trigger] self.spec_keys()[i]) == Some(self.spec_entries()[i].1) by {
                let k = self.spec_keys()[i];
                let c = choose|j: int| 0 <= j < self.spec_keys().len() && #[trigger] self.spec_keys()[j] == k;
                assert(c == i);
            }
        }
    }

    /// An empty map.
    pub fn new() -> (r: Self)
        ensures
            r.spec_len() == 0,
            forall|k: Seq<char>| #[trigger] r.spec_get(k) is None,
    {
        let r = StrMap { entries: Vec::new() };
        assert(entry_keys(r.entries@) =~= Seq::<Seq<char>>::empty());
        r
    }

    /// The number of keys.
    pub fn len(&self) -> (r: usize)
        ensures
            r == self.spec_len(),
    {
        self.entries.len()
    }

    /// Where `key` is, or where it would go, and whether it is there.
    fn locate(&self, key: &str) -> (r: (usize, bool))
        ensures
            r.0 <= self.spec_len(),
            r.1 ==> r.0 < self.spec_len() && self.spec_keys()[r.0 as int] == key@,
            !r.1 ==> forall|i: int| 0 <= i < self.spec_len() ==> self.spec_keys()[i] != key@,
            forall|i: int| 0 <= i < r.0 ==> chars_lt(#[trigger] self.spec_keys()[i], key@),
            !r.1 ==> forall|i: int| r.0 <= i < self.spec_len() ==> chars_lt(key@, #[trigger] self.spec_keys()[i]),
    {
        proof {
            use_type_invariant(self);
        }
        let mut i: usize = 0;
        while i < self.entries.len()
            invariant
                i <= self.entries@.len(),
                sorted_keys(self.spec_keys()),
                self.spec_keys().len() == self.entries@.len(),
                forall|j: int| 0 <= j < i ==> chars_lt(#[trigger] self.spec_keys()[j], key@),
            decreases self.entries.len() - i,
        {
            assert(self.spec_keys()[i as int] == self.entries@[i as int].0@);
            match order_str(self.entries[i].0.as_str(), key) {
                StrOrder::Less => {},
                StrOrder::Equal => {
                    return (i, true);
                },
                StrOrder::Greater => {
                    proof {
                        assert forall|j: int| 0 <= j < self.spec_len() implies self.spec_keys()[j] != key@ by {
                            lemma_lt_irreflexive(key@);
                            if j > i {
                                lemma_lt_transitive(key@, self.spec_keys()[i as int], self.spec_keys()[j]);
                            }
                        }
                        assert forall|j: int| i <= j < self.spec_len() implies chars_lt(key@, #[trigger] self.spec_keys()[j]) by {
                            if j > i {
                                lemma_lt_transitive(key@, self.spec_keys()[i as int], self.spec_keys()[j]);
                            }
                        }
                    }
                    return (i, false);
                },
            }
            i += 1;
        }
        proof {
            assert forall|j: int| 0 <= j < self.spec_len() implies self.spec_keys()[j] != key@ by {
                lemma_lt_irreflexive(key@);
            }
        }
        (i, false)
    }

    /// Whether `key` has a value.
    pub fn contains_key(&self, key: &str) -> (r: bool)
        ensures
            r == self.spec_get(key@) is Some,
    {
        let (_, found) = self.locate(key);
        found
    }

    /// The value for `key`, if any.
    pub fn get(&self, key: &str) -> (r: Option<&V>)
        ensures
            match r {
                Some(v) => self.spec_get(key@) == Some(*v),
                None => self.spec_get(key@) is None,
            },
    {
        let (i, found) = self.locate(key);
        if found {
            self.lemma_sorted();
            Some(&self.entries[i].1)
        } else {
            None
        }
    }

    /// Sets `key` to `value`, replacing an earlier value.
    pub fn insert(&mut self, key: String, value: V)
        ensures
            final(self).spec_get(key@) == Some(value),
            forall|k: Seq<char>| k != key@ ==> #[trigger] final(self).spec_get(k) == old(self).spec_get(k),
            final(self).spec_len() == old(self).spec_len() + (if old(self).spec_get(key@) is Some { 0int } else { 1int }),
            old(self).spec_get(key@) is Some ==> exists|i: int| 0 <= i < old(self).spec_len()
                && final(self).spec_entries() == #[trigger] old(self).spec_entries().update(i, (key, value)),
            old(self).spec_get(key@) is None ==> exists|i: int| 0 <= i <= old(self).spec_len()
                && final(self).spec_entries() == #[trigger] old(self).spec_entries().insert(i, (key, value)),
    {
        let (i, found) = self.locate(key.as_str());
        let ghost k = key@;
        let ghost pair = (key, value);
        let ghost old_entries = self.spec_entries();
        let ghost old_keys = self.spec_keys();
        proof {
            use_type_invariant(&*self);
            lemma_sorted_no_duplicates(old_keys);
        }
        let mut entries: Vec<(String, V)> = Vec::new();
        std::mem::swap(&mut entries, &mut self.entries);
        if found {
            entries.remove(i);
        }
        proof {
            let mid = entry_keys(entries@);
            if found {
                assert(mid =~= old_keys.remove(i as int));
            } else {
                assert(mid =~= old_keys);
            }
        }
        entries.insert(i, (key, value));
        proof {
            let new_entries = entries@;
            let new_keys = entry_keys(new_entries);
            // position map from the new entries back to the old ones
            assert forall|p: int| 0 <= p < new_keys.len() && p != i implies
                #[trigger] new_entries[p] == old_entries[if p < i { p } else if found { p } else { p - 1 }] by {}
            assert(new_keys.len() == old_keys.len() + (if found { 0int } else { 1int }));
            assert(sorted_keys(new_keys)) by {
                assert forall|a: int, b: int| 0 <= a < b < new_keys.len() implies chars_lt(#[trigger] new_keys[a], #[trigger] new_keys[b]) by {
                    let ia = if a < i { a } else if found { a } else { a - 1 };
                    let ib = if b < i { b } else if found { b } else { b - 1 };
                    if a == i {
                        assert(new_keys[b] == old_keys[ib]);
                        assert(ib >= i);
                        if found {
                            assert(ib > i);
                            assert(old_keys[i as int] == k);
                            assert(chars_lt(old_keys[i as int], old_keys[ib]));
                        }
                    } else if b == i {
                        assert(new_keys[a] == old_keys[ia]);
                    } else {
                        assert(new_keys[a] == old_keys[ia] && new_keys[b] == old_keys[ib]);
                        assert(ia < ib);
                    }
                }
            }
        }
        self.entries = entries;
        proof {
            let new_keys = self.spec_keys();
            lemma_sorted_no_duplicates(new_keys);
            assert(new_keys[i as int] == k);
            let c = choose|j: int| 0 <= j < new_keys.len() && #[trigger] new_keys[j] == k;
            assert(c == i);
            assert forall|k2: Seq<char>| k2 != k implies #[trigger] self.spec_get(k2) == old(self).spec_get(k2) by {
                if exists|j: int| 0 <= j < old_keys.len() && #[trigger] old_keys[j] == k2 {
                    let j = choose|j: int| 0 <= j < old_keys.len() && #[trigger] old_keys[j] == k2;
                    assert(j != i || !found);
                    let p = if j < i { j } else if found { j } else { j + 1 };
                    assert(self.spec_entries()[p] == old_entries[j]);
                    assert(new_keys[p] == k2);
                    let c2 = choose|q: int| 0 <= q < new_keys.len() && #[trigger] new_keys[q] == k2;
                    assert(c2 == p);
                } else {
                    assert forall|q: int| 0 <= q < new_keys.len() implies #[trigger] new_keys[q] != k2 by {
                        if q != i {
                            let j = if q < i { q } else if found { q } else { q - 1 };
                            assert(self.spec_entries()[q] == old_entries[j]);
                            assert(old_keys[j] != k2);
                        } else {
                            assert(new_keys[q] == k);
                        }
                    }
                }
            }
        }
        proof {
            assert(old_entries == old(self).spec_entries());
            if found {
                assert(self.spec_entries() =~= old_entries.update(i as int, pair));
            } else {
                assert(self.spec_entries() =~= old_entries.insert(i as int, pair));
            }
        }
    }

    /// Removes `key`, giving back its value.
    pub fn remove(&mut self, key: &str) -> (r: Option<V>)
        ensures
            r == old(self).spec_get(key@),
            final(self).spec_get(key@) is None,
            forall|k: Seq<char>| k != key@ ==> #[trigger] final(self).spec_get(k) == old(self).spec_get(k),
            final(self).spec_len() == old(self).spec_len() - (if r is Some { 1int } else { 0int }),
            r is None ==> final(self).spec_entries() == old(self).spec_entries(),
            r is Some ==> exists|i: int| 0 <= i < old(self).spec_len() && old(self).spec_entries()[i].1 == r.unwrap()
                && final(self).spec_entries() == #[trigger] old(self).spec_entries().remove(i),
    {
        let (i, found) = self.locate(key);
        if !found {
            return None;
        }
        self.lemma_sorted();
        let ghost old_entries = self.spec_entries();
        let ghost old_keys = self.spec_keys();
        let mut entries: Vec<(String, V)> = Vec::new();
        std::mem::swap(&mut entries, &mut self.entries);
        let e = entries.remove(i);
        proof {
            let new_keys = entry_keys(entries@);
            assert(new_keys =~= old_keys.remove(i as int));
            assert(sorted_keys(new_keys)) by {
                assert forall|a: int, b: int| 0 <= a < b < new_keys.len() implies chars_lt(#[trigger] new_keys[a], #[trigger] new_keys[b]) by {
                    let ia = if a >= i { a + 1 } else { a };
                    let ib = if b >= i { b + 1 } else { b };
                    assert(new_keys[a] == old_keys[ia] && new_keys[b] == old_keys[ib]);
                }
            }
        }
        self.entries = entries;
        proof {
            let new_keys = self.spec_keys();
            assert forall|q: int| 0 <= q < new_keys.len() implies #[trigger] new_keys[q] == old_keys[if q >= i { q + 1 } else { q }] by {}
            assert forall|q: int| 0 <= q < new_keys.len() implies #[trigger] new_keys[q] != key@ by {
                let j = if q >= i { q + 1 } else { q };
                assert(old_keys[j] != old_keys[i as int]);
            }
            assert forall|k2: Seq<char>| k2 != key@ implies #[trigger] self.spec_get(k2) == old(self).spec_get(k2) by {
                if exists|j: int| 0 <= j < old_keys.len() && #[trigger] old_keys[j] == k2 {
                    let j = choose|j: int| 0 <= j < old_keys.len() && #[trigger] old_keys[j] == k2;
                    assert(j != i);
                    let p = if j > i { j - 1 } else { j };
                    assert(self.spec_entries()[p] == old_entries[j]);
                    assert(new_keys[p] == k2);
                    lemma_sorted_no_duplicates(new_keys);
                    let c2 = choose|q: int| 0 <= q < new_keys.len() && #[trigger] new_keys[q] == k2;
                    assert(c2 == p);
                } else {
                    assert forall|q: int| 0 <= q < new_keys.len() implies #[trigger] new_keys[q] != k2 by {
                        let j = if q >= i { q + 1 } else { q };
                        assert(self.spec_entries()[q] == old_entries[j]);
                    }
                }
            }
        }
        Some(e.1)
    }

    /// The entries, in increasing order of their keys.
    pub fn entries(&self) -> (r: &Vec<(String, V)>)
        ensures
            r@ == self.spec_entries(),
    {
        &self.entries
    }
}

impl<V: Copy> StrMap<V> {
    /// A copy of the map.
    pub fn copy(&self) -> (r: Self)
        ensures
            r.spec_keys() == self.spec_keys(),
            forall|i: int| 0 <= i < self.spec_len() ==> #[trigger] r.spec_entries()[i].1 == self.spec_entries()[i].1,
            r.spec_len() == self.spec_len(),
            forall|k: Seq<char>| #[trigger] r.spec_get(k) == self.spec_get(k),
    {
        proof {
            use_type_invariant(self);
        }
        let mut v: Vec<(String, V)> = Vec::new();
        let mut i: usize = 0;
        while i < self.entries.len()
            invariant
                i <= self.entries@.len(),
                v@.len() == i,
                forall|j: int| 0 <= j < i ==> (#[trigger] v@[j]).0@ == self.entries@[j].0@ && v@[j].1 == self.entries@[j].1,
            decreases self.entries.len() - i,
        {
            let k = self.entries[i].0.clone();
            let val = self.entries[i].1;
            v.push((k, val));
            i += 1;
        }
        proof {
            assert(entry_keys(v@) =~= entry_keys(self.entries@));
        }
        let r = StrMap { entries: v };
        proof {
            assert forall|k: Seq<char>| #[trigger] r.spec_get(k) == self.spec_get(k) by {
                lemma_sorted_no_duplicates(r.spec_keys());
                if exists|j: int| 0 <= j < self.spec_keys().len() && #[trigger] self.spec_keys()[j] == k {
                    let j = choose|j: int| 0 <= j < self.spec_keys().len() && #[trigger] self.spec_keys()[j] == k;
                    let c = choose|q: int| 0 <= q < r.spec_keys().len() && #[trigger] r.spec_keys()[q] == k;
                    assert(c == j);
                }
            }
        }
        r
    }
}

} // verus!
