//! A small map from strings to strings, used for free-form metadata.

use vstd::prelude::*;

verus! {

/// The map that a list of key/value pairs describes; a later pair for a key
/// replaces an earlier one.
pub open spec fn map_of(s: Seq<(String, String)>) -> Map<Seq<char>, Seq<char>>
    decreases s.len(),
{
    if s.len() == 0 {
        Map::empty()
    } else {
        map_of(s.drop_last()).insert(s.last().0@, s.last().1@)
    }
}

/// The pairs of `s` whose key is not `k`, in order.
pub open spec fn without_key(s: Seq<(String, String)>, k: Seq<char>) -> Seq<(String, String)>
    decreases s.len(),
{
    if s.len() == 0 {
        s
    } else if s.last().0@ == k {
        without_key(s.drop_last(), k)
    } else {
        without_key(s.drop_last(), k).push(s.last())
    }
}

/// Dropping the pairs for `k` removes `k` from the map and keeps the rest.
proof fn lemma_without_key(s: Seq<(String, String)>, k: Seq<char>)
    ensures
        map_of(without_key(s, k)) == map_of(s).remove(k),
    decreases s.len(),
{
    if s.len() > 0 {
        lemma_without_key(s.drop_last(), k);
        let w = without_key(s.drop_last(), k);
        if s.last().0@ != k {
            assert(without_key(s, k).drop_last() == w);
        }
        assert(map_of(without_key(s, k)) =~= map_of(s).remove(k));
    }
}

/// Free-form string metadata: each key maps to one value.
#[derive(Debug, Clone)]
pub struct StringMap {
    entries: Vec<(String, String)>,
}

impl View for StringMap {
    type V = Map<Seq<char>, Seq<char>>;

    closed spec fn view(&self) -> Map<Seq<char>, Seq<char>> {
        map_of(self.entries@)
    }
}

impl StringMap {
    /// An empty map.
    pub fn new() -> (r: Self)
        ensures
            r@ == Map::<Seq<char>, Seq<char>>::empty(),
    {
        StringMap { entries: Vec::new() }
    }

    /// Sets `key` to `value`, replacing any earlier value.
    pub fn insert(&mut self, key: String, value: String)
        ensures
            final(self)@ == old(self)@.insert(key@, value@),
    {
        let ghost k = key@;
        let mut kept: Vec<(String, String)> = Vec::new();
        let mut i: usize = 0;
        while i < self.entries.len()
            invariant
                i <= self.entries@.len(),
                self.entries@ == old(self).entries@,
                kept@ == without_key(self.entries@.subrange(0, i as int), k),
                k == key@,
            decreases self.entries.len() - i,
        {
            let same = crate::text::str_eq(self.entries[i].0.as_str(), key.as_str());
            proof {
                assert(self.entries@.subrange(0, i + 1).drop_last() =~= self.entries@.subrange(0, i as int));
            }
            if !same {
                kept.push((self.entries[i].0.clone(), self.entries[i].1.clone()));
            }
            i += 1;
        }
        proof {
            assert(self.entries@.subrange(0, self.entries@.len() as int) =~= self.entries@);
            lemma_without_key(self.entries@, k);
        }
        kept.push((key, value));
        self.entries = kept;
        proof {
            assert(self.entries@.drop_last() =~= without_key(old(self).entries@, k));
            assert(map_of(self.entries@) =~= map_of(old(self).entries@).remove(k).insert(k, value@));
        }
    }

    /// The value for `key`, if any.
    pub fn get(&self, key: &str) -> (r: Option<&str>)
        ensures
            match r {
                Some(v) => self@.contains_key(key@) && self@[key@] == v@,
                None => !self@.contains_key(key@),
            },
    {
        let mut i: usize = self.entries.len();
        proof {
            assert(self.entries@.subrange(0, i as int) =~= self.entries@);
        }
        while i > 0
            invariant
                i <= self.entries@.len(),
                map_of(self.entries@).contains_key(key@) == map_of(self.entries@.subrange(0, i as int)).contains_key(key@),
                map_of(self.entries@).contains_key(key@) ==> map_of(self.entries@)[key@] == map_of(self.entries@.subrange(0, i as int))[key@],
            decreases i,
        {
            let j = i - 1;
            let ghost pre = self.entries@.subrange(0, i as int);
            proof {
                assert(pre.drop_last() =~= self.entries@.subrange(0, j as int));
                assert(pre.last() == self.entries@[j as int]);
            }
            if crate::text::str_eq(self.entries[j].0.as_str(), key) {
                return Some(self.entries[j].1.as_str());
            }
            i = j;
        }
        None
    }

    /// A copy of this map.
    pub fn copy(&self) -> (r: Self)
        ensures
            r@ == self@,
    {
        let mut out: Vec<(String, String)> = Vec::new();
        let mut i: usize = 0;
        while i < self.entries.len()
            invariant
                i <= self.entries@.len(),
                out@ == self.entries@.take(i as int),
            decreases self.entries.len() - i,
        {
            out.push((self.entries[i].0.clone(), self.entries[i].1.clone()));
            proof {
                assert(out@ =~= self.entries@.take(i + 1));
            }
            i += 1;
        }
        proof {
            assert(out@ =~= self.entries@);
        }
        StringMap { entries: out }
    }

    /// The key/value pairs, each key once; the order is unspecified.
    pub fn pairs(&self) -> (r: &Vec<(String, String)>)
        ensures
            map_of(r@) == self@,
    {
        &self.entries
    }
}

} // verus!
