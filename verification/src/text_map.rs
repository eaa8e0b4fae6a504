//! A map from texts to values.

use vstd::prelude::*;

use crate::text::text_eq;

verus! {

/// No two entries have the same key.
pub open spec fn keys_differ<V>(entries: Seq<(String, V)>) -> bool {
    forall|i: int, j: int|
        0 <= i < j < entries.len() ==> (#[trigger] entries[i]).0@ != (#[trigger] entries[j]).0@
}

/// Some entry has the key.
pub open spec fn has_key<V>(entries: Seq<(String, V)>, key: Seq<char>) -> bool {
    exists|i: int| 0 <= i < entries.len() && (#[trigger] entries[i]).0@ == key
}

/// The entries by their keys.
pub open spec fn by_key<V: View>(entries: Seq<(String, V)>) -> Map<Seq<char>, V::V> {
    Map::new(
        |key: Seq<char>| has_key(entries, key),
        |key: Seq<char>|
            entries[choose|i: int| 0 <= i < entries.len() && (#[trigger] entries[i]).0@ == key].1@,
    )
}

proof fn lemma_by_key<V: View>(entries: Seq<(String, V)>, i: int)
    requires
        keys_differ(entries),
        0 <= i < entries.len(),
    ensures
        by_key(entries).dom().contains(entries[i].0@),
        by_key(entries)[entries[i].0@] == entries[i].1@,
{
    let key = entries[i].0@;
    assert(has_key(entries, key));
    let k = choose|k: int| 0 <= k < entries.len() && (#[trigger] entries[k]).0@ == key;
    if k < i {
        assert(entries[k].0@ != entries[i].0@);
    } else if i < k {
        assert(entries[i].0@ != entries[k].0@);
    }
}

/// A map from texts to values, as a list of entries.
#[derive(Debug)]
pub struct TextMap<V: View> {
    entries: Vec<(String, V)>,
}

impl<V: View> View for TextMap<V> {
    type V = Map<Seq<char>, V::V>;

    closed spec fn view(&self) -> Map<Seq<char>, V::V> {
        by_key(self.entries@)
    }
}

impl<V: View> TextMap<V> {
    /// Each key is held once.
    #[verifier::type_invariant]
    closed spec fn valid(self) -> bool {
        keys_differ(self.entries@)
    }

    /// The entries.
    pub closed spec fn list(self) -> Seq<(String, V)> {
        self.entries@
    }

    /// A map without entries.
    pub fn new() -> (r: TextMap<V>)
        ensures
            r@ == Map::<Seq<char>, V::V>::empty(),
    {
        let r = TextMap { entries: Vec::new() };
        assert(r@ =~= Map::<Seq<char>, V::V>::empty());
        r
    }

    /// The entries, each once.
    pub fn entries(&self) -> (r: &Vec<(String, V)>)
        ensures
            by_key(r@) == self@,
            keys_differ(r@),
            r@ == self.list(),
    {
        proof {
            use_type_invariant(self);
        }
        &self.entries
    }

    /// The place of a key.
    fn find(&self, key: &str) -> (r: Option<usize>)
        ensures
            match r {
                Some(i) => i < self.entries@.len() && self.entries@[i as int].0@ == key@,
                None => !has_key(self.entries@, key@),
            },
    {
        let mut i: usize = 0;
        while i < self.entries.len()
            invariant
                i <= self.entries.len(),
                forall|j: int| 0 <= j < i ==> (#[trigger] self.entries@[j]).0@ != key@,
            decreases self.entries.len() - i,
        {
            if text_eq(self.entries[i].0.as_str(), key) {
                return Some(i);
            }
            i = i + 1;
        }
        None
    }

    /// The value of a key.
    pub fn get(&self, key: &str) -> (r: Option<&V>)
        ensures
            match r {
                Some(value) => self@.dom().contains(key@) && value@ == self@[key@],
                None => !self@.dom().contains(key@),
            },
    {
        proof {
            use_type_invariant(self);
        }
        match self.find(key) {
            Some(i) => {
                proof {
                    lemma_by_key(self.entries@, i as int);
                }
                Some(&self.entries[i].1)
            },
            None => None,
        }
    }

    /// Gives a key a value.
    pub fn insert(&mut self, key: &str, value: V)
        ensures
            final(self)@ == old(self)@.insert(key@, value@),
    {
        proof {
            use_type_invariant(&*self);
        }
        let found: Option<usize> = self.find(key);
        let mut entries: Vec<(String, V)> = Vec::new();
        std::mem::swap(&mut entries, &mut self.entries);
        let ghost before = entries@;
        let ghost shown = value@;
        match found {
            Some(i) => {
                entries.set(i, (key.to_owned(), value));
                proof {
                    let after = entries@;
                    assert(keys_differ(after));
                    assert forall|n: Seq<char>|
                        has_key(after, n) == by_key(before).insert(key@, shown).dom().contains(n) by {
                        if has_key(before, n) {
                            let k = choose|k: int|
                                0 <= k < before.len() && (#[trigger] before[k]).0@ == n;
                            assert(after[k].0@ == n);
                        }
                        if has_key(after, n) {
                            let k = choose|k: int|
                                0 <= k < after.len() && (#[trigger] after[k]).0@ == n;
                            assert(before[k].0@ == n);
                        }
                    }
                    assert forall|n: Seq<char>| has_key(after, n) implies by_key(after)[n] == by_key(
                        before,
                    ).insert(key@, shown)[n] by {
                        let k = choose|k: int| 0 <= k < after.len() && (#[trigger] after[k]).0@ == n;
                        lemma_by_key(after, k);
                        lemma_by_key(before, k);
                        lemma_by_key(before, i as int);
                        if n == key@ && k != i {
                            assert(before[k].0@ != before[i as int].0@);
                        }
                    }
                    assert(by_key(after) =~= by_key(before).insert(key@, shown));
                }
            },
            None => {
                entries.push((key.to_owned(), value));
                proof {
                    let after = entries@;
                    let last = before.len() as int;
                    assert forall|a: int, b: int| 0 <= a < b < after.len() implies (
                    #[trigger] after[a]).0@ != (#[trigger] after[b]).0@ by {
                        assert(after[a] == before[a]);
                        if b < last {
                            assert(after[b] == before[b]);
                        }
                    }
                    assert forall|n: Seq<char>|
                        has_key(after, n) == by_key(before).insert(key@, shown).dom().contains(n) by {
                        if has_key(before, n) {
                            let k = choose|k: int|
                                0 <= k < before.len() && (#[trigger] before[k]).0@ == n;
                            assert(after[k].0@ == n);
                        }
                        if n == key@ {
                            assert(after[last].0@ == n);
                        }
                        if has_key(after, n) {
                            let k = choose|k: int|
                                0 <= k < after.len() && (#[trigger] after[k]).0@ == n;
                            if k < last {
                                assert(before[k].0@ == n);
                            }
                        }
                    }
                    assert forall|n: Seq<char>| has_key(after, n) implies by_key(after)[n] == by_key(
                        before,
                    ).insert(key@, shown)[n] by {
                        let k = choose|k: int| 0 <= k < after.len() && (#[trigger] after[k]).0@ == n;
                        lemma_by_key(after, k);
                        if k < last {
                            lemma_by_key(before, k);
                            assert(before[k].0@ == n);
                        }
                    }
                    assert(by_key(after) =~= by_key(before).insert(key@, shown));
                }
            },
        }
        *self = TextMap { entries };
    }

    /// Takes a key out.
    pub fn remove(&mut self, key: &str)
        ensures
            final(self)@ == old(self)@.remove(key@),
    {
        proof {
            use_type_invariant(&*self);
        }
        let i: usize = match self.find(key) {
            Some(i) => i,
            None => {
                assert(self@.remove(key@) =~= self@);
                return ;
            },
        };
        let mut entries: Vec<(String, V)> = Vec::new();
        std::mem::swap(&mut entries, &mut self.entries);
        let ghost before = entries@;
        let gone: (String, V) = entries.remove(i);
        proof {
            let after = entries@;
            assert(after == before.remove(i as int));
            assert forall|a: int, b: int| 0 <= a < b < after.len() implies (#[trigger] after[a]).0@
                != (#[trigger] after[b]).0@ by {
                let x = if a < i { a } else { a + 1 };
                let y = if b < i { b } else { b + 1 };
                assert(after[a] == before[x] && after[b] == before[y]);
            }
            assert forall|n: Seq<char>|
                has_key(after, n) == by_key(before).remove(key@).dom().contains(n) by {
                if has_key(after, n) {
                    let k = choose|k: int| 0 <= k < after.len() && (#[trigger] after[k]).0@ == n;
                    let x = if k < i { k } else { k + 1 };
                    assert(before[x].0@ == n);
                    if x < i {
                        assert(before[x].0@ != before[i as int].0@);
                    } else {
                        assert(before[i as int].0@ != before[x].0@);
                    }
                }
                if has_key(before, n) && n != key@ {
                    let x = choose|x: int| 0 <= x < before.len() && (#[trigger] before[x]).0@ == n;
                    let k = if x < i { x } else { x - 1 };
                    assert(after[k].0@ == n);
                }
            }
            assert forall|n: Seq<char>| has_key(after, n) implies by_key(after)[n] == by_key(
                before,
            ).remove(key@)[n] by {
                let k = choose|k: int| 0 <= k < after.len() && (#[trigger] after[k]).0@ == n;
                let x = if k < i { k } else { k + 1 };
                assert(after[k] == before[x]);
                lemma_by_key(after, k);
                lemma_by_key(before, x);
                assert(by_key(before).remove(key@).dom().contains(n));
            }
            assert(by_key(after) =~= by_key(before).remove(key@));
        }
        *self = TextMap { entries };
    }
}

}
