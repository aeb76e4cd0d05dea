//! A table with one value per text key.

use crate::text::same_text;
use vstd::prelude::*;

verus! {

/// Values under text keys; no key occurs twice.
pub struct Table<V> {
    entries: Vec<(String, V)>,
}

impl<V> Table<V> {
    closed spec fn keys_differ(entries: Seq<(String, V)>) -> bool {
        forall|i: int, j: int|
            0 <= i < j < entries.len() ==> (#[trigger] entries[i]).0@ != (#[trigger] entries[j]).0@
    }

    #[verifier::type_invariant]
    closed spec fn well_formed(self) -> bool {
        Self::keys_differ(self.entries@)
    }

    /// Whether `i` is the place of `key` in `entries`.
    closed spec fn at(entries: Seq<(String, V)>, key: Seq<char>, i: int) -> bool {
        0 <= i < entries.len() && entries[i].0@ == key
    }

    closed spec fn contents(entries: Seq<(String, V)>) -> Map<Seq<char>, V> {
        Map::new(
            |key: Seq<char>| exists|i: int| Self::at(entries, key, i),
            |key: Seq<char>| entries[choose|i: int| Self::at(entries, key, i)].1,
        )
    }

    proof fn lemma_lookup(entries: Seq<(String, V)>, i: int)
        requires
            Self::keys_differ(entries),
            0 <= i < entries.len(),
        ensures
            Self::contents(entries).contains_key(entries[i].0@),
            Self::contents(entries)[entries[i].0@] == entries[i].1,
    {
        let key = entries[i].0@;
        assert(Self::at(entries, key, i));
        let j = choose|j: int| Self::at(entries, key, j);
        assert(Self::at(entries, key, j));
        assert(i == j) by {
            if i < j {
                assert(entries[i].0@ != entries[j].0@);
            } else if j < i {
                assert(entries[j].0@ != entries[i].0@);
            }
        }
    }

    /// An empty table.
    pub fn new() -> (r: Self)
        ensures
            r@ == Map::<Seq<char>, V>::empty(),
    {
        let r = Table { entries: Vec::new() };
        assert(r@ =~= Map::<Seq<char>, V>::empty());
        r
    }

    /// The place of `key`, where it is in the table.
    fn find(&self, key: &str) -> (r: Option<usize>)
        ensures
            match r {
                Some(i) => Self::at(self.entries@, key@, i as int),
                None => !self@.contains_key(key@),
            },
    {
        let mut i: usize = 0;
        while i < self.entries.len()
            invariant
                i <= self.entries@.len(),
                forall|j: int| 0 <= j < i ==> !Self::at(self.entries@, key@, j),
            decreases self.entries@.len() - i,
        {
            if same_text(self.entries[i].0.as_str(), key) {
                return Some(i);
            }
            i = i + 1;
        }
        None
    }

    /// Whether there is a value under `key`.
    pub fn contains_key(&self, key: &str) -> (r: bool)
        ensures
            r == self@.contains_key(key@),
    {
        match self.find(key) {
            Some(i) => true,
            None => false,
        }
    }

    /// The value under `key`.
    pub fn get(&self, key: &str) -> (r: Option<&V>)
        ensures
            match r {
                Some(v) => self@.contains_key(key@) && *v == self@[key@],
                None => !self@.contains_key(key@),
            },
    {
        match self.find(key) {
            Some(i) => {
                proof {
                    use_type_invariant(self);
                    Self::lemma_lookup(self.entries@, i as int);
                }
                Some(&self.entries[i].1)
            },
            None => None,
        }
    }

    /// Takes the value under `key` out of the table.
    pub fn remove(&mut self, key: &str) -> (r: Option<V>)
        ensures
            final(self)@ == old(self)@.remove(key@),
            match r {
                Some(v) => old(self)@.contains_key(key@) && v == old(self)@[key@],
                None => !old(self)@.contains_key(key@),
            },
    {
        match self.find(key) {
            Some(i) => {
                let ghost before = self.entries@;
                proof {
                    use_type_invariant(&*self);
                    Self::lemma_lookup(before, i as int);
                }
                let mut entries: Vec<(String, V)> = Vec::new();
                std::mem::swap(&mut entries, &mut self.entries);
                let (_key, v) = entries.remove(i);
                proof {
                    let after = entries@;
                    assert(after == before.remove(i as int));
                    assert(Self::keys_differ(after));
                    assert forall|k: Seq<char>| #[trigger]
                        Self::contents(after).contains_key(k) == Self::contents(before).remove(
                            key@,
                        ).contains_key(k) by {
                        if Self::contents(after).contains_key(k) {
                            let j = choose|j: int| Self::at(after, k, j);
                            let m = if j < i { j } else { j + 1 };
                            assert(after[j] == before[m]);
                            assert(Self::at(before, k, m));
                            if m < i {
                                assert(before[m].0@ != before[i as int].0@);
                            } else {
                                assert(before[i as int].0@ != before[m].0@);
                            }
                        }
                        if Self::contents(before).contains_key(k) && k != key@ {
                            let m = choose|m: int| Self::at(before, k, m);
                            let j = if m < i { m } else { m - 1 };
                            assert(Self::at(after, k, j));
                        }
                    }
                    assert forall|k: Seq<char>| #[trigger]
                        Self::contents(after).contains_key(k) implies Self::contents(after)[k]
                        == Self::contents(before).remove(key@)[k] by {
                        let j = choose|j: int| Self::at(after, k, j);
                        assert(Self::at(after, k, j));
                        let m = if j < i { j } else { j + 1 };
                        assert(after[j] == before[m]);
                        Self::lemma_lookup(after, j);
                        Self::lemma_lookup(before, m);
                    }
                    assert(Self::contents(after) =~= Self::contents(before).remove(key@));
                }
                self.entries = entries;
                Some(v)
            },
            None => {
                assert(self@ =~= self@.remove(key@));
                None
            },
        }
    }

    /// Puts `v` under `key`, in place of what was there.
    pub fn insert(&mut self, key: String, v: V)
        ensures
            final(self)@ == old(self)@.insert(key@, v),
    {
        let ghost original = self@;
        let _replaced = self.remove(key.as_str());
        let ghost before = self.entries@;
        proof {
            use_type_invariant(&*self);
            assert(!self@.contains_key(key@));
        }
        let ghost k0 = key@;
        let mut entries: Vec<(String, V)> = Vec::new();
        std::mem::swap(&mut entries, &mut self.entries);
        entries.push((key, v));
        proof {
            let after = entries@;
            let last = before.len() as int;
            assert(Self::keys_differ(after)) by {
                assert forall|i: int, j: int| 0 <= i < j < after.len() implies (
                #[trigger] after[i]).0@ != (#[trigger] after[j]).0@ by {
                    if j == last {
                        if before[i].0@ == k0 {
                            assert(Self::at(before, k0, i));
                        }
                    }
                }
            }
            assert forall|k: Seq<char>| #[trigger]
                Self::contents(after).contains_key(k) == Self::contents(before).insert(
                    k0,
                    v,
                ).contains_key(k) by {
                if Self::contents(after).contains_key(k) {
                    let j = choose|j: int| Self::at(after, k, j);
                    if j < last {
                        assert(Self::at(before, k, j));
                    }
                }
                if Self::contents(before).contains_key(k) {
                    let j = choose|j: int| Self::at(before, k, j);
                    assert(Self::at(after, k, j));
                }
                if k == k0 {
                    assert(Self::at(after, k, last));
                }
            }
            assert forall|k: Seq<char>| #[trigger]
                Self::contents(after).contains_key(k) implies Self::contents(after)[k]
                == Self::contents(before).insert(k0, v)[k] by {
                let j = choose|j: int| Self::at(after, k, j);
                assert(Self::at(after, k, j));
                Self::lemma_lookup(after, j);
                if j < last {
                    Self::lemma_lookup(before, j);
                    assert(k != k0);
                }
            }
            assert(Self::contents(after) =~= Self::contents(before).insert(k0, v));
            assert(original.remove(k0).insert(k0, v) =~= original.insert(k0, v));
        }
        self.entries = entries;
    }
}

impl<V> View for Table<V> {
    type V = Map<Seq<char>, V>;

    closed spec fn view(&self) -> Map<Seq<char>, V> {
        Self::contents(self.entries@)
    }
}

} // verus!
