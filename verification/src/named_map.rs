//! A map from names to values that keeps the order in which the names came
//! in.

use vstd::prelude::*;
use crate::text::same_text;

verus! {

/// A map keyed by text. No name occurs twice; a name that is inserted
/// again keeps its place and takes the new value.
#[derive(Debug, Clone)]
pub struct NamedMap<V> {
    entries: Vec<(String, V)>,
}

/// The first position of `name` in `names`, or the length of `names` where
/// it does not occur.
pub open spec fn position_of(names: Seq<Seq<char>>, name: Seq<char>) -> int
    decreases names.len(),
{
    if names.len() == 0 {
        0
    } else if names[0] == name {
        0
    } else {
        1 + position_of(names.drop_first(), name)
    }
}

/// `position_of` is the first position at which the name stands.
pub proof fn lemma_position_of(names: Seq<Seq<char>>, name: Seq<char>)
    ensures
        0 <= position_of(names, name) <= names.len(),
        position_of(names, name) < names.len() ==> names[position_of(names, name)] == name,
        forall|i: int| 0 <= i < position_of(names, name) ==> names[i] != name,
        names.contains(name) <==> position_of(names, name) < names.len(),
    decreases names.len(),
{
    if names.len() > 0 && names[0] != name {
        let rest = names.drop_first();
        lemma_position_of(rest, name);
        assert forall|i: int| 0 <= i < position_of(names, name) implies names[i] != name by {
            if i > 0 {
                assert(names[i] == rest[i - 1]);
            }
        }
        if names.contains(name) {
            let i = choose|i: int| 0 <= i < names.len() && names[i] == name;
            assert(rest[i - 1] == name);
        }
        if position_of(rest, name) < rest.len() {
            assert(names[position_of(rest, name) + 1] == name);
        }
    }
}

impl<V> NamedMap<V> {
    /// The names, in the order in which they first came in.
    pub closed spec fn names(&self) -> Seq<Seq<char>> {
        Seq::new(self.entries@.len(), |i: int| self.entries@[i].0@)
    }

    /// The values, each at the position of its name.
    pub closed spec fn values(&self) -> Seq<V> {
        Seq::new(self.entries@.len(), |i: int| self.entries@[i].1)
    }

    /// Whether a value stands under `name`.
    pub open spec fn has(&self, name: Seq<char>) -> bool {
        self.names().contains(name)
    }

    /// The value under `name`, where there is one.
    pub open spec fn value_of(&self, name: Seq<char>) -> V
        recommends
            self.has(name),
    {
        self.values()[position_of(self.names(), name)]
    }

    /// No name occurs twice. A map that was made by `new` and filled by
    /// `insert` is well formed.
    pub open spec fn wf(&self) -> bool {
        self.names().no_duplicates()
    }

    /// The map that this value stands for.
    pub open spec fn view(&self) -> Map<Seq<char>, V> {
        Map::new(|name: Seq<char>| self.has(name), |name: Seq<char>| self.value_of(name))
    }

    /// Every map has as many values as names.
    pub proof fn lemma_same_length(&self)
        ensures
            self.names().len() == self.values().len(),
    {
    }

    /// An empty map.
    pub fn new() -> (m: Self)
        ensures
            m.names().len() == 0,
            m.values().len() == 0,
            m.wf(),
    {
        NamedMap { entries: Vec::new() }
    }

    /// The number of names.
    pub fn len(&self) -> (n: usize)
        ensures
            n == self.names().len(),
            n == self.values().len(),
    {
        self.entries.len()
    }

    /// Whether the map holds nothing.
    pub fn is_empty(&self) -> (b: bool)
        ensures
            b == (self.names().len() == 0),
    {
        self.entries.len() == 0
    }

    /// The position of `name`, or the number of names where it is not in
    /// the map.
    pub fn find(&self, name: &str) -> (i: usize)
        ensures
            i == position_of(self.names(), name@),
            i <= self.names().len(),
    {
        let mut i: usize = 0;
        proof {
            lemma_position_of(self.names(), name@);
        }
        while i < self.entries.len()
            invariant
                i <= self.entries@.len(),
                i <= position_of(self.names(), name@) <= self.names().len(),
                self.names().len() == self.entries@.len(),
                position_of(self.names(), name@) < self.names().len() ==> self.names()[position_of(
                    self.names(),
                    name@,
                )] == name@,
                forall|j: int| 0 <= j < position_of(self.names(), name@) ==> self.names()[j] != name@,
            decreases self.entries@.len() - i,
        {
            if same_text(self.entries[i].0.as_str(), name) {
                assert(self.names()[i as int] == name@);
                return i;
            }
            assert(self.names()[i as int] != name@);
            i = i + 1;
        }
        i
    }

    /// Whether a value stands under `name`.
    pub fn contains_key(&self, name: &str) -> (b: bool)
        ensures
            b == self.has(name@),
    {
        proof {
            lemma_position_of(self.names(), name@);
        }
        self.find(name) < self.entries.len()
    }

    /// The value under `name`.
    pub fn get(&self, name: &str) -> (r: Option<&V>)
        ensures
            r == (if self.has(name@) {
                Some(&self.value_of(name@))
            } else {
                None
            }),
    {
        proof {
            lemma_position_of(self.names(), name@);
        }
        let i = self.find(name);
        if i < self.entries.len() {
            Some(&self.entries[i].1)
        } else {
            None
        }
    }

    /// The name at position `i`.
    pub fn name_at(&self, i: usize) -> (r: &str)
        requires
            i < self.names().len(),
        ensures
            r@ == self.names()[i as int],
    {
        self.entries[i].0.as_str()
    }

    /// The value at position `i`.
    pub fn value_at(&self, i: usize) -> (r: &V)
        requires
            i < self.values().len(),
        ensures
            *r == self.values()[i as int],
    {
        &self.entries[i].1
    }

    /// Puts `value` under `name`. A name that is already in the map keeps
    /// its place; a new name goes to the end.
    pub fn insert(&mut self, name: String, value: V)
        ensures
            old(self).has(name@) ==> {
                &&& final(self).names() == old(self).names()
                &&& final(self).values() == old(self).values().update(
                    position_of(old(self).names(), name@),
                    value,
                )
            },
            !old(self).has(name@) ==> final(self).names() == old(self).names().push(name@)
                && final(self).values() == old(self).values().push(value),
            old(self).wf() ==> final(self).wf(),
            final(self).has(name@),
            final(self).value_of(name@) == value,
            forall|other: Seq<char>|
                other != name@ ==> (final(self).has(other) <==> old(self).has(other)),
            forall|other: Seq<char>|
                other != name@ && old(self).has(other) ==> {
                    final(self).value_of(other) == old(self).value_of(other)
                },
    {
        proof {
            lemma_position_of(self.names(), name@);
        }
        let ghost before = *self;
        let i = self.find(name.as_str());
        if i < self.entries.len() {
            self.entries.set(i, (name, value));
            proof {
                assert(self.names() =~= before.names());
                assert(self.values() =~= before.values().update(i as int, value));
            }
        } else {
            self.entries.push((name, value));
            proof {
                assert(self.names() =~= before.names().push(name@));
                assert(self.values() =~= before.values().push(value));
                if before.wf() {
                    assert forall|a: int, b: int|
                        0 <= a < self.names().len() && 0 <= b < self.names().len() && a
                            != b implies self.names()[a] != self.names()[b] by {
                        if a < before.names().len() {
                            assert(before.names()[a] == self.names()[a]);
                        }
                        if b < before.names().len() {
                            assert(before.names()[b] == self.names()[b]);
                        }
                    }
                }
            }
        }
        proof {
            lemma_position_of(self.names(), name@);
            assert(self.names()[i as int] == name@);
            assert forall|other: Seq<char>| other != name@ implies (self.has(other)
                <==> before.has(other)) by {
                lemma_position_of(self.names(), other);
                lemma_position_of(before.names(), other);
                if before.has(other) {
                    let p = position_of(before.names(), other);
                    assert(self.names()[p] == other);
                }
                if self.has(other) {
                    let p = position_of(self.names(), other);
                    assert(before.names()[p] == other);
                }
            }
            assert forall|other: Seq<char>| other != name@ && before.has(other) implies self.value_of(
                other,
            ) == before.value_of(other) by {
                lemma_position_of(self.names(), other);
                lemma_position_of(before.names(), other);
                let p = position_of(before.names(), other);
                let q = position_of(self.names(), other);
                assert(self.names()[p] == other);
                assert(before.names()[q] == other);
                assert(p == q);
            }
        }
    }
}

impl<V> NamedMap<V> {
    /// Takes the value under `name` out of the map, with its name. The
    /// names behind it move up by one place. A name that is not in the map
    /// leaves the map as it is.
    pub fn remove(&mut self, name: &str) -> (r: Option<V>)
        ensures
            old(self).has(name@) ==> {
                &&& r == Some(old(self).value_of(name@))
                &&& final(self).names() == old(self).names().remove(
                    position_of(old(self).names(), name@),
                )
                &&& final(self).values() == old(self).values().remove(
                    position_of(old(self).names(), name@),
                )
            },
            !old(self).has(name@) ==> r is None && final(self).names() == old(self).names()
                && final(self).values() == old(self).values(),
            old(self).wf() ==> final(self).wf() && !final(self).has(name@),
    {
        proof {
            lemma_position_of(self.names(), name@);
        }
        let ghost before = *self;
        let i = self.find(name);
        if i < self.entries.len() {
            let entry = self.entries.remove(i);
            proof {
                assert(self.names() =~= before.names().remove(i as int));
                assert(self.values() =~= before.values().remove(i as int));
                if before.wf() {
                    assert forall|a: int, b: int|
                        0 <= a < self.names().len() && 0 <= b < self.names().len() && a
                            != b implies self.names()[a] != self.names()[b] by {
                        let a0 = if a < i {
                            a
                        } else {
                            a + 1
                        };
                        let b0 = if b < i {
                            b
                        } else {
                            b + 1
                        };
                        assert(self.names()[a] == before.names()[a0]);
                        assert(self.names()[b] == before.names()[b0]);
                    }
                    if self.has(name@) {
                        let a = choose|a: int| 0 <= a < self.names().len() && self.names()[a] == name@;
                        let a0 = if a < i {
                            a
                        } else {
                            a + 1
                        };
                        assert(before.names()[a0] == name@);
                        assert(before.names()[i as int] == name@);
                    }
                }
            }
            Some(entry.1)
        } else {
            None
        }
    }
}

impl NamedMap<String> {
    /// A copy of a map of texts.
    pub fn duplicate(&self) -> (copy: Self)
        ensures
            copy.names() == self.names(),
            copy.values() == self.values(),
    {
        let mut entries: Vec<(String, String)> = Vec::new();
        let mut i: usize = 0;
        while i < self.entries.len()
            invariant
                i <= self.entries@.len(),
                entries@.len() == i,
                forall|j: int| 0 <= j < i ==> entries@[j] == self.entries@[j],
            decreases self.entries@.len() - i,
        {
            entries.push((self.entries[i].0.clone(), self.entries[i].1.clone()));
            i = i + 1;
        }
        let copy = NamedMap { entries };
        assert(copy.names() =~= self.names());
        assert(copy.values() =~= self.values());
        copy
    }
}

} // verus!
