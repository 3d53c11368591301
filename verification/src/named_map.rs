//! A small map from names to values that keeps the order of insertion.

use vstd::prelude::*;

verus! {

/// The first place at which `k` stands in `names`.
pub open spec fn first_place(names: Seq<Seq<char>>, k: Seq<char>) -> int {
    choose|i: int|
        0 <= i < names.len() && names[i] == k && forall|j: int| 0 <= j < i ==> names[j] != k
}

/// A name that occurs has a first place.
pub proof fn lemma_first_place_exists(names: Seq<Seq<char>>, k: Seq<char>)
    requires
        names.contains(k),
    ensures
        0 <= first_place(names, k) < names.len(),
        names[first_place(names, k)] == k,
        forall|j: int| 0 <= j < first_place(names, k) ==> names[j] != k,
{
    names.index_of_first_ensures(k);
    let i = names.index_of_first(k).unwrap();
    assert(0 <= i < names.len() && names[i] == k && forall|j: int| 0 <= j < i ==> names[j] != k);
}

/// A place before which the name does not occur is its first place.
pub proof fn lemma_first_place_is(names: Seq<Seq<char>>, k: Seq<char>, i: int)
    requires
        0 <= i < names.len(),
        names[i] == k,
        forall|j: int| 0 <= j < i ==> names[j] != k,
    ensures
        names.contains(k),
        first_place(names, k) == i,
{
    lemma_first_place_exists(names, k);
}

/// A map from names to values, kept as a vector of pairs.
///
/// A name keeps its place for as long as it stays in the map: walking the map
/// by index visits the names in the order in which they first came. The
/// operations of this type never put a name in twice.
#[derive(Debug, PartialEq, Eq)]
pub struct NamedMap<V> {
    entries: Vec<(String, V)>,
}

impl<V: View> View for NamedMap<V> {
    type V = Map<Seq<char>, V::V>;

    /// The map from each name to the model of the value at its first place.
    closed spec fn view(&self) -> Map<Seq<char>, V::V> {
        Map::new(
            |k: Seq<char>| self.names().contains(k),
            |k: Seq<char>| self.items()[first_place(self.names(), k)]@,
        )
    }
}

impl<V: View> NamedMap<V> {
    /// The pairs of name and value, in the order in which the names came.
    pub closed spec fn pairs(&self) -> Seq<(Seq<char>, V)> {
        Seq::new(self.entries@.len(), |i: int| (self.entries@[i].0@, self.entries@[i].1))
    }

    /// The names, in the order in which they came.
    pub open spec fn names(&self) -> Seq<Seq<char>> {
        Seq::new(self.pairs().len(), |i: int| self.pairs()[i].0)
    }

    /// The values, each at the place of its name.
    pub open spec fn items(&self) -> Seq<V> {
        Seq::new(self.pairs().len(), |i: int| self.pairs()[i].1)
    }

    /// No name occurs twice.
    pub open spec fn wf(&self) -> bool {
        self.names().no_duplicates()
    }

    /// The name at a place maps to the value at that place, unless the name
    /// stands at an earlier place too.
    pub proof fn lemma_view_at(&self, i: int)
        requires
            0 <= i < self.names().len(),
            first_place(self.names(), self.names()[i]) == i,
        ensures
            self@.dom().contains(self.names()[i]),
            self@[self.names()[i]] == self.items()[i]@,
    {
        assert(self.names().contains(self.names()[i]));
    }

    /// The map holds exactly the names of the sequence of names.
    pub proof fn lemma_dom(&self)
        ensures
            forall|k: Seq<char>| #[trigger] self@.dom().contains(k) <==> self.names().contains(k),
    {
    }

    /// Two maps with the same names in the same order, and values with the
    /// same models at each place, are the same map.
    pub proof fn lemma_same_view(&self, other: &Self)
        requires
            self.names() == other.names(),
            forall|i: int| 0 <= i < self.items().len() ==> self.items()[i]@ == other.items()[i]@,
        ensures
            self@ == other@,
    {
        assert(self.items().len() == self.names().len());
        assert(other.items().len() == other.names().len());
        assert forall|k: Seq<char>| self@.dom().contains(k) implies #[trigger] self@[k]
            == other@[k] by {
            lemma_first_place_exists(self.names(), k);
        }
        assert(self@ =~= other@);
    }

    /// Adds a pair at the end, whether or not the map holds the name.
    pub(crate) fn push_entry(&mut self, name: String, value: V)
        ensures
            final(self).pairs() == old(self).pairs().push((name@, value)),
    {
        self.entries.push((name, value));
        assert(self.pairs() =~= old(self).pairs().push((name@, value)));
    }

    /// An empty map.
    pub fn new() -> (r: Self)
        ensures
            r.wf(),
            r.pairs() == Seq::<(Seq<char>, V)>::empty(),
            r@ == Map::<Seq<char>, V::V>::empty(),
    {
        let r = NamedMap { entries: Vec::new() };
        assert(r.pairs() =~= Seq::<(Seq<char>, V)>::empty());
        assert(r@ =~= Map::<Seq<char>, V::V>::empty());
        r
    }

    /// The number of places.
    pub fn len(&self) -> (n: usize)
        ensures
            n == self.pairs().len(),
    {
        self.entries.len()
    }

    /// The first place of `key`, if the map holds it.
    pub fn position(&self, key: &str) -> (r: Option<usize>)
        ensures
            match r {
                Some(i) => self.names().contains(key@) && i == first_place(self.names(), key@),
                None => !self.names().contains(key@),
            },
            r is Some ==> r.unwrap() < self.pairs().len(),
    {
        let wanted: String = key.to_owned();
        let mut i: usize = 0;
        while i < self.entries.len()
            invariant
                i <= self.entries.len(),
                wanted@ == key@,
                forall|j: int| 0 <= j < i ==> self.names()[j] != key@,
            decreases self.entries.len() - i,
        {
            if self.entries[i].0 == wanted {
                proof {
                    lemma_first_place_is(self.names(), key@, i as int);
                }
                return Some(i);
            }
            i += 1;
        }
        None
    }

    /// Whether the map holds `key`.
    pub fn contains_key(&self, key: &str) -> (r: bool)
        ensures
            r == self@.dom().contains(key@),
    {
        self.position(key).is_some()
    }

    /// The value of `key`, if the map holds it.
    pub fn get(&self, key: &str) -> (r: Option<&V>)
        ensures
            match r {
                Some(v) => self@.dom().contains(key@) && v@ == self@[key@] && *v
                    == self.items()[first_place(self.names(), key@)],
                None => !self@.dom().contains(key@),
            },
    {
        match self.position(key) {
            Some(i) => Some(&self.entries[i].1),
            None => None,
        }
    }

    /// The name at place `i`.
    pub fn name_at(&self, i: usize) -> (r: &String)
        requires
            i < self.pairs().len(),
        ensures
            r@ == self.names()[i as int],
    {
        &self.entries[i].0
    }

    /// The value at place `i`.
    pub fn value_at(&self, i: usize) -> (r: &V)
        requires
            i < self.pairs().len(),
        ensures
            *r == self.items()[i as int],
    {
        &self.entries[i].1
    }

    /// The value at place `i`, to be changed in place. The names stay as they
    /// are; the map then holds whatever the caller leaves behind the reference.
    pub fn value_at_mut(&mut self, i: usize) -> (r: &mut V)
        requires
            i < old(self).pairs().len(),
        ensures
            *r == old(self).items()[i as int],
            final(self).names() == old(self).names(),
            final(self).items() == old(self).items().update(i as int, *final(r)),
            first_place(old(self).names(), old(self).names()[i as int]) == i ==> final(self)@
                == old(self)@.insert(old(self).names()[i as int], final(r)@),
    {
        proof {
            assert forall|after: NamedMap<V>|
                #[trigger] after.entries@ == self.entries@.update(
                    i as int,
                    (self.entries@[i as int].0, after.entries@[i as int].1),
                ) implies after.names() == self.names() && after.items() == self.items().update(
                i as int,
                after.items()[i as int],
            ) && (first_place(self.names(), self.names()[i as int]) == i ==> after@
                == self@.insert(self.names()[i as int], after.items()[i as int]@)) by {
                assert(after.names() =~= self.names());
                assert(after.items() =~= self.items().update(i as int, after.items()[i as int]));
                if first_place(self.names(), self.names()[i as int]) == i {
                    Self::lemma_updated(*self, after, i as int);
                }
            }
        }
        let r = &mut self.entries[i].1;
        r
    }

    /// Replacing the value at the first place of a name is an insertion under
    /// that name.
    proof fn lemma_updated(before: Self, after: Self, i: int)
        requires
            0 <= i < before.names().len(),
            first_place(before.names(), before.names()[i]) == i,
            after.names() == before.names(),
            after.items() == before.items().update(i, after.items()[i]),
        ensures
            after@ == before@.insert(before.names()[i], after.items()[i]@),
            before.wf() ==> after.wf(),
    {
        let key = before.names()[i];
        let target = before@.insert(key, after.items()[i]@);
        assert(before.names().contains(key));
        assert forall|k: Seq<char>| after@.dom().contains(k) implies #[trigger] after@[k]
            == target[k] by {
            lemma_first_place_exists(before.names(), k);
        }
        assert(after@ =~= target);
    }

    /// Appending a name that the map does not hold is an insertion under that
    /// name.
    proof fn lemma_pushed(before: Self, after: Self, key: Seq<char>)
        requires
            !before.names().contains(key),
            after.names() == before.names().push(key),
            after.items().drop_last() == before.items(),
        ensures
            after@ == before@.insert(key, after.items().last()@),
            before.wf() ==> after.wf(),
    {
        let n = before.names().len() as int;
        assert(after.names().len() == n + 1);
        assert(after.items().len() == after.pairs().len());
        assert forall|j: int| 0 <= j < n implies before.names()[j] == after.names()[j] by {}
        if before.wf() {
            assert forall|a: int, b: int|
                0 <= a < after.names().len() && 0 <= b < after.names().len() && a
                    != b implies after.names()[a] != after.names()[b] by {
                if a < n {
                    assert(before.names()[a] == after.names()[a]);
                }
                if b < n {
                    assert(before.names()[b] == after.names()[b]);
                }
            }
        }
        let target = before@.insert(key, after.items().last()@);
        assert forall|k: Seq<char>| after@.dom().contains(k) <==> target.dom().contains(k) by {
            if after.names().contains(k) {
                let j = choose|j: int| 0 <= j < after.names().len() && after.names()[j] == k;
                if j < n {
                    assert(before.names()[j] == k);
                }
            }
            if before.names().contains(k) {
                let j = choose|j: int| 0 <= j < n && before.names()[j] == k;
                assert(after.names()[j] == k);
            }
            if k == key {
                assert(after.names()[n] == k);
            }
        }
        assert forall|k: Seq<char>| after@.dom().contains(k) implies #[trigger] after@[k]
            == target[k] by {
            lemma_first_place_exists(after.names(), k);
            let j = first_place(after.names(), k);
            if j < n {
                assert(before.names()[j] == k);
                lemma_first_place_is(before.names(), k, j);
                assert(before.items()[j] == after.items().drop_last()[j]);
            } else {
                assert(k == key);
            }
        }
        assert(after@ =~= target);
    }

    /// Taking out the first place of a name leaves every other name with its
    /// value.
    proof fn lemma_removed(before: Self, after: Self, i: int)
        requires
            0 <= i < before.names().len(),
            first_place(before.names(), before.names()[i]) == i,
            after.names() == before.names().remove(i),
            after.items() == before.items().remove(i),
        ensures
            after@.remove(before.names()[i]) == before@.remove(before.names()[i]),
            before.wf() ==> after.wf() && !after.names().contains(before.names()[i]),
    {
        let key = before.names()[i];
        let n = before.names().len() as int;
        before.names().remove_ensures(i);
        before.items().remove_ensures(i);
        assert forall|a: int| 0 <= a < n - 1 implies after.names()[a] == before.names()[if a
            < i {
            a
        } else {
            a + 1
        }] by {}
        if before.wf() {
            assert forall|a: int, b: int|
                0 <= a < after.names().len() && 0 <= b < after.names().len() && a
                    != b implies after.names()[a] != after.names()[b] by {
                let a0 = if a < i { a } else { a + 1 };
                let b0 = if b < i { b } else { b + 1 };
                assert(after.names()[a] == before.names()[a0]);
                assert(after.names()[b] == before.names()[b0]);
            }
            if after.names().contains(key) {
                let j = choose|j: int| 0 <= j < after.names().len() && after.names()[j] == key;
                let j0 = if j < i { j } else { j + 1 };
                assert(before.names()[j0] == key);
            }
        }
        let left = after@.remove(key);
        let right = before@.remove(key);
        assert forall|k: Seq<char>| left.dom().contains(k) <==> right.dom().contains(k) by {
            if after.names().contains(k) {
                let j = choose|j: int| 0 <= j < after.names().len() && after.names()[j] == k;
                let j0 = if j < i { j } else { j + 1 };
                assert(before.names()[j0] == k);
            }
            if before.names().contains(k) && k != key {
                let j0 = choose|j: int| 0 <= j < n && before.names()[j] == k;
                let j = if j0 < i { j0 } else { j0 - 1 };
                assert(after.names()[j] == k);
            }
        }
        assert forall|k: Seq<char>| left.dom().contains(k) implies #[trigger] left[k]
            == right[k] by {
            lemma_first_place_exists(after.names(), k);
            let j = first_place(after.names(), k);
            let j0 = if j < i { j } else { j + 1 };
            assert(before.names()[j0] == k);
            assert forall|b: int| 0 <= b < j0 implies before.names()[b] != k by {
                if b < i {
                    assert(after.names()[b] == before.names()[b]);
                } else if b > i {
                    assert(after.names()[b - 1] == before.names()[b]);
                }
            }
            lemma_first_place_is(before.names(), k, j0);
            assert(after.items()[j] == before.items()[j0]);
        }
        assert(left =~= right);
    }

    /// Puts `value` under `key`. A name that the map holds keeps its place and
    /// gets the new value; a new name goes to the end.
    pub fn insert(&mut self, key: &str, value: V)
        ensures
            final(self)@ == old(self)@.insert(key@, value@),
            old(self).names().contains(key@) ==> final(self).names() == old(self).names()
                && final(self).items() == old(self).items().update(
                first_place(old(self).names(), key@),
                value,
            ),
            !old(self).names().contains(key@) ==> final(self).pairs() == old(self).pairs().push(
                (key@, value),
            ),
            old(self).wf() ==> final(self).wf(),
    {
        match self.position(key) {
            Some(i) => {
                self.entries[i].1 = value;
                proof {
                    lemma_first_place_exists(old(self).names(), key@);
                    assert(self.names() =~= old(self).names());
                    assert(self.items() =~= old(self).items().update(i as int, value));
                    Self::lemma_updated(*old(self), *self, i as int);
                }
            },
            None => {
                self.entries.push((key.to_owned(), value));
                proof {
                    assert(self.pairs() =~= old(self).pairs().push((key@, value)));
                    assert(self.names() =~= old(self).names().push(key@));
                    assert(self.items().drop_last() =~= old(self).items());
                    Self::lemma_pushed(*old(self), *self, key@);
                }
            },
        }
    }

    /// Takes `key` out of the map and hands back the value it had, if the map
    /// held the name. The other names keep their order.
    pub fn remove(&mut self, key: &str) -> (r: Option<V>)
        ensures
            final(self)@ == old(self)@.remove(key@),
            !final(self).names().contains(key@),
            match r {
                Some(v) => old(self).names().contains(key@) && v == old(self).items()[first_place(
                    old(self).names(),
                    key@,
                )],
                None => !old(self).names().contains(key@) && final(self).pairs() == old(self).pairs(),
            },
            old(self).wf() ==> final(self).wf(),
            old(self).wf() && r is Some ==> final(self).pairs() == old(self).pairs().remove(
                first_place(old(self).names(), key@),
            ),
    {
        match self.position(key) {
            Some(i) => {
                let (_, v) = self.entries.remove(i);
                proof {
                    lemma_first_place_exists(old(self).names(), key@);
                    old(self).pairs().remove_ensures(i as int);
                    assert(self.pairs() =~= old(self).pairs().remove(i as int));
                    assert(self.names() =~= old(self).names().remove(i as int));
                    assert(self.items() =~= old(self).items().remove(i as int));
                    Self::lemma_removed(*old(self), *self, i as int);
                }
                let ghost mid = *self;
                while self.position(key).is_some()
                    invariant
                        self@.remove(key@) == old(self)@.remove(key@),
                        old(self).wf() ==> self.wf() && self.pairs() == mid.pairs(),
                        old(self).wf() ==> !self.names().contains(key@),
                    decreases self.pairs().len(),
                {
                    let ghost before = *self;
                    let j = self.position(key).unwrap();
                    self.entries.remove(j);
                    proof {
                        lemma_first_place_exists(before.names(), key@);
                        before.pairs().remove_ensures(j as int);
                        assert(self.pairs() =~= before.pairs().remove(j as int));
                        assert(self.names() =~= before.names().remove(j as int));
                        assert(self.items() =~= before.items().remove(j as int));
                        Self::lemma_removed(before, *self, j as int);
                    }
                }
                proof {
                    assert(self@ =~= self@.remove(key@));
                }
                Some(v)
            },
            None => {
                proof {
                    assert(self@ =~= old(self)@.remove(key@));
                }
                None
            },
        }
    }
}

} // verus!
