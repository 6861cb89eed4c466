//! A map from text to text that remembers the order in which keys arrived.

use vstd::prelude::*;

verus! {

/// A finite mapping from names to values, both text. No name occurs twice.
/// A name keeps the place at which it first arrived.
///
/// Its view is the mapping itself; [`StringMap::keys`] gives the names in
/// order.
#[derive(Debug)]
pub struct StringMap {
    entries: Vec<(String, String)>,
}

/// The mapping obtained from `start` by binding each pair of `pairs` in turn,
/// so that a later pair overrides an earlier one with the same name.
pub open spec fn bind_all(
    start: Map<Seq<char>, Seq<char>>,
    pairs: Seq<(Seq<char>, Seq<char>)>,
) -> Map<Seq<char>, Seq<char>>
    decreases pairs.len(),
{
    if pairs.len() == 0 {
        start
    } else {
        bind_all(start, pairs.drop_last()).insert(pairs.last().0, pairs.last().1)
    }
}

/// The names of `pairs` in the order in which each first occurs.
pub open spec fn names_in_order(pairs: Seq<(Seq<char>, Seq<char>)>) -> Seq<Seq<char>>
    decreases pairs.len(),
{
    if pairs.len() == 0 {
        Seq::<Seq<char>>::empty()
    } else {
        let earlier = names_in_order(pairs.drop_last());
        if earlier.contains(pairs.last().0) {
            earlier
        } else {
            earlier.push(pairs.last().0)
        }
    }
}

/// The pairs of `pairs`, each string taken by its view.
pub open spec fn pair_views(pairs: Seq<(String, String)>) -> Seq<(Seq<char>, Seq<char>)> {
    Seq::new(pairs.len(), |i: int| (pairs[i].0@, pairs[i].1@))
}

/// No name stands at two places of `entries`.
spec fn distinct_names(entries: Seq<(String, String)>) -> bool {
    forall|i: int, j: int| 0 <= i < j < entries.len() ==> entries[i].0@ != entries[j].0@
}

/// Where `name` stands among `entries`, if it does.
spec fn position(entries: Seq<(String, String)>, name: Seq<char>) -> Option<int> {
    if exists|i: int| 0 <= i < entries.len() && entries[i].0@ == name {
        Some(choose|i: int| 0 <= i < entries.len() && entries[i].0@ == name)
    } else {
        None
    }
}

/// The mapping that `entries` stand for.
spec fn map_of(entries: Seq<(String, String)>) -> Map<Seq<char>, Seq<char>> {
    Map::new(
        |k: Seq<char>| position(entries, k) is Some,
        |k: Seq<char>| entries[position(entries, k).unwrap()].1@,
    )
}

/// The names of `entries`, in order.
spec fn names_of(entries: Seq<(String, String)>) -> Seq<Seq<char>> {
    Seq::new(entries.len(), |i: int| entries[i].0@)
}

proof fn lemma_position(entries: Seq<(String, String)>, i: int)
    requires
        distinct_names(entries),
        0 <= i < entries.len(),
    ensures
        position(entries, entries[i].0@) == Some(i),
        map_of(entries).contains_key(entries[i].0@),
        map_of(entries)[entries[i].0@] == entries[i].1@,
{
}

proof fn lemma_names(entries: Seq<(String, String)>)
    requires
        distinct_names(entries),
    ensures
        names_of(entries).no_duplicates(),
        forall|k: Seq<char>| names_of(entries).contains(k) <==> map_of(entries).contains_key(k),
{
    assert forall|k: Seq<char>| names_of(entries).contains(k) <==> map_of(entries).contains_key(
        k,
    ) by {
        if names_of(entries).contains(k) {
            let i = choose|i: int| 0 <= i < names_of(entries).len() && names_of(entries)[i] == k;
            lemma_position(entries, i);
        }
        if map_of(entries).contains_key(k) {
            let i = position(entries, k).unwrap();
            assert(names_of(entries)[i] == k);
        }
    }
}

proof fn lemma_rebind(
    before: Seq<(String, String)>,
    after: Seq<(String, String)>,
    i: int,
)
    requires
        distinct_names(before),
        0 <= i < before.len(),
        after.len() == before.len(),
        after[i].0@ == before[i].0@,
        forall|j: int| 0 <= j < before.len() && j != i ==> after[j] == before[j],
    ensures
        distinct_names(after),
        names_of(after) == names_of(before),
        map_of(after) == map_of(before).insert(before[i].0@, after[i].1@),
{
    assert(forall|j: int| 0 <= j < before.len() ==> after[j].0@ == before[j].0@);
    assert(names_of(after) =~= names_of(before));
    assert forall|k: Seq<char>| #[trigger] position(after, k) == position(before, k) by {
        if position(before, k) is Some {
            let p = position(before, k).unwrap();
            lemma_position(after, p);
        } else if position(after, k) is Some {
            let p = position(after, k).unwrap();
            lemma_position(before, p);
        }
    }
    lemma_position(after, i);
    assert(map_of(after) =~= map_of(before).insert(before[i].0@, after[i].1@));
}

proof fn lemma_append(before: Seq<(String, String)>, entry: (String, String))
    requires
        distinct_names(before),
        position(before, entry.0@) is None,
    ensures
        distinct_names(before.push(entry)),
        names_of(before.push(entry)) == names_of(before).push(entry.0@),
        map_of(before.push(entry)) == map_of(before).insert(entry.0@, entry.1@),
{
    let after = before.push(entry);
    assert(forall|j: int| 0 <= j < before.len() ==> after[j] == before[j]);
    assert(distinct_names(after));
    assert(names_of(after) =~= names_of(before).push(entry.0@));
    lemma_position(after, before.len() as int);
    assert forall|k: Seq<char>| k != entry.0@ implies #[trigger] position(after, k) == position(
        before,
        k,
    ) by {
        if position(before, k) is Some {
            let p = position(before, k).unwrap();
            lemma_position(after, p);
        } else if position(after, k) is Some {
            let p = position(after, k).unwrap();
            lemma_position(before, p);
        }
    }
    assert(map_of(after) =~= map_of(before).insert(entry.0@, entry.1@));
}

proof fn lemma_size(entries: Seq<(String, String)>)
    requires
        distinct_names(entries),
    ensures
        map_of(entries).dom().finite(),
        map_of(entries).dom().len() == entries.len(),
{
    lemma_names(entries);
    let names = names_of(entries);
    names.unique_seq_to_set();
    vstd::seq_lib::seq_to_set_is_finite(names);
    assert(map_of(entries).dom() =~= names.to_set());
}

impl View for StringMap {
    type V = Map<Seq<char>, Seq<char>>;

    closed spec fn view(&self) -> Map<Seq<char>, Seq<char>> {
        map_of(self.entries@)
    }
}

fn find(entries: &Vec<(String, String)>, name: &String) -> (place: Option<usize>)
    requires
        distinct_names(entries@),
    ensures
        match place {
            Some(i) => i < entries@.len() && position(entries@, name@) == Some(i as int),
            None => position(entries@, name@) is None,
        },
{
    let mut i: usize = 0;
    while i < entries.len()
        invariant
            i <= entries@.len(),
            distinct_names(entries@),
            forall|j: int| 0 <= j < i ==> entries@[j].0@ != name@,
        decreases entries@.len() - i,
    {
        if entries[i].0 == *name {
            proof {
                lemma_position(entries@, i as int);
            }
            return Some(i);
        }
        i += 1;
    }
    None
}

impl StringMap {
    #[verifier::type_invariant]
    closed spec fn well_formed(&self) -> bool {
        distinct_names(self.entries@)
    }

    /// The names in the order in which they arrived.
    pub closed spec fn keys(&self) -> Seq<Seq<char>> {
        names_of(self.entries@)
    }

    /// What ties the ordered names to the mapping: the names are pairwise
    /// different, and they are exactly the names that the mapping binds.
    pub open spec fn keys_match_view(&self) -> bool {
        &&& self.keys().no_duplicates()
        &&& forall|k: Seq<char>| self.keys().contains(k) <==> self@.contains_key(k)
    }

    /// A map that binds nothing.
    pub fn new() -> (map: Self)
        ensures
            map@ == Map::<Seq<char>, Seq<char>>::empty(),
            map.keys() == Seq::<Seq<char>>::empty(),
    {
        let map = StringMap { entries: Vec::new() };
        assert(map@ =~= Map::<Seq<char>, Seq<char>>::empty());
        assert(map.keys() =~= Seq::<Seq<char>>::empty());
        map
    }

    /// The map built by binding the pairs of `pairs` in turn: where a name
    /// occurs more than once, its last value stands, at the place at which
    /// the name first occurred.
    pub fn from_pairs(pairs: Vec<(String, String)>) -> (map: Self)
        ensures
            map@ == bind_all(Map::<Seq<char>, Seq<char>>::empty(), pair_views(pairs@)),
            map.keys() == names_in_order(pair_views(pairs@)),
    {
        let mut map = StringMap::new();
        let mut i: usize = 0;
        while i < pairs.len()
            invariant
                i <= pairs@.len(),
                map@ == bind_all(
                    Map::<Seq<char>, Seq<char>>::empty(),
                    pair_views(pairs@).take(i as int),
                ),
                map.keys() == names_in_order(pair_views(pairs@).take(i as int)),
            decreases pairs@.len() - i,
        {
            let name = pairs[i].0.clone();
            let value = pairs[i].1.clone();
            proof {
                use_type_invariant(&map);
                lemma_names(map.entries@);
                let next = pair_views(pairs@).take(i + 1);
                assert(next.drop_last() =~= pair_views(pairs@).take(i as int));
                assert(next.last() == (name@, value@));
            }
            map.insert(name, value);
            i += 1;
        }
        proof {
            assert(pair_views(pairs@).take(i as int) =~= pair_views(pairs@));
        }
        map
    }

    /// The bindings as pairs of name and value, in the order of the names.
    pub fn to_pairs(&self) -> (pairs: Vec<(String, String)>)
        ensures
            pairs@.len() == self.keys().len(),
            forall|i: int|
                0 <= i < pairs@.len() ==> {
                    &&& (#[trigger] pairs@[i]).0@ == self.keys()[i]
                    &&& self@.contains_key(self.keys()[i])
                    &&& pairs@[i].1@ == self@[self.keys()[i]]
                },
    {
        proof {
            use_type_invariant(self);
        }
        let mut pairs: Vec<(String, String)> = Vec::new();
        let mut i: usize = 0;
        while i < self.entries.len()
            invariant
                i <= self.entries@.len(),
                distinct_names(self.entries@),
                pairs@.len() == i,
                forall|j: int|
                    0 <= j < i ==> {
                        &&& (#[trigger] pairs@[j]).0@ == self.keys()[j]
                        &&& self@.contains_key(self.keys()[j])
                        &&& pairs@[j].1@ == self@[self.keys()[j]]
                    },
            decreases self.entries@.len() - i,
        {
            proof {
                lemma_position(self.entries@, i as int);
            }
            pairs.push((self.entries[i].0.clone(), self.entries[i].1.clone()));
            i += 1;
        }
        pairs
    }

    /// How many names are bound.
    pub fn len(&self) -> (n: usize)
        ensures
            n == self.keys().len(),
            self.keys_match_view(),
    {
        proof {
            use_type_invariant(self);
            lemma_names(self.entries@);
        }
        self.entries.len()
    }

    /// Whether nothing is bound.
    pub fn is_empty(&self) -> (empty: bool)
        ensures
            empty == (self.keys().len() == 0),
    {
        self.entries.len() == 0
    }

    /// The name at place `i`.
    pub fn key_at(&self, i: usize) -> (name: &String)
        requires
            i < self.keys().len(),
        ensures
            name@ == self.keys()[i as int],
    {
        &self.entries[i].0
    }

    /// The value bound to the name at place `i`.
    pub fn value_at(&self, i: usize) -> (value: &String)
        requires
            i < self.keys().len(),
        ensures
            self@.contains_key(self.keys()[i as int]),
            value@ == self@[self.keys()[i as int]],
    {
        proof {
            use_type_invariant(self);
            lemma_position(self.entries@, i as int);
        }
        &self.entries[i].1
    }

    /// The value bound to `name`, if any.
    pub fn get(&self, name: &str) -> (value: Option<&String>)
        ensures
            match value {
                Some(v) => self@.contains_key(name@) && v@ == self@[name@],
                None => !self@.contains_key(name@),
            },
    {
        proof {
            use_type_invariant(self);
        }
        let wanted = name.to_owned();
        match find(&self.entries, &wanted) {
            Some(i) => Some(&self.entries[i].1),
            None => None,
        }
    }

    /// Whether `name` is bound.
    pub fn contains_key(&self, name: &str) -> (bound: bool)
        ensures
            bound == self@.contains_key(name@),
    {
        proof {
            use_type_invariant(self);
        }
        let wanted = name.to_owned();
        find(&self.entries, &wanted).is_some()
    }

    /// Binds `name` to `value`. A name that was bound keeps its place and
    /// its earlier value is handed back; a new name goes last.
    pub fn insert(&mut self, name: String, value: String) -> (previous: Option<String>)
        ensures
            final(self)@ == old(self)@.insert(name@, value@),
            match previous {
                Some(v) => old(self)@.contains_key(name@) && v@ == old(self)@[name@]
                    && final(self).keys() == old(self).keys(),
                None => !old(self)@.contains_key(name@) && final(self).keys() == old(
                    self,
                ).keys().push(name@),
            },
    {
        proof {
            use_type_invariant(&*self);
        }
        let mut entries: Vec<(String, String)> = Vec::new();
        core::mem::swap(&mut self.entries, &mut entries);
        let ghost before = entries@;
        let previous = match find(&entries, &name) {
            Some(i) => {
                let earlier = entries[i].1.clone();
                entries.set(i, (name, value));
                proof {
                    lemma_rebind(before, entries@, i as int);
                }
                Some(earlier)
            },
            None => {
                proof {
                    lemma_append(before, (name, value));
                }
                entries.push((name, value));
                None
            },
        };
        core::mem::swap(&mut self.entries, &mut entries);
        previous
    }
}

impl Default for StringMap {
    /// A map that binds nothing.
    fn default() -> (map: Self)
        ensures
            map@ == Map::<Seq<char>, Seq<char>>::empty(),
            map.keys() == Seq::<Seq<char>>::empty(),
    {
        StringMap::new()
    }
}

impl Clone for StringMap {
    /// A copy that binds the same names to the same values, in the same
    /// order.
    fn clone(&self) -> (copy: Self)
        ensures
            copy@ == self@,
            copy.keys() == self.keys(),
    {
        proof {
            use_type_invariant(self);
        }
        let mut entries: Vec<(String, String)> = Vec::new();
        let mut i: usize = 0;
        while i < self.entries.len()
            invariant
                i <= self.entries@.len(),
                entries@ == self.entries@.take(i as int),
            decreases self.entries@.len() - i,
        {
            let name = self.entries[i].0.clone();
            let value = self.entries[i].1.clone();
            entries.push((name, value));
            proof {
                assert(entries@ =~= self.entries@.take(i + 1));
            }
            i += 1;
        }
        proof {
            assert(entries@ =~= self.entries@);
        }
        StringMap { entries }
    }
}

impl PartialEq for StringMap {
    /// Two maps are equal when they bind the same names to the same values,
    /// in whatever order the names arrived.
    fn eq(&self, other: &Self) -> (equal: bool) {
        proof {
            use_type_invariant(self);
            use_type_invariant(other);
            lemma_size(self.entries@);
            lemma_size(other.entries@);
        }
        if self.entries.len() != other.entries.len() {
            return false;
        }
        let mut i: usize = 0;
        while i < self.entries.len()
            invariant
                i <= self.entries@.len(),
                distinct_names(self.entries@),
                distinct_names(other.entries@),
                forall|j: int|
                    0 <= j < i ==> map_of(other.entries@).contains_key(
                        #[trigger] self.entries@[j].0@,
                    ) && map_of(other.entries@)[self.entries@[j].0@] == self.entries@[j].1@,
            decreases self.entries@.len() - i,
        {
            proof {
                lemma_position(self.entries@, i as int);
            }
            match find(&other.entries, &self.entries[i].0) {
                Some(j) => {
                    proof {
                        lemma_position(other.entries@, j as int);
                    }
                    if !(other.entries[j].1 == self.entries[i].1) {
                        return false;
                    }
                },
                None => {
                    return false;
                },
            }
            i += 1;
        }
        proof {
            let mine = map_of(self.entries@);
            let theirs = map_of(other.entries@);
            assert forall|k: Seq<char>| mine.contains_key(k) implies theirs.contains_key(k)
                && theirs[k] == mine[k] by {
                let p = position(self.entries@, k).unwrap();
                lemma_position(self.entries@, p);
            }
            assert(mine.dom().subset_of(theirs.dom()));
            vstd::set_lib::lemma_subset_equality(mine.dom(), theirs.dom());
            assert(mine =~= theirs);
        }
        true
    }
}

impl vstd::std_specs::cmp::PartialEqSpecImpl for StringMap {
    open spec fn obeys_eq_spec() -> bool {
        true
    }

    open spec fn eq_spec(&self, other: &Self) -> bool {
        self@ == other@
    }
}

} // verus!
