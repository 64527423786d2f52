//! Names: sets of them, and lists of them filtered.

use vstd::prelude::*;
use crate::text;

verus! {

/// Whether a name occurs in a list of names.
pub fn has_name(names: &Vec<String>, name: &str) -> (found: bool)
    ensures
        found == names.deep_view().contains(name@),
{
    for i in 0..names.len()
        invariant
            forall|j: int| 0 <= j < i ==> #[trigger] names@[j]@ != name@,
    {
        if text::same_text(&names[i], name) {
            assert(names.deep_view()[i as int] == name@);
            return true;
        }
    }
    assert forall|j: int| 0 <= j < names@.len() implies names.deep_view()[j] != name@ by {
        assert(names@[j]@ != name@);
    }
    false
}

/// A set of names.
#[derive(Debug)]
pub struct NameSet {
    pub names: Vec<String>,
}

impl View for NameSet {
    type V = Set<Seq<char>>;

    open spec fn view(&self) -> Set<Seq<char>> {
        self.names.deep_view().to_set()
    }
}

impl NameSet {
    /// The empty set.
    pub fn new() -> (set: NameSet)
        ensures
            set@ == Set::<Seq<char>>::empty(),
    {
        let set = NameSet { names: Vec::new() };
        assert(set.names.deep_view() =~= seq![]);
        assert(set@ =~= Set::empty());
        set
    }

    /// Whether the set holds no name.
    pub fn is_empty(&self) -> (empty: bool)
        ensures
            empty == (self@ == Set::<Seq<char>>::empty()),
    {
        if self.names.len() == 0 {
            assert(self@ =~= Set::empty());
            true
        } else {
            assert(self.names.deep_view().contains(self.names.deep_view()[0]));
            assert(self@.contains(self.names.deep_view()[0]));
            false
        }
    }

    /// Whether the set holds more than one name.
    pub fn has_several(&self) -> (several: bool)
        ensures
            several == (self@.len() >= 2),
    {
        let ghost views = self.names.deep_view();
        if self.names.len() == 0 {
            assert(self@ =~= Set::empty());
            return false;
        }
        let ghost first = views[0];
        assert(views.contains(first));
        for i in 1..self.names.len()
            invariant
                views == self.names.deep_view(),
                views.len() > 0,
                first == views[0],
                self@.contains(first),
                forall|j: int| 0 <= j < i ==> #[trigger] views[j] == first,
        {
            assert(views[i as int] == self.names@[i as int]@);
            if !text::same_text(&self.names[i], &self.names[0]) {
                proof {
                    let other = views[i as int];
                    assert(views.contains(other));
                    views.lemma_cardinality_of_set();
                    let pair = Set::empty().insert(first).insert(other);
                    assert(pair.subset_of(self@));
                    vstd::set_lib::lemma_len_subset(pair, self@);
                }
                return true;
            }
        }
        assert(self@ =~= Set::empty().insert(first));
        false
    }

    /// Whether the set holds a name.
    pub fn contains(&self, name: &str) -> (found: bool)
        ensures
            found == self@.contains(name@),
    {
        has_name(&self.names, name)
    }

    /// Puts a name into the set. Returns whether it was not there yet.
    pub fn insert(&mut self, name: String) -> (added: bool)
        ensures
            added == !old(self)@.contains(name@),
            final(self)@ == old(self)@.insert(name@),
    {
        let ghost before = self.names.deep_view();
        if self.contains(&name) {
            assert(self@ =~= old(self)@.insert(name@));
            return false;
        }
        self.names.push(name);
        proof {
            assert(self.names.deep_view() =~= before.push(name@));
            assert forall|other: Seq<char>| #[trigger] before.push(name@).contains(other) == (
            before.contains(other) || other == name@) by {
                if before.contains(other) {
                    let i = choose|i: int| 0 <= i < before.len() && before[i] == other;
                    assert(before.push(name@)[i] == other);
                }
                if other == name@ {
                    assert(before.push(name@)[before.len() as int] == other);
                }
            }
            assert(self@ =~= old(self)@.insert(name@));
        }
        true
    }

    /// Takes a name out of the set. Returns whether it was there.
    pub fn remove(&mut self, name: &str) -> (removed: bool)
        ensures
            removed == old(self)@.contains(name@),
            final(self)@ == old(self)@.remove(name@),
    {
        let ghost before = self.names.deep_view();
        let mut kept: Vec<String> = Vec::new();
        let mut removed = false;
        for i in 0..self.names.len()
            invariant
                before == self.names.deep_view(),
                removed == before.take(i as int).contains(name@),
                forall|other: Seq<char>| #[trigger]
                    kept.deep_view().contains(other) == (before.take(i as int).contains(other)
                        && other != name@),
        {
            let ghost was = kept.deep_view();
            let ghost seen = before.take(i as int);
            let ghost longer = before.take(i + 1);
            assert(before[i as int] == self.names@[i as int]@);
            assert forall|other: Seq<char>| #[trigger] longer.contains(other) == (seen.contains(
                other,
            ) || other == before[i as int]) by {
                if seen.contains(other) {
                    let j = choose|j: int| 0 <= j < seen.len() && seen[j] == other;
                    assert(longer[j] == other);
                }
                if other == before[i as int] {
                    assert(longer[i as int] == other);
                }
            }
            if text::same_text(&self.names[i], name) {
                removed = true;
            } else {
                kept.push(self.names[i].clone());
                assert(kept.deep_view() =~= was.push(before[i as int]));
                assert forall|other: Seq<char>| #[trigger] kept.deep_view().contains(other) == (
                was.contains(other) || other == before[i as int]) by {
                    if was.contains(other) {
                        let j = choose|j: int| 0 <= j < was.len() && was[j] == other;
                        assert(kept.deep_view()[j] == other);
                    }
                    if other == before[i as int] {
                        assert(kept.deep_view()[was.len() as int] == other);
                    }
                }
            }
        }
        assert(before.take(before.len() as int) =~= before);
        self.names = kept;
        assert(self@ =~= old(self)@.remove(name@));
        removed
    }
}

/// A filter that lets everything through leaves a sequence as it is.
pub proof fn all_match<T>(s: Seq<T>, pred: spec_fn(T) -> bool)
    requires
        forall|i: int| 0 <= i < s.len() ==> pred(#[trigger] s[i]),
    ensures
        s.filter(pred) == s,
    decreases s.len(),
{
    reveal(Seq::filter);
    if s.len() > 0 {
        let init = s.drop_last();
        assert forall|i: int| 0 <= i < init.len() implies pred(#[trigger] init[i]) by {
            assert(init[i] == s[i]);
        }
        all_match(init, pred);
        assert(init.push(s.last()) =~= s);
    } else {
        assert(s.filter(pred) =~= s);
    }
}

} // verus!
