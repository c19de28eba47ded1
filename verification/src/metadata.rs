//! What a repository tells of a prompt beside its text.

use crate::json::{json, Json};
use crate::text::same_text;
use serde_json::Value;
use vstd::prelude::*;

verus! {

/// What a list of named values says of each name; a later entry wins over an earlier one.
pub open spec fn entries_view(entries: Seq<(String, Value)>) -> Map<Seq<char>, Json>
    decreases entries.len(),
{
    if entries.len() == 0 {
        Map::empty()
    } else {
        entries_view(entries.drop_last()).insert(entries.last().0@, json(entries.last().1))
    }
}

/// JSON values by name, each name at most once.
#[derive(Debug)]
pub struct Metadata {
    entries: Vec<(String, Value)>,
}

impl View for Metadata {
    type V = Map<Seq<char>, Json>;

    closed spec fn view(&self) -> Map<Seq<char>, Json> {
        entries_view(self.entries@)
    }
}

/// No name occurs twice.
pub open spec fn names_distinct(entries: Seq<(String, Value)>) -> bool {
    forall|i: int, j: int|
        0 <= i < j < entries.len() ==> #[trigger] entries[i].0@ != #[trigger] entries[j].0@
}

proof fn lemma_entry(entries: Seq<(String, Value)>, i: int)
    requires
        names_distinct(entries),
        0 <= i < entries.len(),
    ensures
        entries_view(entries).contains_key(entries[i].0@),
        entries_view(entries)[entries[i].0@] == json(entries[i].1),
    decreases entries.len(),
{
    if i < entries.len() - 1 {
        assert(entries.drop_last()[i] == entries[i]);
        assert(entries[entries.len() - 1].0@ != entries[i].0@);
        assert(names_distinct(entries.drop_last())) by {
            assert forall|a: int, b: int| 0 <= a < b < entries.len() - 1 implies
                #[trigger] entries.drop_last()[a].0@ != #[trigger] entries.drop_last()[b].0@ by {
                assert(entries[a].0@ != entries[b].0@);
            }
        }
        lemma_entry(entries.drop_last(), i);
    }
}

proof fn lemma_no_entry(entries: Seq<(String, Value)>, name: Seq<char>)
    requires
        forall|i: int| 0 <= i < entries.len() ==> #[trigger] entries[i].0@ != name,
    ensures
        !entries_view(entries).contains_key(name),
    decreases entries.len(),
{
    if entries.len() > 0 {
        assert(entries[entries.len() - 1].0@ != name);
        assert forall|i: int| 0 <= i < entries.len() - 1 implies
            #[trigger] entries.drop_last()[i].0@ != name by {
            assert(entries[i].0@ != name);
        }
        lemma_no_entry(entries.drop_last(), name);
    }
}

proof fn lemma_replaced(entries: Seq<(String, Value)>, i: int, value: Value)
    requires
        names_distinct(entries),
        0 <= i < entries.len(),
    ensures
        names_distinct(entries.update(i, (entries[i].0, value))),
        entries_view(entries.update(i, (entries[i].0, value))) == entries_view(entries).insert(
            entries[i].0@,
            json(value),
        ),
{
    let replaced = entries.update(i, (entries[i].0, value));
    let before = entries_view(entries).insert(entries[i].0@, json(value));
    assert forall|a: int, b: int| 0 <= a < b < replaced.len() implies
        #[trigger] replaced[a].0@ != #[trigger] replaced[b].0@ by {
        assert(entries[a].0@ != entries[b].0@);
    }
    assert forall|name: Seq<char>|
        #![trigger before.dom().contains(name)]
        #![trigger entries_view(replaced).dom().contains(name)]
        entries_view(replaced).dom().contains(name) == before.dom().contains(name) && (
        before.dom().contains(name) ==> entries_view(replaced)[name] == before[name]) by {
        if exists|j: int| 0 <= j < entries.len() && #[trigger] entries[j].0@ == name {
            let j = choose|j: int| 0 <= j < entries.len() && #[trigger] entries[j].0@ == name;
            assert(replaced[j].0@ == name);
            if j != i {
                assert(entries[i].0@ != entries[j].0@);
            }
            lemma_entry(entries, j);
            lemma_entry(replaced, j);
        } else {
            assert forall|j: int| 0 <= j < replaced.len() implies
                #[trigger] replaced[j].0@ != name by {
                assert(entries[j].0@ != name);
            }
            lemma_no_entry(entries, name);
            lemma_no_entry(replaced, name);
            assert(entries[i].0@ != name);
        }
    }
    assert(entries_view(replaced) =~= before);
}

/// Entries without two of the same name say of each name what its entry says, and nothing of any
/// other name.
pub proof fn law_entries_say_what_they_hold(entries: Seq<(String, Value)>, name: Seq<char>)
    requires
        names_distinct(entries),
    ensures
        forall|i: int|
            0 <= i < entries.len() ==> entries_view(entries).contains_key(
                (#[trigger] entries[i]).0@,
            ) && entries_view(entries)[entries[i].0@] == json(entries[i].1),
        entries_view(entries).contains_key(name) ==> exists|i: int|
            0 <= i < entries.len() && (#[trigger] entries[i]).0@ == name,
{
    assert forall|i: int| 0 <= i < entries.len() implies entries_view(entries).contains_key(
        (#[trigger] entries[i]).0@,
    ) && entries_view(entries)[entries[i].0@] == json(entries[i].1) by {
        lemma_entry(entries, i);
    }
    if forall|i: int| 0 <= i < entries.len() ==> (#[trigger] entries[i]).0@ != name {
        lemma_no_entry(entries, name);
    }
}

impl Clone for Metadata {
    fn clone(&self) -> (r: Self)
        ensures
            r@ == self@,
    {
        proof {
            use_type_invariant(self);
        }
        let mut entries: Vec<(String, Value)> = Vec::new();
        let mut i: usize = 0;
        proof {
            assert(self.entries@.take(0) =~= Seq::empty());
        }
        while i < self.entries.len()
            invariant
                i <= self.entries@.len(),
                entries@.len() == i,
                forall|j: int| 0 <= j < i ==> #[trigger] entries@[j].0@ == self.entries@[j].0@,
                entries_view(entries@) == entries_view(self.entries@.take(i as int)),
            decreases self.entries@.len() - i,
        {
            let ghost before = entries@;
            entries.push((self.entries[i].0.clone(), self.entries[i].1.clone()));
            proof {
                assert(entries@.drop_last() =~= before);
                assert(self.entries@.take(i + 1).drop_last() =~= self.entries@.take(i as int));
            }
            i = i + 1;
        }
        proof {
            assert(self.entries@.take(i as int) =~= self.entries@);
            assert forall|a: int, b: int| 0 <= a < b < entries@.len() implies
                #[trigger] entries@[a].0@ != #[trigger] entries@[b].0@ by {
                assert(self.entries@[a].0@ != self.entries@[b].0@);
            }
        }
        Metadata { entries }
    }
}

impl Metadata {
    #[verifier::type_invariant]
    spec fn inv(self) -> bool {
        names_distinct(self.entries@)
    }

    /// No values at all.
    pub fn new() -> (r: Self)
        ensures
            r@ == Map::<Seq<char>, Json>::empty(),
    {
        Metadata { entries: Vec::new() }
    }

    fn position(&self, name: &str) -> (r: Option<usize>)
        ensures
            match r {
                Some(i) => i < self.entries@.len() && self.entries@[i as int].0@ == name@,
                None => forall|i: int|
                    0 <= i < self.entries@.len() ==> #[trigger] self.entries@[i].0@ != name@,
            },
    {
        let mut i: usize = 0;
        while i < self.entries.len()
            invariant
                i <= self.entries@.len(),
                forall|j: int| 0 <= j < i ==> #[trigger] self.entries@[j].0@ != name@,
            decreases self.entries@.len() - i,
        {
            if same_text(self.entries[i].0.as_str(), name) {
                return Some(i);
            }
            i = i + 1;
        }
        None
    }

    /// The value under a name.
    pub fn get(&self, name: &str) -> (r: Option<&Value>)
        ensures
            match r {
                Some(v) => self@.contains_key(name@) && self@[name@] == json(*v),
                None => !self@.contains_key(name@),
            },
    {
        proof {
            use_type_invariant(self);
        }
        match self.position(name) {
            Some(i) => {
                proof {
                    lemma_entry(self.entries@, i as int);
                }
                Some(&self.entries[i].1)
            },
            None => {
                proof {
                    lemma_no_entry(self.entries@, name@);
                }
                None
            },
        }
    }

    /// Whether there is a value under a name.
    pub fn contains_key(&self, name: &str) -> (r: bool)
        ensures
            r == self@.contains_key(name@),
    {
        self.get(name).is_some()
    }

    /// Puts a value under a name, in place of the one that was there.
    pub fn insert(&mut self, name: String, value: Value)
        ensures
            final(self)@ == old(self)@.insert(name@, json(value)),
    {
        proof {
            use_type_invariant(&*self);
        }
        let found = self.position(name.as_str());
        let mut entries: Vec<(String, Value)> = Vec::new();
        std::mem::swap(&mut entries, &mut self.entries);
        let ghost before = entries@;
        match found {
            Some(i) => {
                let (kept, _) = entries.remove(i);
                entries.insert(i, (kept, value));
                proof {
                    lemma_replaced(before, i as int, value);
                    assert(entries@ =~= before.update(i as int, (before[i as int].0, value)));
                }
            },
            None => {
                entries.push((name, value));
                proof {
                    assert(entries@.drop_last() =~= before);
                    assert forall|a: int, b: int| 0 <= a < b < entries@.len() implies
                        #[trigger] entries@[a].0@ != #[trigger] entries@[b].0@ by {
                        assert(before[a].0@ != name@);
                        if b < before.len() {
                            assert(before[a].0@ != before[b].0@);
                        }
                    }
                }
            },
        }
        self.entries = entries;
    }

    /// The names with their values.
    pub fn entries(&self) -> (r: &Vec<(String, Value)>)
        ensures
            names_distinct(r@),
            entries_view(r@) == self@,
    {
        proof {
            use_type_invariant(self);
        }
        &self.entries
    }
}

} // verus!
