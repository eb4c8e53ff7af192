//! Sets of monitors.
use vstd::prelude::*;

verus! {

/// The names in a list, as texts.
pub open spec fn texts(names: Seq<String>) -> Seq<Seq<char>> {
    names.map_values(|name: String| name@)
}

/// Taking an entry out of a list without duplicates takes it out of the set of the entries.
proof fn removal_from_list(list: Seq<Seq<char>>, i: int)
    requires
        list.no_duplicates(),
        0 <= i < list.len(),
    ensures
        list.remove(i).to_set() == list.to_set().remove(list[i]),
        list.remove(i).no_duplicates(),
{
    let rest = list.remove(i);
    assert forall|entry: Seq<char>|
        rest.to_set().contains(entry) == list.to_set().remove(list[i]).contains(entry) by {
        if list.to_set().remove(list[i]).contains(entry) {
            let j = choose|j: int| 0 <= j < list.len() && list[j] == entry;
            assert(rest[if j < i { j } else { j - 1 }] == entry);
        }
        if rest.contains(entry) {
            let j = choose|j: int| 0 <= j < rest.len() && rest[j] == entry;
            assert(list[if j < i { j } else { j + 1 }] == entry);
        }
    }
    assert(rest.to_set() =~= list.to_set().remove(list[i]));
}

/// A set of monitors, each known by its name. Its view is the set of the names.
#[derive(Debug)]
pub struct MonitorSet {
    names: Vec<String>,
}

impl View for MonitorSet {
    type V = Set<Seq<char>>;

    closed spec fn view(&self) -> Set<Seq<char>> {
        texts(self.names@).to_set()
    }
}

impl MonitorSet {
    /// No name is listed twice.
    #[verifier::type_invariant]
    spec fn distinct(self) -> bool {
        texts(self.names@).no_duplicates()
    }

    /// The empty set.
    pub fn new() -> (set: MonitorSet)
        ensures
            set@ == Set::<Seq<char>>::empty(),
    {
        let set = MonitorSet { names: Vec::new() };
        assert(set@ =~= Set::<Seq<char>>::empty());
        set
    }

    /// Where a name stands in the list, if it does.
    fn position(&self, name: &String) -> (position: Option<usize>)
        ensures
            match position {
                Some(i) => i < self.names@.len() && self.names@[i as int]@ == name@,
                None => !self@.contains(name@),
            },
    {
        let mut i: usize = 0;
        while i < self.names.len()
            invariant
                i <= self.names@.len(),
                forall|j: int| 0 <= j < i ==> self.names@[j]@ != name@,
            decreases self.names@.len() - i,
        {
            if self.names[i] == *name {
                return Some(i);
            }
            i += 1;
        }
        None
    }

    /// Whether a monitor is in the set.
    pub fn contains(&self, name: &String) -> (found: bool)
        ensures
            found == self@.contains(name@),
    {
        match self.position(name) {
            Some(i) => {
                assert(texts(self.names@)[i as int] == name@);
                true
            },
            None => false,
        }
    }

    /// Puts a monitor into the set.
    pub fn insert(&mut self, name: String)
        ensures
            final(self)@ == old(self)@.insert(name@),
    {
        proof {
            use_type_invariant(&*self);
        }
        let ghost before = texts(self.names@);
        if !self.contains(&name) {
            let mut names: Vec<String> = Vec::new();
            std::mem::swap(&mut self.names, &mut names);
            names.push(name);
            assert(texts(names@) == before.push(name@));
            self.names = names;
            proof {
                before.lemma_push_to_set_commute(name@);
            }
        } else {
            assert(self@ =~= old(self)@.insert(name@));
        }
    }

    /// Takes a monitor out of the set.
    pub fn remove(&mut self, name: &String)
        ensures
            final(self)@ == old(self)@.remove(name@),
    {
        proof {
            use_type_invariant(&*self);
        }
        let ghost before = texts(self.names@);
        let position = self.position(name);
        if let Some(i) = position {
            let mut names: Vec<String> = Vec::new();
            std::mem::swap(&mut self.names, &mut names);
            names.remove(i);
            assert(texts(names@) == before.remove(i as int));
            self.names = names;
            proof {
                removal_from_list(before, i as int);
                assert(before[i as int] == name@);
            }
        } else {
            assert(self@ =~= old(self)@.remove(name@));
        }
    }

    /// The names in the set, each listed once.
    pub fn names(&self) -> (names: Vec<String>)
        ensures
            texts(names@).to_set() == self@,
            texts(names@).no_duplicates(),
    {
        proof {
            use_type_invariant(self);
        }
        let names = self.names.clone();
        assert(texts(names@) == texts(self.names@));
        names
    }

    /// A second set with the same monitors.
    pub fn duplicate(&self) -> (set: MonitorSet)
        ensures
            set@ == self@,
    {
        MonitorSet { names: self.names() }
    }
}

/// A list of names is seen name by name, in order.
pub proof fn names_are_seen_in_order(names: Seq<String>)
    ensures
        texts(names).len() == names.len(),
        forall|i: int| 0 <= i < names.len() ==> #[trigger] texts(names)[i] == names[i]@,
{
}

} // verus!
