use vstd::prelude::*;
use vstd::string::StringExecFns;

verus! {

/// The name that stands for "every service the inspector knows".
pub const SENTINEL: &'static str = ":all_services";

/// Whether `name` is the sentinel.
pub fn is_sentinel(name: &String) -> (yes: bool)
    ensures
        yes == (name@ == SENTINEL@),
{
    let sentinel = String::from_str(SENTINEL);
    *name == sentinel
}

/// The names of `names` that are real service names, in the same order.
pub open spec fn concrete(names: Seq<Seq<char>>) -> Seq<Seq<char>> {
    names.filter(|name: Seq<char>| name != SENTINEL@)
}

/// No name that [`concrete`] keeps is the sentinel.
pub proof fn lemma_concrete_has_no_sentinel(names: Seq<Seq<char>>)
    ensures
        !concrete(names).contains(SENTINEL@),
{
    let kept = concrete(names);
    if kept.contains(SENTINEL@) {
        let i = choose|i: int| 0 <= i < kept.len() && kept[i] == SENTINEL@;
        names.lemma_filter_pred(|name: Seq<char>| name != SENTINEL@, i);
    }
}

/// Whether the sentinel stands anywhere among `names`.
pub fn holds_sentinel(names: &Vec<String>) -> (found: bool)
    ensures
        found == names.deep_view().contains(SENTINEL@),
{
    let sentinel = String::from_str(SENTINEL);
    let mut i: usize = 0;
    while i < names.len()
        invariant
            i <= names.len(),
            sentinel@ == SENTINEL@,
            forall|j: int| 0 <= j < i ==> names.deep_view()[j] != SENTINEL@,
        decreases names.len() - i,
    {
        if names[i] == sentinel {
            assert(names.deep_view()[i as int] == SENTINEL@);
            return true;
        }
        i += 1;
    }
    false
}

/// Copies the real service names of `names`, in order, leaving the sentinel out.
pub fn concrete_names(names: &Vec<String>) -> (kept: Vec<String>)
    ensures
        kept.deep_view() == concrete(names.deep_view()),
{
    let sentinel = String::from_str(SENTINEL);
    let ghost all = names.deep_view();
    let mut kept: Vec<String> = Vec::new();
    let mut i: usize = 0;
    proof {
        reveal(Seq::filter);
        assert(all.take(0) =~= Seq::<Seq<char>>::empty());
    }
    while i < names.len()
        invariant
            i <= names.len(),
            sentinel@ == SENTINEL@,
            all == names.deep_view(),
            kept.deep_view() == concrete(all.take(i as int)),
        decreases names.len() - i,
    {
        let ghost before = kept.deep_view();
        proof {
            reveal(Seq::filter);
            assert(all.take(i + 1).drop_last() =~= all.take(i as int));
            assert(all.take(i + 1).last() == all[i as int]);
        }
        if names[i] != sentinel {
            kept.push(names[i].clone());
            assert(kept.deep_view() =~= before.push(all[i as int]));
        }
        i += 1;
    }
    assert(all.take(i as int) =~= all);
    kept
}

/// The service names that the aggregator monitors, in the order in which
/// they are queried.
///
/// Every change goes through `&mut self`, so no reader ever sees a list that
/// is half written. A program that shares one registry between threads keeps
/// it behind a lock and holds the lock for one call at a time.
#[derive(Debug)]
pub struct Registry {
    names: Vec<String>,
}

impl View for Registry {
    type V = Seq<Seq<char>>;

    closed spec fn view(&self) -> Seq<Seq<char>> {
        self.names.deep_view()
    }
}

impl Registry {
    /// A registry that monitors nothing.
    pub fn new() -> (registry: Registry)
        ensures
            registry@ == Seq::<Seq<char>>::empty(),
    {
        let registry = Registry { names: Vec::new() };
        assert(registry.names.deep_view() =~= Seq::<Seq<char>>::empty());
        registry
    }

    /// Loads the names to monitor, dropping whatever was held before.
    pub fn set(&mut self, names: Vec<String>)
        ensures
            final(self)@ == names.deep_view(),
    {
        self.names = names;
    }

    /// A copy of the names as they stand now.
    pub fn get(&self) -> (names: Vec<String>)
        ensures
            names.deep_view() == self@,
    {
        self.names.clone()
    }

    /// Puts `names` in place of the current contents, in one step.
    pub fn replace(&mut self, names: Vec<String>)
        ensures
            final(self)@ == names.deep_view(),
    {
        self.names = names;
    }

    /// How many names are held.
    pub fn len(&self) -> (count: usize)
        ensures
            count == self@.len(),
    {
        self.names.len()
    }

    /// Whether the sentinel is among the names held.
    pub fn contains_sentinel(&self) -> (found: bool)
        ensures
            found == self@.contains(SENTINEL@),
    {
        holds_sentinel(&self.names)
    }
}

} // verus!
