//! The languages that a slave can compile and run.
use vstd::prelude::*;

verus! {

/// The place of the first of `names` that is `name`.
pub open spec fn find(names: Seq<Seq<char>>, name: Seq<char>) -> Option<usize> {
    match names.index_of_first(name) {
        Some(index) => Some(index as usize),
        None => None,
    }
}

/// What `find` finds is the first of the names that is `name`.
pub proof fn lemma_find(names: Seq<Seq<char>>, name: Seq<char>)
    requires
        names.len() <= usize::MAX,
    ensures
        find(names, name) is Some <==> names.contains(name),
        find(names, name) matches Some(i) ==> {
            &&& i < names.len()
            &&& names[i as int] == name
            &&& forall|j: int| 0 <= j < i ==> names[j] != name
        },
{
    names.index_of_first_ensures(name);
}

/// The table that a list of names makes.
pub open spec fn table(names: Seq<String>) -> Seq<Seq<char>> {
    Seq::new(names.len(), |i: int| names[i]@)
}

/// The names of the languages, in the order of the toolchains behind them. A
/// language is known by its place in this table.
pub struct Languages {
    names: Vec<String>,
}

impl View for Languages {
    type V = Seq<Seq<char>>;

    closed spec fn view(&self) -> Seq<Seq<char>> {
        Seq::new(self.names@.len(), |i: int| self.names@[i]@)
    }
}

impl Languages {
    /// A table of these names.
    pub fn new(names: Vec<String>) -> (languages: Languages)
        ensures
            languages@ == Seq::new(names@.len(), |i: int| names@[i]@),
            languages@ == table(names@),
    {
        Languages { names }
    }

    /// The language of that name, if there is one.
    pub fn get(&self, name: &String) -> (index: Option<usize>)
        ensures
            index == find(self@, name@),
            index is Some <==> self@.contains(name@),
            index matches Some(i) ==> {
                &&& i < self@.len()
                &&& self@[i as int] == name@
                &&& forall|j: int| 0 <= j < i ==> self@[j] != name@
            },
    {
        let mut i: usize = 0;
        while i < self.names.len()
            invariant
                i <= self.names@.len(),
                self@.len() == self.names@.len(),
                forall|j: int| 0 <= j < self.names@.len() ==> self@[j] == (#[trigger] self.names@[j])@,
                forall|j: int| 0 <= j < i ==> (#[trigger] self@[j]) != name@,
            decreases self.names@.len() - i,
        {
            if self.names[i] == *name {
                proof {
                    assert(self@[i as int] == name@);
                    lemma_find(self@, name@);
                }
                return Some(i);
            }
            i = i + 1;
        }
        proof {
            lemma_find(self@, name@);
        }
        None
    }
}

} // verus!
