use crate::seqs::{lemma_push_unique, lemma_remove_unique};
use crate::text::{holds_text, lemma_texts_push, same_text, texts};
use vstd::prelude::*;

verus! {

/// A set of package names that the user has ticked.
pub struct SelectionState {
    selected_packages: Vec<String>,
}

impl View for SelectionState {
    type V = Set<Seq<char>>;

    /// The names that are selected.
    closed spec fn view(&self) -> Set<Seq<char>> {
        texts(self.selected_packages@).to_set()
    }
}

impl SelectionState {
    /// No name is held twice.
    pub closed spec fn wf(&self) -> bool {
        texts(self.selected_packages@).no_duplicates()
    }

    /// A selection is finite, and holds as many names as are listed.
    proof fn lemma_finite(&self)
        requires
            self.wf(),
        ensures
            self@.finite(),
            self@.len() == self.selected_packages@.len(),
    {
        let names = texts(self.selected_packages@);
        names.unique_seq_to_set();
        vstd::seq_lib::seq_to_set_is_finite(names);
    }

    /// An empty selection.
    pub fn new() -> (state: Self)
        ensures
            state@ == Set::<Seq<char>>::empty(),
            state.wf(),
    {
        let state = SelectionState { selected_packages: Vec::new() };
        assert(state@ =~= Set::<Seq<char>>::empty());
        state
    }

    /// Whether a name is selected.
    pub fn is_selected(&self, package_name: &str) -> (selected: bool)
        ensures
            selected == self@.contains(package_name@),
    {
        holds_text(&self.selected_packages, package_name)
    }

    /// Selects a name.
    pub fn select(&mut self, package_name: String)
        requires
            old(self).wf(),
        ensures
            final(self)@ == old(self)@.insert(package_name@),
            final(self).wf(),
    {
        if holds_text(&self.selected_packages, package_name.as_str()) {
            assert(self@ =~= self@.insert(package_name@));
            return ;
        }
        proof {
            lemma_texts_push(self.selected_packages@, package_name);
            lemma_push_unique(texts(self.selected_packages@), package_name@);
        }
        self.selected_packages.push(package_name);
    }

    /// Takes a name out of the selection.
    pub fn deselect(&mut self, package_name: &str)
        requires
            old(self).wf(),
        ensures
            final(self)@ == old(self)@.remove(package_name@),
            final(self).wf(),
    {
        let ghost names = texts(self.selected_packages@);
        let mut i: usize = 0;
        while i < self.selected_packages.len()
            invariant
                i <= self.selected_packages@.len(),
                self.selected_packages == old(self).selected_packages,
                names == texts(self.selected_packages@),
                names.no_duplicates(),
                forall|j: int| 0 <= j < i ==> (#[trigger] self.selected_packages@[j])@ != package_name@,
            decreases self.selected_packages@.len() - i,
        {
            if same_text(self.selected_packages[i].as_str(), package_name) {
                proof {
                    lemma_remove_unique(names, i as int);
                    assert(names[i as int] == package_name@);
                    assert(texts(self.selected_packages@.remove(i as int)) =~= names.remove(
                        i as int,
                    ));
                }
                self.selected_packages.remove(i);
                return ;
            }
            i = i + 1;
        }
        proof {
            assert forall|j: int| 0 <= j < names.len() implies names[j] != package_name@ by {
                assert(self.selected_packages@[j]@ != package_name@);
            }
            assert(self@ =~= self@.remove(package_name@));
        }
    }

    /// Selects a name that is not selected, and the other way round.
    pub fn toggle(&mut self, package_name: String)
        requires
            old(self).wf(),
        ensures
            final(self)@ == if old(self)@.contains(package_name@) {
                old(self)@.remove(package_name@)
            } else {
                old(self)@.insert(package_name@)
            },
            final(self).wf(),
    {
        if self.is_selected(package_name.as_str()) {
            self.deselect(package_name.as_str());
        } else {
            self.select(package_name);
        }
    }

    /// The selected names, each once, in no particular order.
    pub fn get_selected(&self) -> (names: Vec<String>)
        requires
            self.wf(),
        ensures
            texts(names@).to_set() == self@,
            texts(names@).no_duplicates(),
            names@.len() == self@.len(),
    {
        let mut names: Vec<String> = Vec::new();
        let mut i: usize = 0;
        while i < self.selected_packages.len()
            invariant
                i <= self.selected_packages@.len(),
                names@ == self.selected_packages@.take(i as int),
            decreases self.selected_packages@.len() - i,
        {
            names.push(self.selected_packages[i].clone());
            assert(self.selected_packages@.take(i + 1) =~= self.selected_packages@.take(
                i as int,
            ).push(self.selected_packages@[i as int]));
            i = i + 1;
        }
        proof {
            assert(self.selected_packages@.take(self.selected_packages@.len() as int)
                =~= self.selected_packages@);
            self.lemma_finite();
        }
        names
    }

    /// Whether any name is selected.
    pub fn has_selection(&self) -> (any: bool)
        requires
            self.wf(),
        ensures
            any == (self@.len() > 0),
    {
        proof {
            self.lemma_finite();
        }
        self.selected_packages.len() > 0
    }

    /// Empties the selection.
    pub fn clear(&mut self)
        ensures
            final(self)@ == Set::<Seq<char>>::empty(),
            final(self).wf(),
    {
        self.selected_packages = Vec::new();
        assert(self@ =~= Set::<Seq<char>>::empty());
    }

    /// Replaces the selection by the given names.
    pub fn select_all(&mut self, package_names: Vec<String>)
        ensures
            final(self)@ == texts(package_names@).to_set(),
            final(self).wf(),
    {
        self.clear();
        let ghost all = package_names@;
        for name in it: package_names
            invariant
                it.seq() == all,
                self.wf(),
                self@ == texts(all.take(it.index() as int)).to_set(),
        {
            proof {
                let before = all.take(it.index() as int);
                assert(all.take(it.index() + 1) =~= before.push(name));
                lemma_texts_push(before, name);
                texts(before).lemma_push_to_set_commute(name@);
            }
            self.select(name);
        }
        assert(all.take(all.len() as int) =~= all);
    }

    /// How many names are selected.
    pub fn count(&self) -> (count: usize)
        requires
            self.wf(),
        ensures
            count == self@.len(),
    {
        proof {
            self.lemma_finite();
        }
        self.selected_packages.len()
    }
}

impl Clone for SelectionState {
    fn clone(&self) -> (copy: Self)
        ensures
            copy@ == self@,
            self.wf() ==> copy.wf(),
    {
        let mut names: Vec<String> = Vec::new();
        let mut i: usize = 0;
        while i < self.selected_packages.len()
            invariant
                i <= self.selected_packages@.len(),
                names@ == self.selected_packages@.take(i as int),
            decreases self.selected_packages@.len() - i,
        {
            names.push(self.selected_packages[i].clone());
            assert(self.selected_packages@.take(i + 1) =~= self.selected_packages@.take(
                i as int,
            ).push(self.selected_packages@[i as int]));
            i = i + 1;
        }
        assert(self.selected_packages@.take(self.selected_packages@.len() as int)
            =~= self.selected_packages@);
        SelectionState { selected_packages: names }
    }
}

impl Default for SelectionState {
    fn default() -> (state: Self)
        ensures
            state@ == Set::<Seq<char>>::empty(),
            state.wf(),
    {
        SelectionState::new()
    }
}

} // verus!
