use crate::domain::entities::package::Package;
use crate::presentation::components::lookup::{
    find_package, found, lemma_found_in_both, named, position_named, put_package, replace_named,
    replaced, with_package, without,
};
use crate::presentation::components::selection_state::SelectionState;
use crate::seqs::first_where;
use crate::text::texts;
use vstd::prelude::*;

verus! {

/// A package with a new installed version: nothing newer is available.
pub open spec fn refreshed(package: Package, version: String) -> Package {
    Package { version: Some(version), available_version: None, ..package }
}

/// The installed packages after the outdated package `name` was brought to
/// `version`: where the package is listed as outdated, it is also listed as
/// installed, with the new version; in the place where it stood, or at the
/// end.
pub open spec fn installed_after_update(
    installed: Seq<Package>,
    outdated: Seq<Package>,
    name: Seq<char>,
    version: String,
) -> Seq<Package> {
    match first_where(outdated, named(name)) {
        None => installed,
        Some(at) => match first_where(installed, named(name)) {
            None => installed.push(refreshed(outdated[at], version)),
            Some(place) => installed.update(place, refreshed(installed[place], version)),
        },
    }
}

/// The names of a list of packages.
pub open spec fn names_of(list: Seq<Package>) -> Seq<Seq<char>> {
    Seq::new(list.len(), |i: int| list[i].name@)
}

/// The installed and the outdated packages as the window lists them, with
/// the outdated packages that the user has ticked.
pub struct MergedPackageList {
    packages: Vec<Package>,
    outdated_packages: Vec<Package>,
    selected_package: Option<String>,
    show_info_action: Option<Package>,
    outdated_selection: SelectionState,
}

impl MergedPackageList {
    /// The installed packages, in the order listed.
    pub closed spec fn installed(&self) -> Seq<Package> {
        self.packages@
    }

    /// The outdated packages, in the order listed.
    pub closed spec fn outdated(&self) -> Seq<Package> {
        self.outdated_packages@
    }

    /// The name of the package that is highlighted.
    pub closed spec fn highlighted(&self) -> Option<String> {
        self.selected_package
    }

    /// The package whose details the user has asked for.
    pub closed spec fn info_request(&self) -> Option<Package> {
        self.show_info_action
    }

    /// The names of the outdated packages that are ticked.
    pub closed spec fn selection(&self) -> Set<Seq<char>> {
        self.outdated_selection@
    }

    /// The selection holds no name twice.
    pub closed spec fn wf(&self) -> bool {
        self.outdated_selection.wf()
    }

    /// Everything but the two lists is as in `before`.
    pub open spec fn same_marks(&self, before: &Self) -> bool {
        &&& self.highlighted() == before.highlighted()
        &&& self.info_request() == before.info_request()
        &&& self.selection() == before.selection()
    }

    /// Everything but the selection is as in `before`.
    pub open spec fn same_lists(&self, before: &Self) -> bool {
        &&& self.installed() == before.installed()
        &&& self.outdated() == before.outdated()
        &&& self.highlighted() == before.highlighted()
        &&& self.info_request() == before.info_request()
    }

    /// Two empty lists with nothing ticked.
    pub fn new() -> (list: Self)
        ensures
            list.installed() == Seq::<Package>::empty(),
            list.outdated() == Seq::<Package>::empty(),
            list.highlighted() is None,
            list.info_request() is None,
            list.selection() == Set::<Seq<char>>::empty(),
            list.wf(),
    {
        MergedPackageList {
            packages: Vec::new(),
            outdated_packages: Vec::new(),
            selected_package: None,
            show_info_action: None,
            outdated_selection: SelectionState::new(),
        }
    }

    /// Replaces the installed packages.
    pub fn update_packages(&mut self, packages: Vec<Package>)
        ensures
            final(self).installed() == packages@,
            final(self).outdated() == old(self).outdated(),
            final(self).same_marks(old(self)),
            final(self).wf() == old(self).wf(),
    {
        self.packages = packages;
    }

    /// Replaces the outdated packages.
    pub fn update_outdated_packages(&mut self, packages: Vec<Package>)
        ensures
            final(self).outdated() == packages@,
            final(self).installed() == old(self).installed(),
            final(self).same_marks(old(self)),
            final(self).wf() == old(self).wf(),
    {
        self.outdated_packages = packages;
    }

    /// Puts `package` in the place of the first package of its name, in
    /// each of the two lists; a list that does not hold the name stays as
    /// it is.
    pub fn update_package(&mut self, package: Package)
        ensures
            final(self).installed() == replaced(old(self).installed(), package),
            final(self).outdated() == replaced(old(self).outdated(), package),
            final(self).same_marks(old(self)),
            final(self).wf() == old(self).wf(),
    {
        replace_named(&mut self.packages, package.clone());
        replace_named(&mut self.outdated_packages, package);
    }

    /// A copy of the first package that goes by a name, looking through the
    /// installed packages first and the outdated ones after them.
    pub fn get_package(&self, name: &str) -> (package: Option<Package>)
        ensures
            package == found(self.installed() + self.outdated(), name@),
    {
        proof {
            lemma_found_in_both(self.packages@, self.outdated_packages@, name@);
        }
        match find_package(&self.packages, name) {
            Some(package) => Some(package),
            None => find_package(&self.outdated_packages, name),
        }
    }

    /// Records that an outdated package was brought to `new_version`: it
    /// leaves the outdated packages and is listed as installed with that
    /// version and nothing newer available. A package that is not listed as
    /// outdated changes nothing.
    pub fn mark_package_updated(&mut self, package_name: &str, new_version: String)
        ensures
            final(self).outdated() == without(old(self).outdated(), package_name@),
            final(self).installed() == installed_after_update(
                old(self).installed(),
                old(self).outdated(),
                package_name@,
                new_version,
            ),
            final(self).same_marks(old(self)),
            final(self).wf() == old(self).wf(),
    {
        let at = match position_named(&self.outdated_packages, package_name) {
            Some(at) => at,
            None => {
                return ;
            },
        };
        let mut package = self.outdated_packages.remove(at);
        match position_named(&self.packages, package_name) {
            None => {
                package.version = Some(new_version);
                package.available_version = None;
                self.packages.push(package);
            },
            Some(place) => {
                let mut existing = self.packages[place].clone();
                existing.version = Some(new_version);
                existing.available_version = None;
                self.packages.set(place, existing);
            },
        }
    }

    /// Unticks an outdated package.
    pub fn remove_from_outdated_selection_by_name(&mut self, package_name: &str)
        requires
            old(self).wf(),
        ensures
            final(self).selection() == old(self).selection().remove(package_name@),
            final(self).same_lists(old(self)),
            final(self).wf(),
    {
        self.outdated_selection.deselect(package_name);
    }

    /// Takes the first package that goes by a name out of the installed
    /// packages.
    pub fn remove_installed_package(&mut self, package_name: &str)
        ensures
            final(self).installed() == without(old(self).installed(), package_name@),
            final(self).outdated() == old(self).outdated(),
            final(self).same_marks(old(self)),
            final(self).wf() == old(self).wf(),
    {
        match position_named(&self.packages, package_name) {
            Some(at) => {
                self.packages.remove(at);
            },
            None => {},
        }
    }

    /// Lists a package as installed: in the place of the first installed
    /// package of its name, or at the end.
    pub fn add_installed_package(&mut self, package: Package)
        ensures
            final(self).installed() == with_package(old(self).installed(), package),
            final(self).outdated() == old(self).outdated(),
            final(self).same_marks(old(self)),
            final(self).wf() == old(self).wf(),
    {
        put_package(&mut self.packages, package);
    }

    /// Takes the request for details, if there is one.
    pub fn get_show_info_action(&mut self) -> (request: Option<Package>)
        ensures
            request == old(self).info_request(),
            final(self).info_request() is None,
            final(self).installed() == old(self).installed(),
            final(self).outdated() == old(self).outdated(),
            final(self).highlighted() == old(self).highlighted(),
            final(self).selection() == old(self).selection(),
            final(self).wf() == old(self).wf(),
    {
        self.show_info_action.take()
    }

    /// A copy of the selection of outdated packages.
    pub fn get_outdated_selection(&self) -> (selection: SelectionState)
        ensures
            selection@ == self.selection(),
            self.wf() ==> selection.wf(),
    {
        self.outdated_selection.clone()
    }

    /// Replaces the selection of outdated packages.
    pub fn set_outdated_selection(&mut self, selection: SelectionState)
        ensures
            final(self).selection() == selection@,
            final(self).same_lists(old(self)),
            final(self).wf() == selection.wf(),
    {
        self.outdated_selection = selection;
    }

    /// Unticks every outdated package.
    pub fn clear_outdated_selection(&mut self)
        ensures
            final(self).selection() == Set::<Seq<char>>::empty(),
            final(self).same_lists(old(self)),
            final(self).wf(),
    {
        self.outdated_selection.clear();
    }

    /// Ticks every outdated package that is listed.
    pub fn select_all_outdated(&mut self)
        requires
            old(self).wf(),
        ensures
            final(self).selection() == old(self).selection().union(
                names_of(old(self).outdated()).to_set(),
            ),
            final(self).same_lists(old(self)),
            final(self).wf(),
    {
        let mut i: usize = 0;
        assert(names_of(self.outdated_packages@.take(0)).to_set() =~= Set::empty());
        assert(self.selection() =~= self.selection().union(Set::empty()));
        while i < self.outdated_packages.len()
            invariant
                i <= self.outdated_packages@.len(),
                self.same_lists(old(self)),
                self.wf(),
                self.selection() == old(self).selection().union(
                    names_of(self.outdated_packages@.take(i as int)).to_set(),
                ),
            decreases self.outdated_packages@.len() - i,
        {
            let name = self.outdated_packages[i].name.clone();
            proof {
                let before = self.outdated_packages@.take(i as int);
                assert(names_of(self.outdated_packages@.take(i + 1)) =~= names_of(before).push(
                    name@,
                ));
                names_of(before).lemma_push_to_set_commute(name@);
                assert(old(self).selection().union(names_of(before).to_set()).insert(name@)
                    =~= old(self).selection().union(names_of(before).to_set().insert(name@)));
            }
            self.outdated_selection.select(name);
            i = i + 1;
        }
        assert(self.outdated_packages@.take(self.outdated_packages@.len() as int)
            =~= self.outdated_packages@);
    }

    /// Unticks every outdated package.
    pub fn deselect_all_outdated(&mut self)
        ensures
            final(self).selection() == Set::<Seq<char>>::empty(),
            final(self).same_lists(old(self)),
            final(self).wf(),
    {
        self.outdated_selection.clear();
    }

    /// Whether any outdated package is ticked.
    pub fn has_selected_outdated(&self) -> (any: bool)
        requires
            self.wf(),
        ensures
            any == (self.selection().len() > 0),
    {
        self.outdated_selection.has_selection()
    }

    /// The names of the outdated packages that are ticked, each once, in
    /// no particular order.
    pub fn get_selected_outdated(&self) -> (names: Vec<String>)
        requires
            self.wf(),
        ensures
            texts(names@).to_set() == self.selection(),
            texts(names@).no_duplicates(),
    {
        self.outdated_selection.get_selected()
    }

    /// Ticks or unticks an outdated package.
    pub fn set_outdated_selected(&mut self, package_name: String, selected: bool)
        requires
            old(self).wf(),
        ensures
            final(self).selection() == if selected {
                old(self).selection().insert(package_name@)
            } else {
                old(self).selection().remove(package_name@)
            },
            final(self).same_lists(old(self)),
            final(self).wf(),
    {
        if selected {
            self.outdated_selection.select(package_name);
        } else {
            self.outdated_selection.deselect(package_name.as_str());
        }
    }

    /// Whether an outdated package is ticked.
    pub fn is_outdated_selected(&self, package_name: &str) -> (selected: bool)
        ensures
            selected == self.selection().contains(package_name@),
    {
        self.outdated_selection.is_selected(package_name)
    }

    /// Records that the user asked for the details of a package.
    pub fn request_info(&mut self, package: Package)
        ensures
            final(self).info_request() == Some(package),
            final(self).installed() == old(self).installed(),
            final(self).outdated() == old(self).outdated(),
            final(self).highlighted() == old(self).highlighted(),
            final(self).selection() == old(self).selection(),
            final(self).wf() == old(self).wf(),
    {
        self.show_info_action = Some(package);
    }

    /// Highlights the package of the given name.
    pub fn highlight(&mut self, name: String)
        ensures
            final(self).highlighted() == Some(name),
            final(self).installed() == old(self).installed(),
            final(self).outdated() == old(self).outdated(),
            final(self).info_request() == old(self).info_request(),
            final(self).selection() == old(self).selection(),
            final(self).wf() == old(self).wf(),
    {
        self.selected_package = Some(name);
    }

    pub fn packages(&self) -> (packages: &Vec<Package>)
        ensures
            packages@ == self.installed(),
    {
        &self.packages
    }

    pub fn outdated_packages(&self) -> (packages: &Vec<Package>)
        ensures
            packages@ == self.outdated(),
    {
        &self.outdated_packages
    }

    pub fn selected_package(&self) -> (name: &Option<String>)
        ensures
            *name == self.highlighted(),
    {
        &self.selected_package
    }
}

} // verus!
