use crate::domain::entities::package::Package;
use crate::presentation::components::lookup::{find_package, found, replace_named, replaced};
use vstd::prelude::*;

verus! {

/// The packages that a search found, as the window lists them.
pub struct PackageList {
    packages: Vec<Package>,
    selected_package: Option<String>,
    show_info_action: Option<Package>,
}

impl PackageList {
    /// The packages, in the order listed.
    pub closed spec fn listed(&self) -> Seq<Package> {
        self.packages@
    }

    /// The name of the package that is highlighted.
    pub closed spec fn highlighted(&self) -> Option<String> {
        self.selected_package
    }

    /// The package whose details the user has asked for.
    pub closed spec fn info_request(&self) -> Option<Package> {
        self.show_info_action
    }

    /// An empty list.
    pub fn new() -> (list: Self)
        ensures
            list.listed() == Seq::<Package>::empty(),
            list.highlighted() is None,
            list.info_request() is None,
    {
        PackageList { packages: Vec::new(), selected_package: None, show_info_action: None }
    }

    /// Replaces the packages.
    pub fn update_packages(&mut self, packages: Vec<Package>)
        ensures
            final(self).listed() == packages@,
            final(self).highlighted() == old(self).highlighted(),
            final(self).info_request() == old(self).info_request(),
    {
        self.packages = packages;
    }

    /// Puts `package` in the place of the first package of its name; a
    /// package that is not listed is not added.
    pub fn update_package(&mut self, package: Package)
        ensures
            final(self).listed() == replaced(old(self).listed(), package),
            final(self).highlighted() == old(self).highlighted(),
            final(self).info_request() == old(self).info_request(),
    {
        replace_named(&mut self.packages, package);
    }

    /// A copy of the first package that goes by a name.
    pub fn get_package(&self, name: &str) -> (package: Option<Package>)
        ensures
            package == found(self.listed(), name@),
    {
        find_package(&self.packages, name)
    }

    /// Takes the request for details, if there is one.
    pub fn get_show_info_action(&mut self) -> (request: Option<Package>)
        ensures
            request == old(self).info_request(),
            final(self).info_request() is None,
            final(self).listed() == old(self).listed(),
            final(self).highlighted() == old(self).highlighted(),
    {
        self.show_info_action.take()
    }

    /// Records that the user asked for the details of a package.
    pub fn request_info(&mut self, package: Package)
        ensures
            final(self).info_request() == Some(package),
            final(self).listed() == old(self).listed(),
            final(self).highlighted() == old(self).highlighted(),
    {
        self.show_info_action = Some(package);
    }

    /// Highlights the package of the given name.
    pub fn highlight(&mut self, name: String)
        ensures
            final(self).highlighted() == Some(name),
            final(self).listed() == old(self).listed(),
            final(self).info_request() == old(self).info_request(),
    {
        self.selected_package = Some(name);
    }

    pub fn packages(&self) -> (packages: &Vec<Package>)
        ensures
            packages@ == self.listed(),
    {
        &self.packages
    }

    pub fn selected_package(&self) -> (name: &Option<String>)
        ensures
            *name == self.highlighted(),
    {
        &self.selected_package
    }
}

} // verus!
