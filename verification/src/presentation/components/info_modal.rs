use crate::domain::entities::package::Package;
use vstd::prelude::*;

verus! {

/// The dialog that shows what is known of one package.
pub struct InfoModal {
    show: bool,
    package: Option<Package>,
}

impl InfoModal {
    pub closed spec fn shown(&self) -> bool {
        self.show
    }

    pub closed spec fn content(&self) -> Option<Package> {
        self.package
    }

    /// A closed dialog.
    pub fn new() -> (modal: Self)
        ensures
            !modal.shown(),
            modal.content() is None,
    {
        InfoModal { show: false, package: None }
    }

    /// Opens the dialog on a package.
    pub fn show(&mut self, package: Package)
        ensures
            final(self).shown(),
            final(self).content() == Some(package),
    {
        self.package = Some(package);
        self.show = true;
    }

    /// Closes the dialog and forgets the package.
    pub fn close(&mut self)
        ensures
            !final(self).shown(),
            final(self).content() is None,
    {
        self.show = false;
        self.package = None;
    }

    pub fn is_open(&self) -> (open: bool)
        ensures
            open == self.shown(),
    {
        self.show
    }

    pub fn package(&self) -> (package: &Option<Package>)
        ensures
            *package == self.content(),
    {
        &self.package
    }
}

impl Default for InfoModal {
    fn default() -> (modal: Self)
        ensures
            !modal.shown(),
            modal.content() is None,
    {
        InfoModal::new()
    }
}

} // verus!
