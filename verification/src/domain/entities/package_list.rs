use crate::domain::entities::package::{clone_opt_string, opt_text, PackageType};
use vstd::prelude::*;

verus! {

/// One entry of an exported package list.
#[derive(Debug)]
pub struct PackageListItem {
    pub name: String,
    pub package_type: PackageType,
    pub version: Option<String>,
}

/// An entry with its texts as sequences of characters.
pub struct PackageListItemView {
    pub name: Seq<char>,
    pub package_type: PackageType,
    pub version: Option<Seq<char>>,
}

impl View for PackageListItem {
    type V = PackageListItemView;

    open spec fn view(&self) -> PackageListItemView {
        PackageListItemView {
            name: self.name@,
            package_type: self.package_type,
            version: opt_text(self.version),
        }
    }
}

/// The views of a list of entries.
pub open spec fn item_views(list: Seq<PackageListItem>) -> Seq<PackageListItemView> {
    Seq::new(list.len(), |i: int| list[i]@)
}

impl Clone for PackageListItem {
    fn clone(&self) -> (res: Self)
        ensures
            res == *self,
    {
        PackageListItem {
            name: self.name.clone(),
            package_type: self.package_type,
            version: clone_opt_string(&self.version),
        }
    }
}

impl PackageListItem {
    pub fn new(name: String, package_type: PackageType) -> (item: Self)
        ensures
            item == (PackageListItem { name, package_type, version: None }),
    {
        PackageListItem { name, package_type, version: None }
    }

    pub fn with_version(self, version: String) -> (item: Self)
        ensures
            item == (PackageListItem { version: Some(version), ..self }),
    {
        let mut item = self;
        item.version = Some(version);
        item
    }
}

/// The installed packages as they are exported and imported: formulae and
/// casks apart, each in the order found.
#[derive(Debug)]
pub struct PackageList {
    pub formulae: Vec<PackageListItem>,
    pub casks: Vec<PackageListItem>,
    pub export_date: Option<String>,
}

impl PackageList {
    /// An empty list without a date.
    pub fn new() -> (list: Self)
        ensures
            list.formulae@.len() == 0,
            list.casks@.len() == 0,
            list.export_date is None,
    {
        PackageList { formulae: Vec::new(), casks: Vec::new(), export_date: None }
    }

    pub fn with_export_date(self, date: String) -> (list: Self)
        ensures
            list == (PackageList { export_date: Some(date), ..self }),
    {
        let mut list = self;
        list.export_date = Some(date);
        list
    }

    /// Puts a formula at the end of the formulae.
    pub fn add_formula(&mut self, item: PackageListItem)
        ensures
            final(self).formulae@ == old(self).formulae@.push(item),
            final(self).casks == old(self).casks,
            final(self).export_date == old(self).export_date,
    {
        self.formulae.push(item);
    }

    /// Puts a cask at the end of the casks.
    pub fn add_cask(&mut self, item: PackageListItem)
        ensures
            final(self).casks@ == old(self).casks@.push(item),
            final(self).formulae == old(self).formulae,
            final(self).export_date == old(self).export_date,
    {
        self.casks.push(item);
    }

    /// How many packages the list holds, formulae and casks together.
    pub fn total_count(&self) -> (count: usize)
        requires
            self.formulae@.len() + self.casks@.len() <= usize::MAX,
        ensures
            count == self.formulae@.len() + self.casks@.len(),
    {
        self.formulae.len() + self.casks.len()
    }
}

impl Default for PackageList {
    fn default() -> (list: Self)
        ensures
            list.formulae@.len() == 0,
            list.casks@.len() == 0,
            list.export_date is None,
    {
        PackageList::new()
    }
}

} // verus!
