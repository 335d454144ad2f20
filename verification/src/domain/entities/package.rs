use vstd::prelude::*;

verus! {

/// The two families of Homebrew packages.
#[derive(Debug, Clone, Copy, PartialEq, Eq, Hash, Structural)]
pub enum PackageType {
    Formula,
    Cask,
}

impl PackageType {
    /// The name shown to the user: `"Formula"` or `"Cask"`.
    pub fn label(&self) -> (s: &'static str)
        ensures
            s@ == self.label_view(),
    {
        match self {
            PackageType::Formula => "Formula",
            PackageType::Cask => "Cask",
        }
    }

    /// The name shown to the user.
    pub open spec fn label_view(&self) -> Seq<char> {
        match self {
            PackageType::Formula => "Formula"@,
            PackageType::Cask => "Cask"@,
        }
    }
}

/// One package as the front end knows it.
#[derive(Debug)]
pub struct Package {
    pub name: String,
    pub version: Option<String>,
    pub available_version: Option<String>,
    pub description: Option<String>,
    pub package_type: PackageType,
    pub installed: bool,
    pub outdated: bool,
    pub pinned: bool,
    pub version_load_failed: bool,
}

/// A package with its texts as sequences of characters.
pub struct PackageView {
    pub name: Seq<char>,
    pub version: Option<Seq<char>>,
    pub available_version: Option<Seq<char>>,
    pub description: Option<Seq<char>>,
    pub package_type: PackageType,
    pub installed: bool,
    pub outdated: bool,
    pub pinned: bool,
    pub version_load_failed: bool,
}

/// The text of an optional string.
pub open spec fn opt_text(s: Option<String>) -> Option<Seq<char>> {
    match s {
        Some(text) => Some(text@),
        None => None,
    }
}

impl View for Package {
    type V = PackageView;

    open spec fn view(&self) -> PackageView {
        PackageView {
            name: self.name@,
            version: opt_text(self.version),
            available_version: opt_text(self.available_version),
            description: opt_text(self.description),
            package_type: self.package_type,
            installed: self.installed,
            outdated: self.outdated,
            pinned: self.pinned,
            version_load_failed: self.version_load_failed,
        }
    }
}

/// The views of a list of packages.
pub open spec fn package_views(list: Seq<Package>) -> Seq<PackageView> {
    Seq::new(list.len(), |i: int| list[i]@)
}

/// The views of a list with one more package.
pub proof fn lemma_package_views_push(list: Seq<Package>, package: Package)
    ensures
        package_views(list.push(package)) == package_views(list).push(package@),
{
    assert(package_views(list.push(package)) =~= package_views(list).push(package@));
}

/// Copies an optional string.
pub fn clone_opt_string(s: &Option<String>) -> (res: Option<String>)
    ensures
        res == *s,
{
    match s {
        Some(v) => Some(v.clone()),
        None => None,
    }
}

impl Clone for Package {
    fn clone(&self) -> (res: Self)
        ensures
            res == *self,
    {
        Package {
            name: self.name.clone(),
            version: clone_opt_string(&self.version),
            available_version: clone_opt_string(&self.available_version),
            description: clone_opt_string(&self.description),
            package_type: self.package_type,
            installed: self.installed,
            outdated: self.outdated,
            pinned: self.pinned,
            version_load_failed: self.version_load_failed,
        }
    }
}

impl Package {
    /// A package of which only the name and the family are known.
    pub fn new(name: String, package_type: PackageType) -> (p: Self)
        ensures
            p == (Package {
                name,
                version: None,
                available_version: None,
                description: None,
                package_type,
                installed: false,
                outdated: false,
                pinned: false,
                version_load_failed: false,
            }),
    {
        Package {
            name,
            version: None,
            available_version: None,
            description: None,
            package_type,
            installed: false,
            outdated: false,
            pinned: false,
            version_load_failed: false,
        }
    }

    pub fn with_version(self, version: String) -> (p: Self)
        ensures
            p == (Package { version: Some(version), ..self }),
    {
        let mut p = self;
        p.version = Some(version);
        p
    }

    pub fn with_available_version(self, version: String) -> (p: Self)
        ensures
            p == (Package { available_version: Some(version), ..self }),
    {
        let mut p = self;
        p.available_version = Some(version);
        p
    }

    pub fn with_description(self, description: String) -> (p: Self)
        ensures
            p == (Package { description: Some(description), ..self }),
    {
        let mut p = self;
        p.description = Some(description);
        p
    }

    pub fn set_installed(self, installed: bool) -> (p: Self)
        ensures
            p == (Package { installed, ..self }),
    {
        let mut p = self;
        p.installed = installed;
        p
    }

    pub fn set_outdated(self, outdated: bool) -> (p: Self)
        ensures
            p == (Package { outdated, ..self }),
    {
        let mut p = self;
        p.outdated = outdated;
        p
    }

    pub fn set_pinned(self, pinned: bool) -> (p: Self)
        ensures
            p == (Package { pinned, ..self }),
    {
        let mut p = self;
        p.pinned = pinned;
        p
    }

    pub fn set_version_load_failed(self, failed: bool) -> (p: Self)
        ensures
            p == (Package { version_load_failed: failed, ..self }),
    {
        let mut p = self;
        p.version_load_failed = failed;
        p
    }
}

/// Size of the download cache.
#[derive(Debug, Clone, Copy)]
pub struct CacheInfo {
    pub total_size: u64,
    pub package_count: usize,
}

/// One path that a cleanup would remove.
#[derive(Debug)]
pub struct CleanupItem {
    pub path: String,
    pub size: u64,
}

impl Clone for CleanupItem {
    fn clone(&self) -> (res: Self)
        ensures
            res == *self,
    {
        CleanupItem { path: self.path.clone(), size: self.size }
    }
}

/// What a cleanup would remove.
#[derive(Debug)]
pub struct CleanupPreview {
    pub items: Vec<CleanupItem>,
    pub total_size: u64,
}

impl Clone for CleanupPreview {
    fn clone(&self) -> (res: Self)
        ensures
            res.items@ == self.items@,
            res.total_size == self.total_size,
    {
        let mut items: Vec<CleanupItem> = Vec::new();
        let mut i: usize = 0;
        while i < self.items.len()
            invariant
                i <= self.items@.len(),
                items@ == self.items@.take(i as int),
            decreases self.items@.len() - i,
        {
            items.push(self.items[i].clone());
            assert(self.items@.take(i + 1) =~= self.items@.take(i as int).push(
                self.items@[i as int],
            ));
            i = i + 1;
        }
        assert(self.items@.take(self.items@.len() as int) =~= self.items@);
        CleanupPreview { items, total_size: self.total_size }
    }
}

} // verus!
