//! What the user asked for in one frame of a tab, as a list of actions in
//! the order in which the tab reports them.

use crate::domain::entities::package::{Package, PackageType};
use vstd::prelude::*;

verus! {

/// What the user asked for on the tab of installed packages.
pub enum InstalledAction {
    Refresh,
    Install(Package),
    Uninstall(Package),
    Update(Package),
    UpdateSelected(Vec<String>),
    Pin(Package),
    Unpin(Package),
    LoadInfo(String, PackageType),
}

/// What the user asked for on the search tab.
pub enum SearchAction {
    Search,
    Install(Package),
    Uninstall(Package),
    Update(Package),
    LoadInfo(String, PackageType),
    Pin(Package),
    Unpin(Package),
}

/// What the user asked for on the tab of services.
pub enum ServiceAction {
    Refresh,
    Start(String),
    Stop(String),
    Restart(String),
}

/// The clicks of one frame on a list of packages: for each button, the
/// package of the row on which it was clicked, if it was.
pub struct PackageClicks {
    pub install: Option<Package>,
    pub uninstall: Option<Package>,
    pub update: Option<Package>,
    pub update_selected: Option<Vec<String>>,
    pub pin: Option<Package>,
    pub unpin: Option<Package>,
    pub load_info: Option<Package>,
}

/// A list with one more action, if there is one.
pub open spec fn with_action<A>(list: Seq<A>, action: Option<A>) -> Seq<A> {
    match action {
        Some(more) => list.push(more),
        None => list,
    }
}

/// The request to load the details of a package.
pub open spec fn load_info_of(package: Option<Package>) -> Option<(String, PackageType)> {
    match package {
        Some(found) => Some((found.name, found.package_type)),
        None => None,
    }
}

/// The action that asks for the details of a package, on the tab of
/// installed packages.
pub open spec fn installed_load_info(package: Option<Package>) -> Option<InstalledAction> {
    match load_info_of(package) {
        Some((name, package_type)) => Some(InstalledAction::LoadInfo(name, package_type)),
        None => None,
    }
}

/// The action that asks for the details of a package, on the search tab.
pub open spec fn search_load_info(package: Option<Package>) -> Option<SearchAction> {
    match load_info_of(package) {
        Some((name, package_type)) => Some(SearchAction::LoadInfo(name, package_type)),
        None => None,
    }
}

/// An optional item, wrapped.
pub open spec fn lift<A, B>(item: Option<A>, wrap: spec_fn(A) -> B) -> Option<B> {
    match item {
        Some(found) => Some(wrap(found)),
        None => None,
    }
}

/// The actions of one frame on the tab of installed packages: a refresh
/// first, then install, uninstall, update, update of the ticked packages,
/// pin, unpin and the loading of details, each if it was asked for.
pub open spec fn installed_actions(refresh: bool, clicks: PackageClicks) -> Seq<InstalledAction> {
    let a = if refresh {
        seq![InstalledAction::Refresh]
    } else {
        Seq::empty()
    };
    let b = with_action(a, lift(clicks.install, |p: Package| InstalledAction::Install(p)));
    let c = with_action(b, lift(clicks.uninstall, |p: Package| InstalledAction::Uninstall(p)));
    let d = with_action(c, lift(clicks.update, |p: Package| InstalledAction::Update(p)));
    let e = with_action(
        d,
        lift(clicks.update_selected, |names: Vec<String>| InstalledAction::UpdateSelected(names)),
    );
    let f = with_action(e, lift(clicks.pin, |p: Package| InstalledAction::Pin(p)));
    let g = with_action(f, lift(clicks.unpin, |p: Package| InstalledAction::Unpin(p)));
    with_action(g, installed_load_info(clicks.load_info))
}

/// The actions of one frame on the search tab: a search first, then
/// install, uninstall, update, the loading of details, pin and unpin, each
/// if it was asked for. Ticked packages play no part here.
pub open spec fn search_actions(search: bool, clicks: PackageClicks) -> Seq<SearchAction> {
    let a = if search {
        seq![SearchAction::Search]
    } else {
        Seq::empty()
    };
    let b = with_action(a, lift(clicks.install, |p: Package| SearchAction::Install(p)));
    let c = with_action(b, lift(clicks.uninstall, |p: Package| SearchAction::Uninstall(p)));
    let d = with_action(c, lift(clicks.update, |p: Package| SearchAction::Update(p)));
    let e = with_action(d, search_load_info(clicks.load_info));
    let f = with_action(e, lift(clicks.pin, |p: Package| SearchAction::Pin(p)));
    with_action(f, lift(clicks.unpin, |p: Package| SearchAction::Unpin(p)))
}

/// The actions of one frame on the tab of services: a refresh first, then
/// start, stop and restart, each if it was asked for.
pub open spec fn service_actions(
    refresh: bool,
    start: Option<String>,
    stop: Option<String>,
    restart: Option<String>,
) -> Seq<ServiceAction> {
    let a = if refresh {
        seq![ServiceAction::Refresh]
    } else {
        Seq::empty()
    };
    let b = with_action(a, lift(start, |name: String| ServiceAction::Start(name)));
    let c = with_action(b, lift(stop, |name: String| ServiceAction::Stop(name)));
    with_action(c, lift(restart, |name: String| ServiceAction::Restart(name)))
}

impl PackageClicks {
    /// No click.
    pub fn new() -> (clicks: Self)
        ensures
            clicks.install is None,
            clicks.uninstall is None,
            clicks.update is None,
            clicks.update_selected is None,
            clicks.pin is None,
            clicks.unpin is None,
            clicks.load_info is None,
    {
        PackageClicks {
            install: None,
            uninstall: None,
            update: None,
            update_selected: None,
            pin: None,
            unpin: None,
            load_info: None,
        }
    }
}

pub struct InstalledTab;

impl InstalledTab {
    /// The actions of one frame.
    pub fn actions(refresh: bool, clicks: PackageClicks) -> (actions: Vec<InstalledAction>)
        ensures
            actions@ == installed_actions(refresh, clicks),
    {
        let mut actions: Vec<InstalledAction> = Vec::new();
        if refresh {
            actions.push(InstalledAction::Refresh);
        }
        assert(actions@ =~= if refresh {
            seq![InstalledAction::Refresh]
        } else {
            Seq::empty()
        });
        let PackageClicks { install, uninstall, update, update_selected, pin, unpin, load_info } =
            clicks;
        match install {
            Some(package) => {
                actions.push(InstalledAction::Install(package));
            },
            None => {},
        }
        match uninstall {
            Some(package) => {
                actions.push(InstalledAction::Uninstall(package));
            },
            None => {},
        }
        match update {
            Some(package) => {
                actions.push(InstalledAction::Update(package));
            },
            None => {},
        }
        match update_selected {
            Some(names) => {
                actions.push(InstalledAction::UpdateSelected(names));
            },
            None => {},
        }
        match pin {
            Some(package) => {
                actions.push(InstalledAction::Pin(package));
            },
            None => {},
        }
        match unpin {
            Some(package) => {
                actions.push(InstalledAction::Unpin(package));
            },
            None => {},
        }
        match load_info {
            Some(package) => {
                actions.push(InstalledAction::LoadInfo(package.name, package.package_type));
            },
            None => {},
        }
        actions
    }
}

pub struct SearchTab;

impl SearchTab {
    /// The actions of one frame.
    pub fn actions(search: bool, clicks: PackageClicks) -> (actions: Vec<SearchAction>)
        ensures
            actions@ == search_actions(search, clicks),
    {
        let mut actions: Vec<SearchAction> = Vec::new();
        if search {
            actions.push(SearchAction::Search);
        }
        assert(actions@ =~= if search {
            seq![SearchAction::Search]
        } else {
            Seq::empty()
        });
        let PackageClicks { install, uninstall, update, update_selected, pin, unpin, load_info } =
            clicks;
        match install {
            Some(package) => {
                actions.push(SearchAction::Install(package));
            },
            None => {},
        }
        match uninstall {
            Some(package) => {
                actions.push(SearchAction::Uninstall(package));
            },
            None => {},
        }
        match update {
            Some(package) => {
                actions.push(SearchAction::Update(package));
            },
            None => {},
        }
        match load_info {
            Some(package) => {
                actions.push(SearchAction::LoadInfo(package.name, package.package_type));
            },
            None => {},
        }
        match pin {
            Some(package) => {
                actions.push(SearchAction::Pin(package));
            },
            None => {},
        }
        match unpin {
            Some(package) => {
                actions.push(SearchAction::Unpin(package));
            },
            None => {},
        }
        actions
    }
}

pub struct ServicesTab;

impl ServicesTab {
    /// The actions of one frame.
    pub fn actions(
        refresh: bool,
        start: Option<String>,
        stop: Option<String>,
        restart: Option<String>,
    ) -> (actions: Vec<ServiceAction>)
        ensures
            actions@ == service_actions(refresh, start, stop, restart),
    {
        let mut actions: Vec<ServiceAction> = Vec::new();
        if refresh {
            actions.push(ServiceAction::Refresh);
        }
        assert(actions@ =~= if refresh {
            seq![ServiceAction::Refresh]
        } else {
            Seq::empty()
        });
        match start {
            Some(name) => {
                actions.push(ServiceAction::Start(name));
            },
            None => {},
        }
        match stop {
            Some(name) => {
                actions.push(ServiceAction::Stop(name));
            },
            None => {},
        }
        match restart {
            Some(name) => {
                actions.push(ServiceAction::Restart(name));
            },
            None => {},
        }
        actions
    }
}

} // verus!
