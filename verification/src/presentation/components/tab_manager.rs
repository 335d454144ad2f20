use vstd::prelude::*;

verus! {

/// The tabs of the window.
#[derive(Debug, Clone, Copy, PartialEq, Eq, Hash, Structural)]
pub enum Tab {
    Installed,
    SearchInstall,
    Services,
    Settings,
    Log,
}

/// What is known of one tab.
pub struct TabState {
    pub loaded: bool,
}

impl TabState {
    pub fn new() -> (state: Self)
        ensures
            !state.loaded,
    {
        TabState { loaded: false }
    }
}

/// Which tab is shown, and which tabs have their data.
pub struct TabManager {
    current_tab: Tab,
    installed: TabState,
    search_install: TabState,
    services: TabState,
    settings: TabState,
    log: TabState,
}

impl TabManager {
    /// The tab that is shown.
    pub closed spec fn current_tab(&self) -> Tab {
        self.current_tab
    }

    /// Whether a tab has its data.
    pub closed spec fn loaded(&self, tab: Tab) -> bool {
        match tab {
            Tab::Installed => self.installed.loaded,
            Tab::SearchInstall => self.search_install.loaded,
            Tab::Services => self.services.loaded,
            Tab::Settings => self.settings.loaded,
            Tab::Log => self.log.loaded,
        }
    }

    /// The installed packages shown, and no tab loaded.
    pub fn new() -> (manager: Self)
        ensures
            manager.current_tab() == Tab::Installed,
            forall|tab: Tab| !manager.loaded(tab),
    {
        TabManager {
            current_tab: Tab::Installed,
            installed: TabState::new(),
            search_install: TabState::new(),
            services: TabState::new(),
            settings: TabState::new(),
            log: TabState::new(),
        }
    }

    pub fn switch_to(&mut self, tab: Tab)
        ensures
            final(self).current_tab() == tab,
            forall|other: Tab| final(self).loaded(other) == old(self).loaded(other),
    {
        self.current_tab = tab;
    }

    pub fn current(&self) -> (tab: Tab)
        ensures
            tab == self.current_tab(),
    {
        self.current_tab
    }

    pub fn is_current(&self, tab: Tab) -> (shown: bool)
        ensures
            shown == (self.current_tab() == tab),
    {
        self.current_tab == tab
    }

    pub fn is_loaded(&self, tab: Tab) -> (loaded: bool)
        ensures
            loaded == self.loaded(tab),
    {
        match tab {
            Tab::Installed => self.installed.loaded,
            Tab::SearchInstall => self.search_install.loaded,
            Tab::Services => self.services.loaded,
            Tab::Settings => self.settings.loaded,
            Tab::Log => self.log.loaded,
        }
    }

    fn set_loaded(&mut self, tab: Tab, loaded: bool)
        ensures
            final(self).current_tab() == old(self).current_tab(),
            final(self).loaded(tab) == loaded,
            forall|other: Tab| other != tab ==> final(self).loaded(other) == old(self).loaded(other),
    {
        match tab {
            Tab::Installed => {
                self.installed.loaded = loaded;
            },
            Tab::SearchInstall => {
                self.search_install.loaded = loaded;
            },
            Tab::Services => {
                self.services.loaded = loaded;
            },
            Tab::Settings => {
                self.settings.loaded = loaded;
            },
            Tab::Log => {
                self.log.loaded = loaded;
            },
        }
    }

    /// Records that a tab has its data.
    pub fn mark_loaded(&mut self, tab: Tab)
        ensures
            final(self).current_tab() == old(self).current_tab(),
            final(self).loaded(tab),
            forall|other: Tab| other != tab ==> final(self).loaded(other) == old(self).loaded(other),
    {
        self.set_loaded(tab, true);
    }

    /// Records that a tab has to load its data again.
    pub fn mark_unloaded(&mut self, tab: Tab)
        ensures
            final(self).current_tab() == old(self).current_tab(),
            !final(self).loaded(tab),
            forall|other: Tab| other != tab ==> final(self).loaded(other) == old(self).loaded(other),
    {
        self.set_loaded(tab, false);
    }
}

} // verus!
