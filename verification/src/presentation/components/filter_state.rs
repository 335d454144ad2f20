use vstd::prelude::*;

verus! {

/// Which packages the lists show: the families that are switched on, and
/// the two search texts.
pub struct FilterState {
    show_formulae: bool,
    show_casks: bool,
    search_query: String,
    installed_search_query: String,
}

pub struct FilterStateView {
    pub show_formulae: bool,
    pub show_casks: bool,
    pub search_query: Seq<char>,
    pub installed_search_query: Seq<char>,
}

impl View for FilterState {
    type V = FilterStateView;

    closed spec fn view(&self) -> FilterStateView {
        FilterStateView {
            show_formulae: self.show_formulae,
            show_casks: self.show_casks,
            search_query: self.search_query@,
            installed_search_query: self.installed_search_query@,
        }
    }
}

impl FilterState {
    /// Both families shown, both searches empty.
    pub fn new() -> (state: Self)
        ensures
            state@ == (FilterStateView {
                show_formulae: true,
                show_casks: true,
                search_query: Seq::empty(),
                installed_search_query: Seq::empty(),
            }),
    {
        FilterState {
            show_formulae: true,
            show_casks: true,
            search_query: String::new(),
            installed_search_query: String::new(),
        }
    }

    pub fn show_formulae(&self) -> (shown: bool)
        ensures
            shown == self@.show_formulae,
    {
        self.show_formulae
    }

    pub fn set_show_formulae(&mut self, value: bool)
        ensures
            final(self)@ == (FilterStateView { show_formulae: value, ..old(self)@ }),
    {
        self.show_formulae = value;
    }

    pub fn show_casks(&self) -> (shown: bool)
        ensures
            shown == self@.show_casks,
    {
        self.show_casks
    }

    pub fn set_show_casks(&mut self, value: bool)
        ensures
            final(self)@ == (FilterStateView { show_casks: value, ..old(self)@ }),
    {
        self.show_casks = value;
    }

    pub fn search_query(&self) -> (query: &str)
        ensures
            query@ == self@.search_query,
    {
        self.search_query.as_str()
    }

    /// The search text, for the caller to edit in place.
    pub fn search_query_mut(&mut self) -> (query: &mut String)
        ensures
            query@ == old(self)@.search_query,
            final(self)@ == (FilterStateView { search_query: final(query)@, ..old(self)@ }),
    {
        &mut self.search_query
    }

    pub fn installed_search_query(&self) -> (query: &str)
        ensures
            query@ == self@.installed_search_query,
    {
        self.installed_search_query.as_str()
    }

    /// The search text of the installed list, for the caller to edit in
    /// place.
    pub fn installed_search_query_mut(&mut self) -> (query: &mut String)
        ensures
            query@ == old(self)@.installed_search_query,
            final(self)@ == (FilterStateView {
                installed_search_query: final(query)@,
                ..old(self)@
            }),
    {
        &mut self.installed_search_query
    }
}

impl Default for FilterState {
    fn default() -> (state: Self)
        ensures
            state@ == (FilterStateView {
                show_formulae: true,
                show_casks: true,
                search_query: Seq::empty(),
                installed_search_query: Seq::empty(),
            }),
    {
        FilterState::new()
    }
}

} // verus!
