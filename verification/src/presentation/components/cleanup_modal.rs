use crate::domain::entities::package::CleanupPreview;
use vstd::prelude::*;

verus! {

/// What a cleanup removes.
#[derive(Debug, Clone, Copy, PartialEq, Eq, Structural)]
pub enum CleanupType {
    Cache,
    OldVersions,
}

/// What the user chose in the cleanup dialog.
pub enum CleanupAction {
    Confirm(CleanupType),
    Cancel,
}

/// The dialog that shows what a cleanup would remove. It is open exactly
/// while it holds a preview.
pub struct CleanupModal {
    show: bool,
    cleanup_type: Option<CleanupType>,
    preview: Option<CleanupPreview>,
}

impl CleanupModal {
    pub closed spec fn shown(&self) -> bool {
        self.show
    }

    pub closed spec fn kind(&self) -> Option<CleanupType> {
        self.cleanup_type
    }

    pub closed spec fn content(&self) -> Option<CleanupPreview> {
        self.preview
    }

    /// A closed dialog.
    pub fn new() -> (modal: Self)
        ensures
            !modal.shown(),
            modal.kind() is None,
            modal.content() is None,
    {
        CleanupModal { show: false, cleanup_type: None, preview: None }
    }

    /// Opens the dialog on a preview.
    pub fn show_preview(&mut self, cleanup_type: CleanupType, preview: CleanupPreview)
        ensures
            final(self).shown(),
            final(self).kind() == Some(cleanup_type),
            final(self).content() == Some(preview),
    {
        self.cleanup_type = Some(cleanup_type);
        self.preview = Some(preview);
        self.show = true;
    }

    /// Closes the dialog and forgets the preview.
    pub fn close(&mut self)
        ensures
            !final(self).shown(),
            final(self).kind() is None,
            final(self).content() is None,
    {
        self.show = false;
        self.cleanup_type = None;
        self.preview = None;
    }

    pub fn is_open(&self) -> (open: bool)
        ensures
            open == self.shown(),
    {
        self.show
    }

    pub fn cleanup_type(&self) -> (kind: Option<CleanupType>)
        ensures
            kind == self.kind(),
    {
        self.cleanup_type
    }

    pub fn preview(&self) -> (preview: &Option<CleanupPreview>)
        ensures
            *preview == self.content(),
    {
        &self.preview
    }

    /// What a click means while the dialog is open: confirming names the
    /// cleanup that the preview is for; cancelling cancels. A closed dialog
    /// takes no click.
    pub fn action(&self, confirmed: bool) -> (action: Option<CleanupAction>)
        ensures
            !self.shown() ==> action is None,
            self.shown() && !confirmed ==> action matches Some(CleanupAction::Cancel),
            self.shown() && confirmed ==> match self.kind() {
                Some(kind) => action matches Some(CleanupAction::Confirm(chosen)) && chosen == kind,
                None => action is None,
            },
    {
        if !self.show {
            return None;
        }
        if !confirmed {
            return Some(CleanupAction::Cancel);
        }
        match self.cleanup_type {
            Some(kind) => Some(CleanupAction::Confirm(kind)),
            None => None,
        }
    }
}

impl Default for CleanupModal {
    fn default() -> (modal: Self)
        ensures
            !modal.shown(),
            modal.kind() is None,
            modal.content() is None,
    {
        CleanupModal::new()
    }
}

} // verus!
