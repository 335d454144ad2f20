use vstd::prelude::*;

verus! {

/// Which colours the window uses.
#[derive(Debug, Clone, Copy, PartialEq, Eq, Structural)]
pub enum ThemeMode {
    System,
    Light,
    Dark,
}

/// The user's settings.
#[derive(Debug, Clone, Copy)]
pub struct AppConfig {
    pub theme: ThemeMode,
    pub auto_update_check: bool,
    pub confirm_before_actions: bool,
}

impl Default for AppConfig {
    /// The settings of a first start: the system's theme, with update
    /// checks and confirmations on.
    fn default() -> (config: Self)
        ensures
            config == (AppConfig {
                theme: ThemeMode::System,
                auto_update_check: true,
                confirm_before_actions: true,
            }),
    {
        AppConfig { theme: ThemeMode::System, auto_update_check: true, confirm_before_actions: true }
    }
}

} // verus!
