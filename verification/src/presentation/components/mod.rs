pub mod cleanup_modal;
pub mod filter_state;
pub mod info_modal;
pub mod log_manager;
pub mod lookup;
pub mod merged_package_list;
pub mod package_list;
pub mod package_row;
pub mod password_modal;
pub mod selection_state;
pub mod service_list;
pub mod tab_manager;

pub use cleanup_modal::{CleanupAction, CleanupModal, CleanupType};
pub use filter_state::FilterState;
pub use info_modal::InfoModal;
pub use log_manager::{LogEntry, LogLevel, LogManager};
pub use merged_package_list::MergedPackageList;
pub use package_list::PackageList;
pub use password_modal::PasswordModal;
pub use selection_state::SelectionState;
pub use service_list::ServiceList;
pub use tab_manager::{Tab, TabManager, TabState};
