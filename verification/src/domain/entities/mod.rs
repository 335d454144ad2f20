pub mod config;
pub mod package;
pub mod package_list;
pub mod service;

pub use config::{AppConfig, ThemeMode};
pub use package::{CacheInfo, CleanupItem, CleanupPreview, Package, PackageType};
pub use package_list::{PackageList, PackageListItem};
pub use service::{Service, ServiceStatus};
