pub mod command;
pub mod json;
pub mod package_list_repository;
pub mod repository;
pub mod service_repository;

pub use command::{BrewCommand, BrewError, BrewOutput};
pub use package_list_repository::BrewPackageListRepository;
pub use repository::BrewPackageRepository;
pub use service_repository::BrewServiceRepository;
