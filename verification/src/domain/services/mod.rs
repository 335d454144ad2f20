pub mod validation;

pub use validation::PackageValidator;
