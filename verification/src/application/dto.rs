use crate::domain::entities::package::Package;
use vstd::prelude::*;

verus! {

/// A package as it leaves the application layer: the family by its name.
#[derive(Debug)]
pub struct PackageDto {
    pub name: String,
    pub version: Option<String>,
    pub description: Option<String>,
    pub package_type: String,
    pub installed: bool,
    pub outdated: bool,
}

impl PackageDto {
    /// The package's data, with the family written out.
    pub fn from_package(package: Package) -> (dto: Self)
        ensures
            dto.name == package.name,
            dto.version == package.version,
            dto.description == package.description,
            dto.package_type@ == package.package_type.label_view(),
            dto.installed == package.installed,
            dto.outdated == package.outdated,
    {
        let label = package.package_type.label().to_owned();
        PackageDto {
            name: package.name,
            version: package.version,
            description: package.description,
            package_type: label,
            installed: package.installed,
            outdated: package.outdated,
        }
    }
}

impl vstd::std_specs::convert::FromSpecImpl<Package> for PackageDto {
    /// The conversion is stated by the `ensures` of `from`, over the texts
    /// of the fields: no spec function gives the new string itself.
    open spec fn obeys_from_spec() -> bool {
        false
    }

    open spec fn from_spec(package: Package) -> Self {
        arbitrary()
    }
}

impl From<Package> for PackageDto {
    fn from(package: Package) -> (dto: Self)
        ensures
            dto.name == package.name,
            dto.version == package.version,
            dto.description == package.description,
            dto.package_type@ == package.package_type.label_view(),
            dto.installed == package.installed,
            dto.outdated == package.outdated,
    {
        PackageDto::from_package(package)
    }
}

/// Size of the download cache, as it leaves the application layer.
#[derive(Debug, Clone, Copy)]
pub struct CacheInfoDto {
    pub total_size: u64,
    pub package_count: usize,
}

} // verus!
