//! What a row of a package list shows: whether the package is listed at
//! all, its version column, its status and the buttons it offers.

use crate::domain::entities::package::{opt_text, Package, PackageType};
use crate::text::{contains, has_part, join, lowercased, to_lowercase};
use vstd::prelude::*;

verus! {

/// What the status column says of a package.
#[derive(Debug, Clone, Copy, PartialEq, Eq, Structural)]
pub enum PackageStatus {
    Pinned,
    Outdated,
    Installed,
    Available,
}

/// Whether the family of a package is switched on.
pub open spec fn family_shown(package: Package, show_formulae: bool, show_casks: bool) -> bool {
    match package.package_type {
        PackageType::Formula => show_formulae,
        PackageType::Cask => show_casks,
    }
}

/// Whether a row is listed, where `lower_name` is the package's name in
/// lower case and `lower_query` the search text in lower case: the family
/// is switched on, and the name holds the search text if there is one.
pub open spec fn row_listed(
    package: Package,
    show_formulae: bool,
    show_casks: bool,
    lower_name: Seq<char>,
    lower_query: Seq<char>,
) -> bool {
    family_shown(package, show_formulae, show_casks) && (lower_query.len() == 0 || has_part(
        lower_name,
        lower_query,
    ))
}

/// A version, or `N/A` where there is none.
pub open spec fn version_or_na(version: Option<Seq<char>>) -> Seq<char> {
    match version {
        Some(text) => text,
        None => "N/A"@,
    }
}

/// The version column of a search result: `Failed` where the lookup
/// failed; `<version> -> <available>` for an outdated package of which a
/// newer version is known; else the version.
pub open spec fn version_column(package: Package) -> Seq<char> {
    if package.version_load_failed {
        "Failed"@
    } else if package.outdated && package.available_version is Some {
        version_or_na(opt_text(package.version)) + " -> "@ + package.available_version->0@
    } else {
        version_or_na(opt_text(package.version))
    }
}

/// The version column of an outdated package: as that of a search result,
/// but the newer version is shown whenever it is known.
pub open spec fn outdated_version_column(package: Package) -> Seq<char> {
    if package.version_load_failed {
        "Failed"@
    } else if package.available_version is Some {
        version_or_na(opt_text(package.version)) + " -> "@ + package.available_version->0@
    } else {
        version_or_na(opt_text(package.version))
    }
}

/// The status of a search result: pinned goes before outdated, outdated
/// before installed.
pub open spec fn status_of(package: Package) -> PackageStatus {
    if package.pinned {
        PackageStatus::Pinned
    } else if package.outdated {
        PackageStatus::Outdated
    } else if package.installed {
        PackageStatus::Installed
    } else {
        PackageStatus::Available
    }
}

/// Whether a row is listed, given the name and the query in lower case.
pub fn is_listed(
    package: &Package,
    show_formulae: bool,
    show_casks: bool,
    lower_name: &str,
    lower_query: &str,
) -> (listed: bool)
    ensures
        listed == row_listed(*package, show_formulae, show_casks, lower_name@, lower_query@),
{
    let shown = match package.package_type {
        PackageType::Formula => show_formulae,
        PackageType::Cask => show_casks,
    };
    shown && (lower_query.is_empty() || contains(lower_name, lower_query))
}

/// Whether a row is listed for a search text, whatever the case of either.
pub fn should_show(package: &Package, show_formulae: bool, show_casks: bool, search_query: &str) -> (listed:
    bool)
    ensures
        listed == row_listed(
            *package,
            show_formulae,
            show_casks,
            lowercased(package.name@),
            lowercased(search_query@),
        ),
{
    let lower_query = to_lowercase(search_query);
    let lower_name = to_lowercase(package.name.as_str());
    is_listed(package, show_formulae, show_casks, lower_name.as_str(), lower_query.as_str())
}

/// A version as a row shows it: the version, or `N/A` where there is none.
pub fn version_text_or_na(version: &Option<String>) -> (text: String)
    ensures
        text@ == version_or_na(opt_text(*version)),
{
    match version {
        Some(found) => found.clone(),
        None => "N/A".to_owned(),
    }
}

fn arrow(version: &Option<String>, available: &str) -> (text: String)
    ensures
        text@ == version_or_na(opt_text(*version)) + " -> "@ + available@,
{
    let from = version_text_or_na(version);
    let head = join(from.as_str(), " -> ");
    join(head.as_str(), available)
}

/// The version column of a search result.
pub fn version_text(package: &Package) -> (text: String)
    ensures
        text@ == version_column(*package),
{
    if package.version_load_failed {
        return "Failed".to_owned();
    }
    if package.outdated {
        match &package.available_version {
            Some(available) => {
                return arrow(&package.version, available.as_str());
            },
            None => {},
        }
    }
    version_text_or_na(&package.version)
}

/// The version column of an outdated package.
pub fn outdated_version_text(package: &Package) -> (text: String)
    ensures
        text@ == outdated_version_column(*package),
{
    if package.version_load_failed {
        return "Failed".to_owned();
    }
    match &package.available_version {
        Some(available) => arrow(&package.version, available.as_str()),
        None => version_text_or_na(&package.version),
    }
}

/// The status of a search result.
pub fn status(package: &Package) -> (status: PackageStatus)
    ensures
        status == status_of(*package),
{
    if package.pinned {
        PackageStatus::Pinned
    } else if package.outdated {
        PackageStatus::Outdated
    } else if package.installed {
        PackageStatus::Installed
    } else {
        PackageStatus::Available
    }
}

/// Whether a search result offers to load its details: nothing is known
/// of its version, no lookup has failed, and none is going on.
pub fn offers_load_info(package: &Package, loading: bool) -> (offered: bool)
    ensures
        offered == (package.version is None && !package.version_load_failed && !loading),
{
    package.version.is_none() && !package.version_load_failed && !loading
}

/// Whether an installed package offers to be updated: it is outdated and
/// not pinned.
pub fn offers_update(package: &Package) -> (offered: bool)
    ensures
        offered == (package.installed && package.outdated && !package.pinned),
{
    package.installed && package.outdated && !package.pinned
}

/// Whether a package offers to be pinned or unpinned: only installed
/// formulae do.
pub fn offers_pin(package: &Package) -> (offered: bool)
    ensures
        offered == (package.installed && package.package_type == PackageType::Formula),
{
    package.installed && match package.package_type {
        PackageType::Formula => true,
        PackageType::Cask => false,
    }
}

} // verus!
