//! What `brew` prints about packages, read into packages.

use crate::domain::entities::package::{
    lemma_package_views_push, opt_text, package_views, Package, PackageType, PackageView,
};
use crate::infrastructure::brew::command::BrewError;
use crate::infrastructure::brew::json::{
    json_as_array, json_error_text, json_get, json_items, json_member, json_parse, json_parsed,
    json_text, member_first, member_first_item, member_text, member_text_of, text_of,
};
use crate::seqs::{collect_all, collect_some};
use crate::text::{
    begins_with, holds_text, lemma_texts_push, lines, same_text, split_lines, split_words,
    starts_with, texts, trim, trimmed, words,
};
use serde_json::Value;
use vstd::prelude::*;

verus! {

pub struct BrewPackageRepository;

/// What a line of `brew list --pinned` names: a line that holds a character
/// names a package, by its text without the whitespace at its ends.
pub open spec fn pinned_reader() -> spec_fn(Seq<char>) -> Option<Seq<char>> {
    |line: Seq<char>|
        if line.len() > 0 {
            Some(trimmed(line))
        } else {
            None
        }
}

/// The package that a line of `brew list --versions` stands for: its first
/// word is the name and its second the version; a line of fewer words
/// stands for none.
pub open spec fn installed_entry(
    line: Seq<char>,
    package_type: PackageType,
    pinned: Seq<Seq<char>>,
) -> Option<PackageView> {
    let parts = words(line);
    if parts.len() >= 2 {
        Some(
            PackageView {
                name: parts[0],
                version: Some(parts[1]),
                available_version: None,
                description: None,
                package_type,
                installed: true,
                outdated: false,
                pinned: pinned.contains(parts[0]),
                version_load_failed: false,
            },
        )
    } else {
        None
    }
}

/// What a line of `brew list --versions` stands for, for a family and a list
/// of pinned names.
pub open spec fn installed_reader(package_type: PackageType, pinned: Seq<Seq<char>>) -> spec_fn(
    Seq<char>,
) -> Option<PackageView> {
    |line: Seq<char>| installed_entry(line, package_type, pinned)
}

/// The package that a line of `brew search` stands for: a line that holds a
/// character names a package of which nothing else is known.
pub open spec fn found_reader(package_type: PackageType) -> spec_fn(Seq<char>) -> Option<
    PackageView,
> {
    |line: Seq<char>|
        if line.len() > 0 {
            Some(
                PackageView {
                    name: trimmed(line),
                    version: None,
                    available_version: None,
                    description: None,
                    package_type,
                    installed: false,
                    outdated: false,
                    pinned: false,
                    version_load_failed: false,
                },
            )
        } else {
            None
        }
}

/// The member of `brew`'s JSON that lists the packages of a family.
pub open spec fn items_key(package_type: PackageType) -> Seq<char> {
    match package_type {
        PackageType::Formula => "formulae"@,
        PackageType::Cask => "casks"@,
    }
}

/// The installed version that an item of `brew`'s JSON gives, read the way
/// `version_key` says: under `"installed"` the first element is an object
/// with a `"version"`; under `"installed_versions"` it is the version
/// itself. Any other key reads nothing.
pub open spec fn item_version(item: Value, version_key: Seq<char>) -> Option<Seq<char>> {
    if version_key == "installed"@ {
        match member_first(item, "installed"@) {
            Some(first) => member_text(first, "version"@),
            None => None,
        }
    } else if version_key == "installed_versions"@ {
        match member_first(item, "installed_versions"@) {
            Some(first) => json_text(first),
            None => None,
        }
    } else {
        None
    }
}

/// The installed package that an item of `brew`'s JSON stands for. An item
/// without a name stands for none. The version is empty where none can be
/// read. An item with a `"current_version"` is outdated, and that version
/// is the one available.
pub open spec fn package_of_item(
    item: Value,
    package_type: PackageType,
    version_key: Seq<char>,
    is_pinned: bool,
) -> Option<PackageView> {
    match member_text(item, "name"@) {
        None => None,
        Some(name) => {
            let version = match item_version(item, version_key) {
                Some(found) => found,
                None => Seq::empty(),
            };
            let current = member_text(item, "current_version"@);
            Some(
                PackageView {
                    name,
                    version: Some(version),
                    available_version: current,
                    description: None,
                    package_type,
                    installed: true,
                    outdated: current is Some,
                    pinned: is_pinned,
                    version_load_failed: false,
                },
            )
        },
    }
}

/// What an item of `brew`'s JSON stands for: the package of its name,
/// pinned if the list of pinned names holds it.
pub open spec fn item_reader(
    package_type: PackageType,
    version_key: Seq<char>,
    pinned: Seq<Seq<char>>,
) -> spec_fn(Value) -> Option<PackageView> {
    |item: Value|
        match member_text(item, "name"@) {
            Some(name) => package_of_item(item, package_type, version_key, pinned.contains(name)),
            None => None,
        }
}

/// The packages that `brew`'s JSON lists for a family; none where the JSON
/// has no such list.
pub open spec fn packages_of_json(
    data: Value,
    package_type: PackageType,
    version_key: Seq<char>,
    pinned: Seq<Seq<char>>,
) -> Seq<PackageView> {
    match json_member(data, items_key(package_type)) {
        Some(list) => match json_items(list) {
            Some(items) => collect_all(items, item_reader(package_type, version_key, pinned)),
            None => Seq::empty(),
        },
        None => Seq::empty(),
    }
}

/// The version that an item of `brew info` gives: its `"version"` where it
/// has that member, else the `"stable"` one of its `"versions"`.
pub open spec fn info_version(item: Value) -> Option<Seq<char>> {
    match json_member(item, "version"@) {
        Some(version) => json_text(version),
        None => match json_member(item, "versions"@) {
            Some(versions) => member_text(versions, "stable"@),
            None => None,
        },
    }
}

/// What `brew info` tells of the package `name`: the version and the
/// description of the first item listed for the family, or nothing where no
/// item is listed.
pub open spec fn info_of_json(data: Value, name: Seq<char>, package_type: PackageType) -> Option<
    PackageView,
> {
    match member_first(data, items_key(package_type)) {
        Some(item) => Some(
            PackageView {
                name,
                version: info_version(item),
                available_version: None,
                description: member_text(item, "desc"@),
                package_type,
                installed: false,
                outdated: false,
                pinned: false,
                version_load_failed: false,
            },
        ),
        None => None,
    }
}

/// The path that a line of a cleanup's dry run gives. A line that is blank
/// or a heading gives none; nor does a line that begins with
/// `Would remove:` or `Removing:`, which is taken for a heading too.
pub open spec fn cleanup_path(line: Seq<char>) -> Option<Seq<char>> {
    let text = trimmed(line);
    if text.len() == 0 || begins_with(text, "==>"@) {
        None
    } else if begins_with(text, "Would remove:"@) || begins_with(text, "Removing:"@) {
        None
    } else if begins_with(text, "Would remove: "@) {
        Some(text.skip("Would remove: "@.len() as int))
    } else {
        None
    }
}

/// What a line of a cleanup's dry run gives.
pub open spec fn cleanup_reader() -> spec_fn(Seq<char>) -> Option<Seq<char>> {
    |line: Seq<char>| cleanup_path(line)
}

fn items_key_of(package_type: PackageType) -> (key: &'static str)
    ensures
        key@ == items_key(package_type),
{
    match package_type {
        PackageType::Formula => "formulae",
        PackageType::Cask => "casks",
    }
}

impl BrewPackageRepository {
    pub fn new() -> Self {
        BrewPackageRepository
    }

    /// The names that `brew list --pinned` printed.
    pub fn parse_pinned_packages(&self, output: &str) -> (names: Vec<String>)
        ensures
            texts(names@) == collect_all(lines(output@), pinned_reader()),
    {
        let rows = split_lines(output);
        let mut names: Vec<String> = Vec::new();
        let mut i: usize = 0;
        assert(texts(names@) =~= Seq::empty());
        while i < rows.len()
            invariant
                i <= rows@.len(),
                texts(rows@) == lines(output@),
                texts(names@) == collect_some(lines(output@), pinned_reader(), i as nat),
            decreases rows@.len() - i,
        {
            assert(texts(rows@)[i as int] == rows@[i as int]@);
            if !rows[i].as_str().is_empty() {
                let name = trim(rows[i].as_str());
                proof {
                    lemma_texts_push(names@, name);
                }
                names.push(name);
            }
            i = i + 1;
        }
        names
    }

    /// The packages that `brew list <family> --versions` printed, each marked
    /// as pinned if `pinned_packages` holds its name.
    pub fn parse_installed_packages_plain_text(
        &self,
        output: &str,
        package_type: PackageType,
        pinned_packages: &Vec<String>,
    ) -> (packages: Vec<Package>)
        ensures
            package_views(packages@) == collect_all(
                lines(output@),
                installed_reader(package_type, texts(pinned_packages@)),
            ),
    {
        let rows = split_lines(output);
        let mut packages: Vec<Package> = Vec::new();
        let mut i: usize = 0;
        let ghost reader = installed_reader(package_type, texts(pinned_packages@));
        assert(package_views(packages@) =~= Seq::empty());
        while i < rows.len()
            invariant
                i <= rows@.len(),
                texts(rows@) == lines(output@),
                reader == installed_reader(package_type, texts(pinned_packages@)),
                package_views(packages@) == collect_some(lines(output@), reader, i as nat),
            decreases rows@.len() - i,
        {
            assert(texts(rows@)[i as int] == rows@[i as int]@);
            let parts = split_words(rows[i].as_str());
            if parts.len() >= 2 {
                assert(texts(parts@)[0] == parts@[0]@);
                assert(texts(parts@)[1] == parts@[1]@);
                let name = parts[0].clone();
                let version = parts[1].clone();
                let is_pinned = holds_text(pinned_packages, name.as_str());
                let package = Package::new(name, package_type).set_installed(true).with_version(
                    version,
                ).set_pinned(is_pinned);
                proof {
                    lemma_package_views_push(packages@, package);
                }
                packages.push(package);
            }
            i = i + 1;
        }
        packages
    }

    /// The packages that `brew list <family> --versions` printed, where
    /// `pinned_output` is what `brew list --pinned` printed, or empty.
    pub fn parse_installed_packages(
        &self,
        output: &str,
        package_type: PackageType,
        pinned_output: &str,
    ) -> (packages: Vec<Package>)
        ensures
            package_views(packages@) == collect_all(
                lines(output@),
                installed_reader(
                    package_type,
                    collect_all(lines(pinned_output@), pinned_reader()),
                ),
            ),
    {
        let pinned = self.parse_pinned_packages(pinned_output);
        self.parse_installed_packages_plain_text(output, package_type, &pinned)
    }

    /// The packages that `brew search` printed.
    pub fn parse_search_results(&self, output: &str, package_type: PackageType) -> (packages: Vec<
        Package,
    >)
        ensures
            package_views(packages@) == collect_all(lines(output@), found_reader(package_type)),
    {
        let rows = split_lines(output);
        let mut packages: Vec<Package> = Vec::new();
        let mut i: usize = 0;
        assert(package_views(packages@) =~= Seq::empty());
        while i < rows.len()
            invariant
                i <= rows@.len(),
                texts(rows@) == lines(output@),
                package_views(packages@) == collect_some(
                    lines(output@),
                    found_reader(package_type),
                    i as nat,
                ),
            decreases rows@.len() - i,
        {
            assert(texts(rows@)[i as int] == rows@[i as int]@);
            if !rows[i].as_str().is_empty() {
                let package = Package::new(trim(rows[i].as_str()), package_type);
                proof {
                    lemma_package_views_push(packages@, package);
                }
                packages.push(package);
            }
            i = i + 1;
        }
        packages
    }

    /// The installed version that an item gives, read the way `version_key`
    /// says.
    fn read_item_version(item: &Value, version_key: &str) -> (version: Option<String>)
        ensures
            opt_text(version) == item_version(*item, version_key@),
    {
        if same_text(version_key, "installed") {
            match member_first_item(item, "installed") {
                Some(first) => member_text_of(first, "version"),
                None => None,
            }
        } else if same_text(version_key, "installed_versions") {
            match member_first_item(item, "installed_versions") {
                Some(first) => text_of(first),
                None => None,
            }
        } else {
            None
        }
    }

    /// The installed package that an item of `brew`'s JSON stands for.
    pub fn extract_package_item(
        item: &Value,
        package_type: PackageType,
        version_key: &str,
        is_pinned: bool,
    ) -> (package: Option<Package>)
        ensures
            match package {
                Some(found) => package_of_item(*item, package_type, version_key@, is_pinned)
                    == Some(found@),
                None => package_of_item(*item, package_type, version_key@, is_pinned) is None,
            },
    {
        let name = match member_text_of(item, "name") {
            Some(name) => name,
            None => {
                return None;
            },
        };
        let version = match Self::read_item_version(item, version_key) {
            Some(version) => version,
            None => String::new(),
        };
        let package = Package::new(name, package_type).set_installed(true).with_version(
            version,
        ).set_pinned(is_pinned);
        match member_text_of(item, "current_version") {
            Some(current) => Some(package.set_outdated(true).with_available_version(current)),
            None => Some(package),
        }
    }

    /// The packages that a JSON value lists for a family.
    pub fn packages_from_value(
        &self,
        data: &Value,
        package_type: PackageType,
        version_key: &str,
        pinned_packages: &Vec<String>,
    ) -> (packages: Vec<Package>)
        ensures
            package_views(packages@) == packages_of_json(
                *data,
                package_type,
                version_key@,
                texts(pinned_packages@),
            ),
    {
        let mut packages: Vec<Package> = Vec::new();
        assert(package_views(packages@) =~= Seq::empty());
        let list = match json_get(data, items_key_of(package_type)) {
            Some(list) => list,
            None => {
                return packages;
            },
        };
        let items = match json_as_array(list) {
            Some(items) => items,
            None => {
                return packages;
            },
        };
        let ghost reader = item_reader(package_type, version_key@, texts(pinned_packages@));
        let mut i: usize = 0;
        while i < items.len()
            invariant
                i <= items@.len(),
                reader == item_reader(package_type, version_key@, texts(pinned_packages@)),
                package_views(packages@) == collect_some(items@, reader, i as nat),
            decreases items@.len() - i,
        {
            match member_text_of(&items[i], "name") {
                Some(name) => {
                    let is_pinned = holds_text(pinned_packages, name.as_str());
                    match Self::extract_package_item(
                        &items[i],
                        package_type,
                        version_key,
                        is_pinned,
                    ) {
                        Some(package) => {
                            proof {
                                lemma_package_views_push(packages@, package);
                            }
                            packages.push(package);
                        },
                        None => {},
                    }
                },
                None => {},
            }
            i = i + 1;
        }
        packages
    }

    /// The packages that `brew`'s JSON lists for a family, or the parser's
    /// error where the text is no JSON.
    pub fn parse_packages_from_json(
        &self,
        json: &str,
        package_type: PackageType,
        version_key: &str,
        pinned_packages: &Vec<String>,
    ) -> (outcome: Result<Vec<Package>, BrewError>)
        ensures
            match outcome {
                Ok(packages) => json_parsed(json@) matches Some(data) && package_views(packages@)
                    == packages_of_json(
                    data,
                    package_type,
                    version_key@,
                    texts(pinned_packages@),
                ),
                Err(error) => json_parsed(json@) is None && error is InvalidJson,
            },
    {
        match json_parse(json) {
            Ok(data) => Ok(
                self.packages_from_value(&data, package_type, version_key, pinned_packages),
            ),
            Err(error) => Err(BrewError::InvalidJson { detail: json_error_text(&error) }),
        }
    }

    /// The packages that `brew outdated --json=v2` printed for a family.
    pub fn parse_outdated_json(
        &self,
        json: &str,
        package_type: PackageType,
        pinned_packages: &Vec<String>,
    ) -> (outcome: Result<Vec<Package>, BrewError>)
        ensures
            match outcome {
                Ok(packages) => json_parsed(json@) matches Some(data) && package_views(packages@)
                    == packages_of_json(
                    data,
                    package_type,
                    "installed_versions"@,
                    texts(pinned_packages@),
                ),
                Err(error) => json_parsed(json@) is None && error is InvalidJson,
            },
    {
        self.parse_packages_from_json(json, package_type, "installed_versions", pinned_packages)
    }

    fn read_info_version(item: &Value) -> (version: Option<String>)
        ensures
            opt_text(version) == info_version(*item),
    {
        match json_get(item, "version") {
            Some(version) => text_of(version),
            None => match json_get(item, "versions") {
                Some(versions) => member_text_of(versions, "stable"),
                None => None,
            },
        }
    }

    /// What a JSON value of `brew info` tells of the package `name`.
    pub fn package_info_from_value(&self, name: &str, data: &Value, package_type: PackageType) -> (outcome:
        Result<Package, BrewError>)
        ensures
            match outcome {
                Ok(package) => info_of_json(*data, name@, package_type) == Some(package@),
                Err(error) => info_of_json(*data, name@, package_type) is None && (
                error matches BrewError::NotFound { name: missing } && missing@ == name@),
            },
    {
        match member_first_item(data, items_key_of(package_type)) {
            Some(item) => {
                let mut package = Package::new(name.to_owned(), package_type);
                match Self::read_info_version(item) {
                    Some(version) => {
                        package = package.with_version(version);
                    },
                    None => {},
                }
                match member_text_of(item, "desc") {
                    Some(description) => {
                        package = package.with_description(description);
                    },
                    None => {},
                }
                Ok(package)
            },
            None => Err(BrewError::NotFound { name: name.to_owned() }),
        }
    }

    /// What `brew info --json=v2` printed about the package `name`.
    pub fn parse_package_info(&self, name: &str, json: &str, package_type: PackageType) -> (outcome:
        Result<Package, BrewError>)
        ensures
            match outcome {
                Ok(package) => json_parsed(json@) matches Some(data) && info_of_json(
                    data,
                    name@,
                    package_type,
                ) == Some(package@),
                Err(BrewError::InvalidJson { .. }) => json_parsed(json@) is None,
                Err(BrewError::NotFound { name: missing }) => missing@ == name@ && (json_parsed(
                    json@,
                ) matches Some(data) && info_of_json(data, name@, package_type) is None),
                Err(_) => false,
            },
    {
        match json_parse(json) {
            Ok(data) => self.package_info_from_value(name, &data, package_type),
            Err(error) => Err(BrewError::InvalidJson { detail: json_error_text(&error) }),
        }
    }

    /// The paths that a cleanup's dry run lists for removal.
    pub fn parse_cleanup_output(&self, output: &str) -> (paths: Vec<String>)
        ensures
            texts(paths@) == collect_all(lines(output@), cleanup_reader()),
    {
        let rows = split_lines(output);
        let mut paths: Vec<String> = Vec::new();
        let mut i: usize = 0;
        assert(texts(paths@) =~= Seq::empty());
        while i < rows.len()
            invariant
                i <= rows@.len(),
                texts(rows@) == lines(output@),
                texts(paths@) == collect_some(lines(output@), cleanup_reader(), i as nat),
            decreases rows@.len() - i,
        {
            assert(texts(rows@)[i as int] == rows@[i as int]@);
            let text = trim(rows[i].as_str());
            if text.as_str().is_empty() || starts_with(text.as_str(), "==>") {
            } else if starts_with(text.as_str(), "Would remove:") || starts_with(
                text.as_str(),
                "Removing:",
            ) {
            } else if starts_with(text.as_str(), "Would remove: ") {
                let path = crate::text::skip_chars(
                    text.as_str(),
                    "Would remove: ".unicode_len(),
                );
                proof {
                    lemma_texts_push(paths@, path);
                }
                paths.push(path);
            }
            i = i + 1;
        }
        paths
    }
}

} // verus!
