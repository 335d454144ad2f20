//! What the export of the installed packages prints, read into a package
//! list.

use crate::domain::entities::package::PackageType;
use crate::domain::entities::package_list::{
    item_views, PackageList, PackageListItem, PackageListItemView,
};
use crate::text::{lines, same_text, split_lines, split_words, texts, trim, trimmed, words};
use vstd::prelude::*;

verus! {

pub struct BrewPackageListRepository;

/// Where the reading of an export stands: the family whose section it is
/// in, if any, and the entries read so far.
pub struct ExportScan {
    pub section: Option<PackageType>,
    pub formulae: Seq<PackageListItemView>,
    pub casks: Seq<PackageListItemView>,
}

/// The entry that a line within a section stands for: its first word is the
/// name, its second the version, which may be missing.
pub open spec fn export_entry(text: Seq<char>, package_type: PackageType) -> Option<
    PackageListItemView,
> {
    let parts = words(text);
    if parts.len() == 0 {
        None
    } else {
        Some(
            PackageListItemView {
                name: parts[0],
                package_type,
                version: if parts.len() > 1 {
                    Some(parts[1])
                } else {
                    None
                },
            },
        )
    }
}

/// Reads one line of an export. `FORMULAE` and `CASKS` open the section of
/// their family. A blank line, and any line before the first section, is
/// passed over. Any other line is an entry of the section it stands in.
pub open spec fn export_step(scan: ExportScan, line: Seq<char>) -> ExportScan {
    let text = trimmed(line);
    if text == "FORMULAE"@ {
        ExportScan { section: Some(PackageType::Formula), ..scan }
    } else if text == "CASKS"@ {
        ExportScan { section: Some(PackageType::Cask), ..scan }
    } else if text.len() == 0 {
        scan
    } else {
        match scan.section {
            None => scan,
            Some(package_type) => match export_entry(text, package_type) {
                None => scan,
                Some(entry) => match package_type {
                    PackageType::Formula => ExportScan {
                        formulae: scan.formulae.push(entry),
                        ..scan
                    },
                    PackageType::Cask => ExportScan { casks: scan.casks.push(entry), ..scan },
                },
            },
        }
    }
}

/// The reading of the first `n` lines of an export.
pub open spec fn export_scan(rows: Seq<Seq<char>>, n: nat) -> ExportScan
    decreases n,
{
    if n == 0 {
        ExportScan { section: None, formulae: Seq::empty(), casks: Seq::empty() }
    } else {
        export_step(export_scan(rows, (n - 1) as nat), rows[n - 1])
    }
}

/// `chrono::Utc::now` and `DateTime::to_rfc3339`: the present moment as a
/// date in RFC 3339. It differs from call to call, so nothing is claimed of
/// it.
#[verifier::external_body]
fn current_date() -> String {
    chrono::Utc::now().to_rfc3339()
}

impl BrewPackageListRepository {
    pub fn new() -> Self {
        BrewPackageListRepository
    }

    /// The package list that an export stands for, dated `export_date`.
    pub fn parse_package_list_dated(&self, output: &str, export_date: String) -> (list: PackageList)
        ensures
            list.export_date == Some(export_date),
            item_views(list.formulae@) == export_scan(
                lines(output@),
                lines(output@).len(),
            ).formulae,
            item_views(list.casks@) == export_scan(lines(output@), lines(output@).len()).casks,
    {
        let mut list = PackageList::new().with_export_date(export_date);
        let mut section: Option<PackageType> = None;
        let rows = split_lines(output);
        let mut i: usize = 0;
        assert(item_views(list.formulae@) =~= Seq::empty());
        assert(item_views(list.casks@) =~= Seq::empty());
        while i < rows.len()
            invariant
                i <= rows@.len(),
                texts(rows@) == lines(output@),
                list.export_date == Some(export_date),
                export_scan(lines(output@), i as nat) == (ExportScan {
                    section,
                    formulae: item_views(list.formulae@),
                    casks: item_views(list.casks@),
                }),
            decreases rows@.len() - i,
        {
            assert(texts(rows@)[i as int] == rows@[i as int]@);
            let text = trim(rows[i].as_str());
            if same_text(text.as_str(), "FORMULAE") {
                section = Some(PackageType::Formula);
            } else if same_text(text.as_str(), "CASKS") {
                section = Some(PackageType::Cask);
            } else if text.as_str().is_empty() {
            } else {
                match section {
                    None => {},
                    Some(package_type) => {
                        let parts = split_words(text.as_str());
                        if parts.len() > 0 {
                            assert(texts(parts@)[0] == parts@[0]@);
                            let mut item = PackageListItem::new(parts[0].clone(), package_type);
                            if parts.len() > 1 {
                                assert(texts(parts@)[1] == parts@[1]@);
                                item = item.with_version(parts[1].clone());
                            }
                            match package_type {
                                PackageType::Formula => {
                                    assert(item_views(list.formulae@.push(item)) =~= item_views(
                                        list.formulae@,
                                    ).push(item@));
                                    list.add_formula(item);
                                },
                                PackageType::Cask => {
                                    assert(item_views(list.casks@.push(item)) =~= item_views(
                                        list.casks@,
                                    ).push(item@));
                                    list.add_cask(item);
                                },
                            }
                        }
                    },
                }
            }
            i = i + 1;
        }
        list
    }

    /// The package list that an export stands for, dated now. The date is
    /// the clock's; the entries are those that
    /// [`BrewPackageListRepository::parse_package_list_dated`] reads.
    pub fn parse_package_list(&self, output: &str) -> (list: PackageList)
        ensures
            list.export_date is Some,
            item_views(list.formulae@) == export_scan(
                lines(output@),
                lines(output@).len(),
            ).formulae,
            item_views(list.casks@) == export_scan(lines(output@), lines(output@).len()).casks,
    {
        self.parse_package_list_dated(output, current_date())
    }
}

} // verus!
