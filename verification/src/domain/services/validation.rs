use crate::domain::entities::package::Package;
use crate::text::{char_is_alphanumeric, is_alphanumeric, join};
use vstd::prelude::*;

verus! {

/// Whether a character may stand in a package name: a letter, a number, a
/// hyphen or an underscore.
pub open spec fn allowed_in_name(c: char) -> bool {
    is_alphanumeric(c) || c == '-' || c == '_'
}

/// Whether a text is a package name: it holds a character, and only
/// characters that may stand in a name.
pub open spec fn valid_name(name: Seq<char>) -> bool {
    name.len() > 0 && forall|i: int| 0 <= i < name.len() ==> allowed_in_name(#[trigger] name[i])
}

pub struct PackageValidator;

impl PackageValidator {
    /// Whether a text is a package name.
    pub fn validate_package_name(name: &str) -> (valid: bool)
        ensures
            valid == valid_name(name@),
    {
        let mut seen: usize = 0;
        for c in it: name.chars()
            invariant
                it.seq() == name@,
                (seen > 0) == (it.index() > 0),
                forall|i: int| 0 <= i < it.index() ==> allowed_in_name(#[trigger] name@[i]),
        {
            if !(char_is_alphanumeric(c) || c == '-' || c == '_') {
                assert(!allowed_in_name(name@[it.index() as int]));
                return false;
            }
            seen = 1;
        }
        seen > 0
    }

    /// Accepts a package whose name is valid; else says which name is not.
    pub fn validate_package(package: &Package) -> (checked: Result<(), String>)
        ensures
            valid_name(package.name@) ==> checked is Ok,
            !valid_name(package.name@) ==> (checked matches Err(message) && message@
                == "Invalid package name: "@ + package.name@),
    {
        if !Self::validate_package_name(package.name.as_str()) {
            return Err(join("Invalid package name: ", package.name.as_str()));
        }
        Ok(())
    }
}

} // verus!
