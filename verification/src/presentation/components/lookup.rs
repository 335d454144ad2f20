//! Finding a package in a list by its name.

use crate::domain::entities::package::Package;
use crate::seqs::{first_where, lemma_first_where, lemma_first_where_is, lemma_first_where_none};
use crate::text::same_text;
use vstd::prelude::*;

verus! {

/// Whether a package goes by a name.
pub open spec fn named(name: Seq<char>) -> spec_fn(Package) -> bool {
    |package: Package| package.name@ == name
}

/// The first package of a list that goes by a name.
pub open spec fn found(list: Seq<Package>, name: Seq<char>) -> Option<Package> {
    match first_where(list, named(name)) {
        Some(at) => Some(list[at]),
        None => None,
    }
}

/// A list in which `package` has taken the place of the first package of
/// its name; the list as it is where none goes by that name.
pub open spec fn replaced(list: Seq<Package>, package: Package) -> Seq<Package> {
    match first_where(list, named(package.name@)) {
        Some(at) => list.update(at, package),
        None => list,
    }
}

/// A list without the first package that goes by a name.
pub open spec fn without(list: Seq<Package>, name: Seq<char>) -> Seq<Package> {
    match first_where(list, named(name)) {
        Some(at) => list.remove(at),
        None => list,
    }
}

/// A list that holds `package`: in the place of the first package of its
/// name, or at the end where none goes by that name.
pub open spec fn with_package(list: Seq<Package>, package: Package) -> Seq<Package> {
    match first_where(list, named(package.name@)) {
        Some(at) => list.update(at, package),
        None => list.push(package),
    }
}

/// The place of the first package of a list that goes by a name.
pub fn position_named(list: &Vec<Package>, name: &str) -> (place: Option<usize>)
    ensures
        match place {
            Some(at) => first_where(list@, named(name@)) == Some(at as int) && at < list@.len(),
            None => first_where(list@, named(name@)) is None,
        },
{
    let mut i: usize = 0;
    while i < list.len()
        invariant
            i <= list@.len(),
            forall|j: int| 0 <= j < i ==> !named(name@)(#[trigger] list@[j]),
        decreases list@.len() - i,
    {
        if same_text(list[i].name.as_str(), name) {
            proof {
                lemma_first_where_is(list@, named(name@), i as int);
            }
            return Some(i);
        }
        i = i + 1;
    }
    proof {
        lemma_first_where_none(list@, named(name@));
    }
    None
}

/// Puts `package` in the place of the first package of its name, if there
/// is one.
pub fn replace_named(list: &mut Vec<Package>, package: Package)
    ensures
        final(list)@ == replaced(old(list)@, package),
{
    match position_named(list, package.name.as_str()) {
        Some(at) => {
            list.set(at, package);
        },
        None => {},
    }
}

/// Puts `package` in the place of the first package of its name, or at the
/// end where none goes by that name.
pub fn put_package(list: &mut Vec<Package>, package: Package)
    ensures
        final(list)@ == with_package(old(list)@, package),
{
    match position_named(list, package.name.as_str()) {
        Some(at) => {
            list.set(at, package);
        },
        None => {
            list.push(package);
        },
    }
}

/// A copy of the first package that goes by a name.
pub fn find_package(list: &Vec<Package>, name: &str) -> (package: Option<Package>)
    ensures
        package == found(list@, name@),
{
    match position_named(list, name) {
        Some(at) => Some(list[at].clone()),
        None => None,
    }
}

/// What is found where `first` holds the name is found in `first` and
/// `second` laid end to end; else what `second` holds.
pub proof fn lemma_found_in_both(first: Seq<Package>, second: Seq<Package>, name: Seq<char>)
    ensures
        found(first + second, name) == match found(first, name) {
            Some(package) => Some(package),
            None => found(second, name),
        },
{
    let both = first + second;
    let hit = named(name);
    lemma_first_where(first, hit);
    lemma_first_where(second, hit);
    match first_where(first, hit) {
        Some(at) => {
            assert(both[at] == first[at]);
            assert forall|j: int| 0 <= j < at implies !hit(#[trigger] both[j]) by {
                assert(both[j] == first[j]);
            }
            lemma_first_where_is(both, hit, at);
        },
        None => {
            match first_where(second, hit) {
                Some(at) => {
                    let place = first.len() + at;
                    assert(both[place] == second[at]);
                    assert forall|j: int| 0 <= j < place implies !hit(#[trigger] both[j]) by {
                        if j < first.len() {
                            assert(both[j] == first[j]);
                        } else {
                            assert(both[j] == second[j - first.len()]);
                        }
                    }
                    lemma_first_where_is(both, hit, place);
                },
                None => {
                    assert forall|j: int| 0 <= j < both.len() implies !hit(#[trigger] both[j]) by {
                        if j < first.len() {
                            assert(both[j] == first[j]);
                        } else {
                            assert(both[j] == second[j - first.len()]);
                        }
                    }
                    lemma_first_where_none(both, hit);
                },
            }
        },
    }
}

} // verus!
