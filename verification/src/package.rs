//! What must be installed, and how the package manager's listing is read.

use vstd::prelude::*;
use vstd::string::StringExecFns;
use vstd::utf8::encode_utf8;
use crate::text::{contains, contains_bytes};

verus! {

/// A package to install: its name, the optional features it must be built
/// with, and the triplet it is built for.
pub struct PackageRequirement {
    /// The name of the package.
    pub name: String,
    /// The features the package must be built with.
    pub features: Vec<String>,
    /// The triplet the package must be built for.
    pub triplet: String,
}

/// The tool's command that lists installed packages.
pub const LIST: &'static str = "list";

/// The tool's command that installs a package.
pub const INSTALL: &'static str = "install";

/// The tool's command that removes a package.
pub const REMOVE: &'static str = "remove";

/// The texts of a list of strings.
pub open spec fn views_of(items: Seq<String>) -> Seq<Seq<char>> {
    Seq::new(items.len(), |i: int| items[i]@)
}

/// The texts of `items` with a comma between each two.
pub open spec fn comma_joined(items: Seq<Seq<char>>) -> Seq<char>
    decreases items.len(),
{
    if items.len() == 0 {
        Seq::empty()
    } else if items.len() == 1 {
        items[0]
    } else {
        comma_joined(items.drop_last()) + ","@ + items.last()
    }
}

/// The listing names the package and the triplet, and every feature of
/// `features`. Each is looked for as plain text anywhere in the listing.
pub open spec fn listing_satisfies(
    listing: Seq<u8>,
    name: Seq<char>,
    triplet: Seq<char>,
    features: Seq<Seq<char>>,
) -> bool {
    &&& listing_names(listing, name, triplet)
    &&& forall|i: int| 0 <= i < features.len() ==> contains(listing, encode_utf8(features[i]))
}

/// The listing names the package and the triplet.
pub open spec fn listing_names(listing: Seq<u8>, name: Seq<char>, triplet: Seq<char>) -> bool {
    contains(listing, encode_utf8(name)) && contains(listing, encode_utf8(triplet))
}

/// The argument that names the package to install: the name, the features
/// in square brackets where there are any, a colon and the triplet.
pub open spec fn install_spec_text(
    name: Seq<char>,
    triplet: Seq<char>,
    features: Seq<Seq<char>>,
) -> Seq<char> {
    if features.len() == 0 {
        name + ":"@ + triplet
    } else {
        name + "["@ + comma_joined(features) + "]"@ + ":"@ + triplet
    }
}

/// The argument that names the package to remove: the name, a colon and the
/// triplet.
pub open spec fn remove_spec_text(name: Seq<char>, triplet: Seq<char>) -> Seq<char> {
    name + ":"@ + triplet
}

/// Tells whether the listing names the package `name` and the triplet
/// `triplet`.
pub fn names_package(listing: &[u8], name: &str, triplet: &str) -> (r: bool)
    ensures
        r == listing_names(listing@, name@, triplet@),
        !contains(listing@, encode_utf8(triplet@)) ==> !r,
{
    contains_bytes(listing, name.as_bytes()) && contains_bytes(listing, triplet.as_bytes())
}

/// Tells whether the listing names every feature of `features`.
pub fn names_features(listing: &[u8], features: &Vec<String>) -> (r: bool)
    ensures
        r == forall|i: int|
            0 <= i < features@.len() ==> contains(listing@, encode_utf8(#[trigger] features@[i]@)),
{
    let mut i: usize = 0;
    while i < features.len()
        invariant
            i <= features.len(),
            forall|j: int| 0 <= j < i ==> contains(listing@, encode_utf8(#[trigger] features@[j]@)),
        decreases features.len() - i,
    {
        if !contains_bytes(listing, features[i].as_str().as_bytes()) {
            return false;
        }
        i += 1;
    }
    true
}

/// Tells whether the listing shows the package `name` installed for
/// `triplet` with every feature of `features`.
///
/// A listing that does not name the triplet never does, whatever features
/// it names: a package built for another triplet counts as absent.
pub fn satisfies(listing: &[u8], name: &str, triplet: &str, features: &Vec<String>) -> (r: bool)
    ensures
        r == listing_satisfies(listing@, name@, triplet@, views_of(features@)),
        !contains(listing@, encode_utf8(triplet@)) ==> !r,
        r ==> listing_names(listing@, name@, triplet@),
{
    let r = names_package(listing, name, triplet) && names_features(listing, features);
    proof {
        let items = views_of(features@);
        if r {
            assert forall|i: int| 0 <= i < items.len() implies contains(
                listing@,
                encode_utf8(items[i]),
            ) by {
                assert(items[i] == features@[i]@);
            }
        } else if listing_names(listing@, name@, triplet@) {
            let i = choose|i: int|
                0 <= i < features@.len() && !contains(
                    listing@,
                    encode_utf8(#[trigger] features@[i]@),
                );
            assert(items[i] == features@[i]@);
        }
    }
    r
}

impl PackageRequirement {
    /// Tells whether the package manager's listing shows the package
    /// installed for this triplet.
    pub fn is_listed_in(&self, listing: &[u8]) -> (r: bool)
        ensures
            r == listing_names(listing@, self.name@, self.triplet@),
            !contains(listing@, encode_utf8(self.triplet@)) ==> !r,
    {
        names_package(listing, self.name.as_str(), self.triplet.as_str())
    }

    /// Tells whether the package manager's listing shows the package
    /// installed for this triplet with every required feature.
    ///
    /// A listing that does not name the triplet never satisfies the
    /// requirement, whatever features it names: a package built for another
    /// triplet counts as absent.
    pub fn is_satisfied_by(&self, listing: &[u8]) -> (r: bool)
        ensures
            r == listing_satisfies(listing@, self.name@, self.triplet@, views_of(self.features@)),
            !contains(listing@, encode_utf8(self.triplet@)) ==> !r,
            r ==> listing_names(listing@, self.name@, self.triplet@),
    {
        satisfies(listing, self.name.as_str(), self.triplet.as_str(), &self.features)
    }

    /// The argument for the install command.
    pub fn install_spec(&self) -> (r: String)
        ensures
            r@ == install_spec_text(self.name@, self.triplet@, views_of(self.features@)),
    {
        let ghost items = views_of(self.features@);
        let mut out: String = self.name.clone();
        if self.features.len() > 0 {
            out.append("[");
            let ghost head = out@;
            out.append(self.features[0].as_str());
            let mut i: usize = 1;
            assert(items.take(1) =~= seq![items[0]]);
            while i < self.features.len()
                invariant
                    1 <= i <= self.features.len(),
                    items == views_of(self.features@),
                    out@ == head + comma_joined(items.take(i as int)),
                decreases self.features.len() - i,
            {
                let ghost done = comma_joined(items.take(i as int));
                out.append(",");
                out.append(self.features[i].as_str());
                proof {
                    let next = items.take(i + 1);
                    assert(next.drop_last() =~= items.take(i as int));
                    assert(next.last() == self.features@[i as int]@);
                    assert(head + done + ","@ + next.last() =~= head + (done + ","@ + next.last()));
                }
                i += 1;
            }
            assert(items.take(i as int) =~= items);
            out.append("]");
        }
        out.append(":");
        out.append(self.triplet.as_str());
        out
    }

    /// The argument for the remove command.
    pub fn remove_spec(&self) -> (r: String)
        ensures
            r@ == remove_spec_text(self.name@, self.triplet@),
    {
        let mut out: String = self.name.clone();
        out.append(":");
        out.append(self.triplet.as_str());
        out
    }

    /// The arguments with which the tool lists the package: `list` and the
    /// name.
    pub fn list_arguments(&self) -> (r: Vec<String>)
        ensures
            r@.len() == 2,
            r@[0]@ == LIST@,
            r@[1]@ == self.name@,
    {
        let mut out: Vec<String> = Vec::new();
        out.push(LIST.to_owned());
        out.push(self.name.clone());
        out
    }

    /// The arguments with which the tool installs the package: `install`
    /// and the name with features and triplet.
    pub fn install_arguments(&self) -> (r: Vec<String>)
        ensures
            r@.len() == 2,
            r@[0]@ == INSTALL@,
            r@[1]@ == install_spec_text(self.name@, self.triplet@, views_of(self.features@)),
    {
        let mut out: Vec<String> = Vec::new();
        out.push(INSTALL.to_owned());
        out.push(self.install_spec());
        out
    }

    /// The arguments with which the tool removes the package: `remove` and
    /// the name with the triplet.
    pub fn remove_arguments(&self) -> (r: Vec<String>)
        ensures
            r@.len() == 2,
            r@[0]@ == REMOVE@,
            r@[1]@ == remove_spec_text(self.name@, self.triplet@),
    {
        let mut out: Vec<String> = Vec::new();
        out.push(REMOVE.to_owned());
        out.push(self.remove_spec());
        out
    }
}

} // verus!
