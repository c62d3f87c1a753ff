//! What names one package.

use vstd::prelude::*;

verus! {

/// The identity of a package: where it is hosted, its category, its name and
/// its version. Two identities are the same when all four agree.
#[derive(Clone, Debug, PartialEq, Eq, Hash)]
pub struct PackageID {
    repository: String,
    category: String,
    name: String,
    version: String,
}

/// A `PackageID` as four texts.
pub struct PackageIDView {
    pub repository: Seq<char>,
    pub category: Seq<char>,
    pub name: Seq<char>,
    pub version: Seq<char>,
}

impl View for PackageID {
    type V = PackageIDView;

    closed spec fn view(&self) -> PackageIDView {
        PackageIDView {
            repository: self.repository@,
            category: self.category@,
            name: self.name@,
            version: self.version@,
        }
    }
}

impl PackageID {
    /// An identity made of the four given parts.
    pub fn from(repository: String, category: String, name: String, version: String) -> (id: Self)
        ensures
            id@.repository == repository@,
            id@.category == category@,
            id@.name == name@,
            id@.version == version@,
    {
        PackageID { repository, category, name, version }
    }

    /// The name of the repository that hosts the package.
    pub fn repository(&self) -> (r: &String)
        ensures
            r@ == self@.repository,
    {
        &self.repository
    }

    /// The category of the package.
    pub fn category(&self) -> (r: &String)
        ensures
            r@ == self@.category,
    {
        &self.category
    }

    /// The name of the package.
    pub fn name(&self) -> (r: &String)
        ensures
            r@ == self@.name,
    {
        &self.name
    }

    /// The version of the package.
    pub fn version(&self) -> (r: &String)
        ensures
            r@ == self@.version,
    {
        &self.version
    }

    /// Whether both identities agree in all four parts.
    pub fn same_as(&self, other: &PackageID) -> (same: bool)
        ensures
            same == (self@ == other@),
    {
        self.repository == other.repository && self.category == other.category
            && self.name == other.name && self.version == other.version
    }

    /// A copy of this identity.
    pub fn duplicate(&self) -> (copy: Self)
        ensures
            copy@ == self@,
    {
        PackageID {
            repository: self.repository.clone(),
            category: self.category.clone(),
            name: self.name.clone(),
            version: self.version.clone(),
        }
    }
}

} // verus!
