//! The metadata that an archive carries about its package.

use vstd::prelude::*;

verus! {

/// What kind of package a manifest describes.
#[derive(Clone, Copy, Debug, PartialEq, Eq, Structural, Hash)]
pub enum Kind {
    /// Installs content of its own, so its archive carries a payload.
    Effective,
    /// Metadata only, such as a group of dependencies; a payload is optional.
    Virtual,
}

/// The parsed metadata of a package. Only `kind` drives decisions here; the
/// other fields are carried as they were declared.
#[derive(Clone, Debug, PartialEq, Eq)]
pub struct Manifest {
    name: String,
    category: String,
    version: String,
    kind: Kind,
    dependencies: Vec<String>,
}

/// A `Manifest` as plain mathematical values.
pub struct ManifestView {
    pub name: Seq<char>,
    pub category: Seq<char>,
    pub version: Seq<char>,
    pub kind: Kind,
    pub dependencies: Seq<Seq<char>>,
}

impl View for Manifest {
    type V = ManifestView;

    closed spec fn view(&self) -> ManifestView {
        ManifestView {
            name: self.name@,
            category: self.category@,
            version: self.version@,
            kind: self.kind,
            dependencies: self.dependencies.deep_view(),
        }
    }
}

impl Manifest {
    /// A manifest with the given declarations.
    pub fn new(
        name: String,
        category: String,
        version: String,
        kind: Kind,
        dependencies: Vec<String>,
    ) -> (manifest: Self)
        ensures
            manifest@.name == name@,
            manifest@.category == category@,
            manifest@.version == version@,
            manifest@.kind == kind,
            manifest@.dependencies == dependencies.deep_view(),
    {
        Manifest { name, category, version, kind, dependencies }
    }

    /// The declared name.
    pub fn name(&self) -> (r: &String)
        ensures
            r@ == self@.name,
    {
        &self.name
    }

    /// The declared category.
    pub fn category(&self) -> (r: &String)
        ensures
            r@ == self@.category,
    {
        &self.category
    }

    /// The declared version.
    pub fn version(&self) -> (r: &String)
        ensures
            r@ == self@.version,
    {
        &self.version
    }

    /// The declared kind.
    pub fn kind(&self) -> (kind: Kind)
        ensures
            kind == self@.kind,
    {
        self.kind
    }

    /// The declared dependencies, in the order of their declaration.
    pub fn dependencies(&self) -> (r: &Vec<String>)
        ensures
            r.deep_view() == self@.dependencies,
    {
        &self.dependencies
    }
}

} // verus!
