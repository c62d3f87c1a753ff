//! How exploring an archive can fail.

use vstd::prelude::*;

verus! {

/// The ways in which exploring an archive fails. A corrupt archive and a
/// problem of the machine are told apart.
#[derive(Clone, Debug, PartialEq, Eq)]
pub enum NPFExplorationErrorKind {
    /// The scratch directory could not be made, or the archive not unpacked.
    UnpackError,
    /// The archive holds no manifest.
    MissingManifest,
    /// The archive's manifest cannot be parsed.
    InvalidManifest,
    /// The named member is not in the archive.
    FileNotFound(String),
    /// The named file could not be read or loaded.
    FileIOError(String),
}

/// An `NPFExplorationErrorKind` with its path as text.
pub enum ExplorationFailure {
    Unpack,
    MissingManifest,
    InvalidManifest,
    FileNotFound(Seq<char>),
    FileIO(Seq<char>),
}

impl View for NPFExplorationErrorKind {
    type V = ExplorationFailure;

    open spec fn view(&self) -> ExplorationFailure {
        match self {
            NPFExplorationErrorKind::UnpackError => ExplorationFailure::Unpack,
            NPFExplorationErrorKind::MissingManifest => ExplorationFailure::MissingManifest,
            NPFExplorationErrorKind::InvalidManifest => ExplorationFailure::InvalidManifest,
            NPFExplorationErrorKind::FileNotFound(path) => ExplorationFailure::FileNotFound(path@),
            NPFExplorationErrorKind::FileIOError(path) => ExplorationFailure::FileIO(path@),
        }
    }
}

/// The failure of an exploration.
#[derive(Clone, Debug, PartialEq, Eq)]
pub struct NPFExplorationError {
    kind: NPFExplorationErrorKind,
}

impl View for NPFExplorationError {
    type V = ExplorationFailure;

    closed spec fn view(&self) -> ExplorationFailure {
        self.kind@
    }
}

impl NPFExplorationError {
    /// The error of the given kind.
    pub fn from(kind: NPFExplorationErrorKind) -> (error: Self)
        ensures
            error@ == kind@,
    {
        NPFExplorationError { kind }
    }

    /// The kind of this error.
    pub fn kind(&self) -> (kind: &NPFExplorationErrorKind)
        ensures
            kind@ == self@,
    {
        &self.kind
    }

    /// The kind of this error, by value.
    pub fn into_kind(self) -> (kind: NPFExplorationErrorKind)
        ensures
            kind@ == self@,
    {
        self.kind
    }
}

} // verus!
