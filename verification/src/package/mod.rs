//! Packages: their identity, their manifest and the archives that carry them.

pub mod error;
pub mod identity;
pub mod manifest;
pub mod npf;

pub use self::error::{ExplorationFailure, NPFExplorationError, NPFExplorationErrorKind};
pub use self::identity::{PackageID, PackageIDView};
pub use self::manifest::{Kind, Manifest, ManifestView};
pub use self::npf::{Extraction, ExtractionAction, ExtractionEvent, ManifestRead, MemberRead,
    NPFExplorer, NPFFile, OpenOutcome, Progress, Stage};
