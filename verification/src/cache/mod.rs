//! The caches that the package manager keeps on disk.

pub mod available;
pub mod downloaded;
