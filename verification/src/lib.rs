//! The installation core of the Nest package manager.
//!
//! Everything here works on plain values: paths are strings, and each step
//! that touches the disk or the network is described as an action for the
//! caller to perform, whose outcome the caller hands back.

pub mod cache;
pub mod config;
pub mod lock_file;
pub mod package;
pub mod repository;
pub mod text;
pub mod transaction;
