//! The capability that gates every change to the package store.

use vstd::prelude::*;

verus! {

/// How an attempt to take the store's lock file ended.
#[derive(Clone, Copy, Debug, PartialEq, Eq, Structural)]
pub enum LockAttempt {
    /// This process now holds the lock.
    Acquired,
    /// Another process holds the lock.
    Contended,
    /// The lock file could not be opened or locked.
    Failed,
}

/// Proof that the caller holds the exclusive lock over the package store.
/// It carries nothing to inspect and cannot be copied: whoever changes the
/// store is handed a reference to it.
#[derive(Debug)]
pub struct LockFileOwnership {
    held: (),
}

impl LockFileOwnership {
    /// The ownership that a successful attempt grants, and nothing otherwise.
    pub fn grant(attempt: LockAttempt) -> (ownership: Option<LockFileOwnership>)
        ensures
            ownership.is_some() <==> attempt == LockAttempt::Acquired,
    {
        match attempt {
            LockAttempt::Acquired => Some(LockFileOwnership { held: () }),
            _ => None,
        }
    }
}

} // verus!
