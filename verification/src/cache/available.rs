//! The cache of the packages that the repositories offer.

use vstd::prelude::*;

verus! {

/// A handle over the cache of available packages: the directory it lies in.
#[derive(Clone, Debug, PartialEq, Eq)]
pub struct AvailablePackages {
    cache_root: String,
}

impl View for AvailablePackages {
    type V = Seq<char>;

    closed spec fn view(&self) -> Seq<char> {
        self.cache_root@
    }
}

impl AvailablePackages {
    /// The cache rooted at `cache_root`.
    pub fn from(cache_root: String) -> (cache: Self)
        ensures
            cache@ == cache_root@,
    {
        AvailablePackages { cache_root }
    }

    /// The root directory of the cache.
    pub fn cache_root(&self) -> (root: &String)
        ensures
            root@ == self@,
    {
        &self.cache_root
    }
}

} // verus!
