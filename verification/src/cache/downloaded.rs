//! The cache of downloaded archives: one file per package, at a path that
//! the package's identity alone decides.

use vstd::prelude::*;
use crate::lock_file::LockFileOwnership;
use crate::package::npf::{is_scratch_path, Extraction, NPFExplorer, StageView};
use crate::package::{PackageID, PackageIDView};
use crate::text::{is_component, join, join_path, lemma_join_splits, lemma_prefix_cancels,
    lemma_suffix_cancels};

verus! {

/// The file name of a package's archive: `name-version.nest`.
pub open spec fn archive_name(id: PackageIDView) -> Seq<char> {
    id.name + "-"@ + id.version + ".nest"@
}

/// Where a package's archive lies below the cache root:
/// `repository/category/name/name-version.nest`.
pub open spec fn relative_path(id: PackageIDView) -> Seq<char> {
    join(id.repository, join(id.category, join(id.name, archive_name(id))))
}

/// Where a package's archive lies: `root/repository/category/name/name-version.nest`.
pub open spec fn cache_path(root: Seq<char>, id: PackageIDView) -> Seq<char> {
    join(root, relative_path(id))
}

/// Under one root, two identities whose repository, category and name are
/// single path components have the same cache path exactly when they are
/// the same identity.
pub proof fn lemma_cache_path_injective(root: Seq<char>, a: PackageIDView, b: PackageIDView)
    requires
        is_component(a.repository),
        is_component(a.category),
        is_component(a.name),
        is_component(b.repository),
        is_component(b.category),
        is_component(b.name),
    ensures
        cache_path(root, a) == cache_path(root, b) <==> a == b,
{
    if cache_path(root, a) == cache_path(root, b) {
        lemma_prefix_cancels(root.push('/'), relative_path(a), relative_path(b));
        lemma_join_splits(
            a.repository,
            join(a.category, join(a.name, archive_name(a))),
            b.repository,
            join(b.category, join(b.name, archive_name(b))),
        );
        lemma_join_splits(
            a.category,
            join(a.name, archive_name(a)),
            b.category,
            join(b.name, archive_name(b)),
        );
        lemma_join_splits(a.name, archive_name(a), b.name, archive_name(b));
        lemma_suffix_cancels(a.name + "-"@ + a.version, b.name + "-"@ + b.version, ".nest"@);
        lemma_prefix_cancels(a.name + "-"@, a.version, b.version);
    }
}

/// Whether one of `archives` is the file at `path`.
pub open spec fn listed(archives: Seq<String>, path: Seq<char>) -> bool {
    exists|i: int| 0 <= i < archives.len() && #[trigger] archives[i]@ == path
}

/// No archive was cached at the path that a removal named.
#[derive(Clone, Debug, PartialEq, Eq)]
pub struct MissingArchive {
    /// The path at which an archive was expected.
    pub path: String,
}

/// A `DownloadedPackages` as its root and the set of the paths of its files.
pub struct DownloadedPackagesView {
    pub root: Seq<char>,
    pub archives: Set<Seq<char>>,
}

impl DownloadedPackagesView {
    /// Whether the archive of `id` is cached.
    pub open spec fn has(self, id: PackageIDView) -> bool {
        self.archives.contains(cache_path(self.root, id))
    }

    /// The cache once the archive of `id` was written into it.
    pub open spec fn after_store(self, id: PackageIDView) -> DownloadedPackagesView {
        DownloadedPackagesView {
            root: self.root,
            archives: self.archives.insert(cache_path(self.root, id)),
        }
    }

    /// The cache once the archive of `id` was removed from it.
    pub open spec fn after_remove(self, id: PackageIDView) -> DownloadedPackagesView {
        DownloadedPackagesView {
            root: self.root,
            archives: self.archives.remove(cache_path(self.root, id)),
        }
    }
}

/// A package is cached right after its archive was stored, and no longer
/// cached right after its archive was removed.
pub proof fn lemma_has_follows_store_and_remove(cache: DownloadedPackagesView, id: PackageIDView)
    ensures
        cache.after_store(id).has(id),
        !cache.after_remove(id).has(id),
{
}

/// Writing an archive over itself changes nothing: a download that is
/// repeated leaves the cache as the first one did.
pub proof fn lemma_store_twice_is_store_once(cache: DownloadedPackagesView, id: PackageIDView)
    ensures
        cache.after_store(id).after_store(id) == cache.after_store(id),
{
    assert(cache.after_store(id).after_store(id).archives =~= cache.after_store(id).archives);
}

/// Storing or removing the archive of one package leaves every other
/// path of the cache as it was.
pub proof fn lemma_other_archives_untouched(
    cache: DownloadedPackagesView,
    id: PackageIDView,
    path: Seq<char>,
)
    requires
        path != cache_path(cache.root, id),
    ensures
        cache.after_store(id).archives.contains(path) == cache.archives.contains(path),
        cache.after_remove(id).archives.contains(path) == cache.archives.contains(path),
{
}

/// The cache of downloaded packages: its root directory and the archive
/// files that lie under it.
#[derive(Clone, Debug, PartialEq, Eq)]
pub struct DownloadedPackages {
    cache_root: String,
    archives: Vec<String>,
}

impl View for DownloadedPackages {
    type V = DownloadedPackagesView;

    closed spec fn view(&self) -> DownloadedPackagesView {
        DownloadedPackagesView {
            root: self.cache_root@,
            archives: Set::new(|path: Seq<char>| listed(self.archives@, path)),
        }
    }
}

impl DownloadedPackages {
    /// The cache rooted at `cache_root` in which the files `archives` exist.
    pub fn from(cache_root: String, archives: Vec<String>) -> (cache: Self)
        ensures
            cache@.root == cache_root@,
            cache@.archives == Set::new(|path: Seq<char>| listed(archives@, path)),
    {
        DownloadedPackages { cache_root, archives }
    }

    /// The root directory of the cache.
    pub fn cache_root(&self) -> (root: &String)
        ensures
            root@ == self@.root,
    {
        &self.cache_root
    }

    /// The path of the archive of `package`, whether or not it is cached.
    pub fn package_path(&self, package: &PackageID) -> (path: String)
        ensures
            path@ == cache_path(self@.root, package@),
    {
        let mut file = package.name().clone();
        file.append("-");
        file.append(package.version().as_str());
        file.append(".nest");
        let in_name = join_path(package.name().as_str(), file.as_str());
        let in_category = join_path(package.category().as_str(), in_name.as_str());
        let relative = join_path(package.repository().as_str(), in_category.as_str());
        join_path(self.cache_root.as_str(), relative.as_str())
    }

    /// Checks whether a given package has already been downloaded: whether
    /// its archive is among the cached files.
    pub fn has_package(&self, package: &PackageID) -> (present: bool)
        ensures
            present == self@.has(package@),
    {
        let path = self.package_path(package);
        let mut i: usize = 0;
        while i < self.archives.len()
            invariant
                i <= self.archives.len(),
                path@ == cache_path(self@.root, package@),
                forall|j: int| 0 <= j < i ==> self.archives@[j]@ != path@,
            decreases self.archives.len() - i,
        {
            if self.archives[i] == path {
                assert(self.archives@[i as int]@ == path@);
                return true;
            }
            i += 1;
        }
        false
    }

    /// Opens a downloaded package for exploration: starts the extraction of
    /// its archive into a fresh scratch directory. An archive that is not
    /// there fails to unpack, as one that is damaged does.
    pub fn explore_package(&self, package: &PackageID) -> (extraction: Extraction)
        ensures
            extraction@.archive == cache_path(self@.root, package@),
            extraction@.stage == StageView::Creating,
            is_scratch_path("/var/run/nest"@, extraction@.scratch),
    {
        let path = self.package_path(package);
        NPFExplorer::from(path.as_str())
    }

    /// Records that the archive of `package` was written into the cache, and
    /// returns its path. Writing again over a cached archive changes nothing.
    pub fn store_package(&mut self, package: &PackageID, ownership: &LockFileOwnership) -> (path:
        String)
        ensures
            path@ == cache_path(old(self)@.root, package@),
            final(self)@ == old(self)@.after_store(package@),
    {
        let path = self.package_path(package);
        if !self.has_package(package) {
            let ghost before = self.archives@;
            self.archives.push(path.clone());
            proof {
                let after = self.archives@;
                assert(after[before.len() as int]@ == path@);
                assert forall|p: Seq<char>| listed(after, p) <==> listed(before, p) || p
                    == path@ by {
                    if listed(before, p) {
                        let i = choose|i: int| 0 <= i < before.len() && before[i]@ == p;
                        assert(after[i]@ == p);
                    }
                    if listed(after, p) {
                        let i = choose|i: int| 0 <= i < after.len() && after[i]@ == p;
                        if i < before.len() {
                            assert(before[i]@ == p);
                        }
                    }
                }
                assert(self@.archives =~= old(self)@.after_store(package@).archives);
            }
        } else {
            assert(self@.archives =~= old(self)@.after_store(package@).archives);
        }
        path
    }

    /// Removes the archive of `package` from the cache and returns the path
    /// of the file to delete. Fails, changing nothing, if no such archive is
    /// cached.
    pub fn remove_package(&mut self, package: &PackageID, ownership: &LockFileOwnership) -> (removed:
        Result<String, MissingArchive>)
        ensures
            removed is Ok <==> old(self)@.has(package@),
            removed is Ok ==> removed->Ok_0@ == cache_path(old(self)@.root, package@),
            removed is Ok ==> final(self)@ == old(self)@.after_remove(package@),
            removed is Err ==> removed->Err_0.path@ == cache_path(old(self)@.root, package@),
            removed is Err ==> final(self)@ == old(self)@,
    {
        let path = self.package_path(package);
        if !self.has_package(package) {
            return Err(MissingArchive { path });
        }
        let mut kept: Vec<String> = Vec::new();
        let mut i: usize = 0;
        while i < self.archives.len()
            invariant
                i <= self.archives.len(),
                self.archives == old(self).archives,
                forall|p: Seq<char>|
                    listed(kept@, p) <==> listed(self.archives@.take(i as int), p) && p != path@,
            decreases self.archives.len() - i,
        {
            let ghost before = kept@;
            let ghost seen = self.archives@.take(i as int);
            let ghost next = self.archives@.take(i + 1);
            if self.archives[i] != path {
                kept.push(self.archives[i].clone());
            }
            proof {
                let after = kept@;
                let entry = self.archives@[i as int]@;
                assert(next[i as int]@ == entry);
                assert forall|p: Seq<char>| listed(after, p) <==> listed(next, p) && p
                    != path@ by {
                    if listed(before, p) {
                        let j = choose|j: int| 0 <= j < before.len() && before[j]@ == p;
                        assert(after[j]@ == p);
                    }
                    if listed(seen, p) {
                        let j = choose|j: int| 0 <= j < seen.len() && seen[j]@ == p;
                        assert(next[j]@ == p);
                    }
                    if entry != path@ {
                        assert(after[before.len() as int]@ == entry);
                    }
                    if listed(after, p) {
                        let j = choose|j: int| 0 <= j < after.len() && after[j]@ == p;
                        if j < before.len() {
                            assert(before[j]@ == p);
                        }
                    }
                    if listed(next, p) {
                        let j = choose|j: int| 0 <= j < next.len() && next[j]@ == p;
                        if j < i {
                            assert(seen[j]@ == p);
                        }
                    }
                }
            }
            i += 1;
        }
        proof {
            assert(self.archives@.take(i as int) =~= self.archives@);
        }
        self.archives = kept;
        proof {
            assert(self@.archives =~= old(self)@.after_remove(package@).archives);
        }
        Ok(path)
    }
}

} // verus!
