use libnest::cache::downloaded::{DownloadedPackages, MissingArchive};
use libnest::lock_file::{LockAttempt, LockFileOwnership};
use libnest::package::PackageID;

fn id(repository: &str, category: &str, name: &str, version: &str) -> PackageID {
    PackageID::from(
        repository.to_string(),
        category.to_string(),
        name.to_string(),
        version.to_string(),
    )
}

fn lock() -> LockFileOwnership {
    LockFileOwnership::grant(LockAttempt::Acquired).expect("the lock was acquired")
}

#[test]
fn lock_is_granted_only_when_acquired() {
    assert!(LockFileOwnership::grant(LockAttempt::Acquired).is_some());
    assert!(LockFileOwnership::grant(LockAttempt::Contended).is_none());
    assert!(LockFileOwnership::grant(LockAttempt::Failed).is_none());
}

#[test]
fn identity_keeps_its_four_parts() {
    let gcc = id("stable", "sys-devel", "gcc", "9.1.0");
    assert_eq!(gcc.repository(), "stable");
    assert_eq!(gcc.category(), "sys-devel");
    assert_eq!(gcc.name(), "gcc");
    assert_eq!(gcc.version(), "9.1.0");
    assert!(gcc.same_as(&gcc.duplicate()));
    assert!(!gcc.same_as(&id("stable", "sys-devel", "gcc", "9.2.0")));
    assert!(!gcc.same_as(&id("testing", "sys-devel", "gcc", "9.1.0")));
}

#[test]
fn package_path_follows_the_layout() {
    let cache = DownloadedPackages::from("/var/cache/nest".to_string(), Vec::new());
    let path = cache.package_path(&id("stable", "sys-devel", "gcc", "9.1.0"));
    assert_eq!(path, "/var/cache/nest/stable/sys-devel/gcc/gcc-9.1.0.nest");
    assert_eq!(cache.cache_root(), "/var/cache/nest");
}

#[test]
fn package_path_is_the_same_for_the_same_identity() {
    let cache = DownloadedPackages::from("/c".to_string(), Vec::new());
    let first = cache.package_path(&id("r", "c", "n", "1"));
    let second = cache.package_path(&id("r", "c", "n", "1"));
    assert_eq!(first, second);
}

#[test]
fn package_path_differs_when_any_part_differs() {
    let cache = DownloadedPackages::from("/c".to_string(), Vec::new());
    let base = cache.package_path(&id("r", "c", "n", "1"));
    assert_ne!(base, cache.package_path(&id("x", "c", "n", "1")));
    assert_ne!(base, cache.package_path(&id("r", "x", "n", "1")));
    assert_ne!(base, cache.package_path(&id("r", "c", "x", "1")));
    assert_ne!(base, cache.package_path(&id("r", "c", "n", "2")));
    // A dash may stand in the name or in the version: the name is a
    // directory of its own, so the two do not run together.
    assert_ne!(
        cache.package_path(&id("r", "c", "a-b", "1")),
        cache.package_path(&id("r", "c", "a", "b-1"))
    );
}

#[test]
fn has_package_goes_by_the_files_present() {
    let present = vec!["/c/r/c/n/n-1.nest".to_string(), "/c/r/c/m/m-2.nest".to_string()];
    let cache = DownloadedPackages::from("/c".to_string(), present);
    assert!(cache.has_package(&id("r", "c", "n", "1")));
    assert!(cache.has_package(&id("r", "c", "m", "2")));
    assert!(!cache.has_package(&id("r", "c", "n", "2")));
    assert!(!cache.has_package(&id("r", "c", "m", "1")));
}

#[test]
fn has_package_after_store_and_after_remove() {
    let lock = lock();
    let gcc = id("stable", "sys-devel", "gcc", "9.1.0");
    let mut cache = DownloadedPackages::from("/c".to_string(), Vec::new());
    assert!(!cache.has_package(&gcc));
    let stored = cache.store_package(&gcc, &lock);
    assert_eq!(stored, "/c/stable/sys-devel/gcc/gcc-9.1.0.nest");
    assert!(cache.has_package(&gcc));
    let removed = cache.remove_package(&gcc, &lock);
    assert_eq!(removed, Ok("/c/stable/sys-devel/gcc/gcc-9.1.0.nest".to_string()));
    assert!(!cache.has_package(&gcc));
}

#[test]
fn storing_twice_is_storing_once() {
    let lock = lock();
    let gcc = id("stable", "sys-devel", "gcc", "9.1.0");
    let mut cache = DownloadedPackages::from("/c".to_string(), Vec::new());
    cache.store_package(&gcc, &lock);
    cache.store_package(&gcc, &lock);
    assert!(cache.remove_package(&gcc, &lock).is_ok());
    assert!(!cache.has_package(&gcc));
}

#[test]
fn removing_leaves_the_other_archives() {
    let lock = lock();
    let gcc = id("stable", "sys-devel", "gcc", "9.1.0");
    let vim = id("stable", "app-editors", "vim", "8.1");
    let mut cache = DownloadedPackages::from("/c".to_string(), Vec::new());
    cache.store_package(&gcc, &lock);
    cache.store_package(&vim, &lock);
    assert!(cache.remove_package(&gcc, &lock).is_ok());
    assert!(cache.has_package(&vim));
    assert!(!cache.has_package(&gcc));
}

#[test]
fn removing_what_is_not_cached_fails() {
    let lock = lock();
    let gcc = id("stable", "sys-devel", "gcc", "9.1.0");
    let vim = id("stable", "app-editors", "vim", "8.1");
    let mut cache = DownloadedPackages::from("/c".to_string(), Vec::new());
    cache.store_package(&vim, &lock);
    let removed = cache.remove_package(&gcc, &lock);
    assert_eq!(
        removed,
        Err(MissingArchive { path: "/c/stable/sys-devel/gcc/gcc-9.1.0.nest".to_string() })
    );
    assert!(cache.has_package(&vim));
}

#[test]
fn explore_package_starts_on_the_cached_archive() {
    let cache = DownloadedPackages::from("/c".to_string(), Vec::new());
    let extraction = cache.explore_package(&id("stable", "sys-devel", "gcc", "9.1.0"));
    assert_eq!(extraction.archive(), "/c/stable/sys-devel/gcc/gcc-9.1.0.nest");
    assert!(extraction.scratch().starts_with("/var/run/nest/nest_"));
}
