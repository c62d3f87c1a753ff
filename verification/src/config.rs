//! The configuration of the package manager: where its caches lie, and
//! which repositories it knows, each with its mirrors.

use vstd::prelude::*;
use crate::cache::available::AvailablePackages;
use crate::cache::downloaded::{listed, DownloadedPackages};
use crate::repository::{distinct_names, lookup, repository_views, Repository, RepositoryView};
use crate::text::{copy_texts, texts};

verus! {

/// What went wrong with a configuration file.
#[derive(Clone, Copy, Debug, PartialEq, Eq, Structural)]
pub enum ConfigErrorKind {
    /// The file could not be opened or read.
    ConfigLoadError,
    /// The file was read and is no valid configuration.
    ConfigParseError,
}

/// The paths that the package manager works under.
#[derive(Clone, Debug, PartialEq, Eq)]
pub struct ConfigPaths {
    available: String,
    downloaded: String,
}

/// A `ConfigPaths` as two texts.
pub struct ConfigPathsView {
    pub available: Seq<char>,
    pub downloaded: Seq<char>,
}

impl View for ConfigPaths {
    type V = ConfigPathsView;

    closed spec fn view(&self) -> ConfigPathsView {
        ConfigPathsView { available: self.available@, downloaded: self.downloaded@ }
    }
}

impl ConfigPaths {
    /// The paths with the given cache roots.
    pub fn new(available: String, downloaded: String) -> (paths: Self)
        ensures
            paths@.available == available@,
            paths@.downloaded == downloaded@,
    {
        ConfigPaths { available, downloaded }
    }

    /// The root of the cache of available packages.
    pub fn available(&self) -> (path: &String)
        ensures
            path@ == self@.available,
    {
        &self.available
    }

    /// The root of the cache of downloaded packages.
    pub fn downloaded(&self) -> (path: &String)
        ensures
            path@ == self@.downloaded,
    {
        &self.downloaded
    }
}

/// The configuration of one repository: the addresses of its mirrors, in
/// the order in which they are to be tried.
#[derive(Clone, Debug, PartialEq, Eq)]
pub struct RepositoryConfig {
    mirrors: Vec<String>,
}

impl View for RepositoryConfig {
    type V = Seq<Seq<char>>;

    closed spec fn view(&self) -> Seq<Seq<char>> {
        texts(self.mirrors@)
    }
}

impl RepositoryConfig {
    /// The configuration with these mirrors.
    pub fn new(mirrors: Vec<String>) -> (config: Self)
        ensures
            config@ == texts(mirrors@),
    {
        RepositoryConfig { mirrors }
    }

    /// The mirrors, in the order in which they are to be tried.
    pub fn mirrors(&self) -> (mirrors: &Vec<String>)
        ensures
            texts(mirrors@) == self@,
    {
        &self.mirrors
    }

    /// A copy of this configuration.
    pub fn duplicate(&self) -> (copy: Self)
        ensures
            copy@ == self@,
    {
        RepositoryConfig { mirrors: copy_texts(&self.mirrors) }
    }
}

/// A handle to represent a configuration for Nest. No two of its
/// repositories have the same name.
#[derive(Debug, PartialEq, Eq)]
pub struct Config {
    paths: ConfigPaths,
    repositories: Vec<Repository>,
}

/// A `Config` as plain mathematical values.
pub struct ConfigView {
    pub paths: ConfigPathsView,
    pub repositories: Seq<RepositoryView>,
}

impl ConfigView {
    /// The configuration in which the repository `name` has the mirrors
    /// `mirrors`: in place of the one it had, or as a new last repository.
    pub open spec fn with_repository(self, name: Seq<char>, mirrors: Seq<Seq<char>>) -> ConfigView {
        let entry = RepositoryView { name, mirrors };
        ConfigView {
            paths: self.paths,
            repositories: if exists|i: int| self.names(i, name) {
                self.repositories.update(choose|i: int| self.names(i, name), entry)
            } else {
                self.repositories.push(entry)
            },
        }
    }

    /// Whether the repository at `i` has the name `name`.
    pub open spec fn names(self, i: int, name: Seq<char>) -> bool {
        0 <= i < self.repositories.len() && self.repositories[i].name == name
    }
}

impl View for Config {
    type V = ConfigView;

    closed spec fn view(&self) -> ConfigView {
        ConfigView { paths: self.paths@, repositories: repository_views(self.repositories@) }
    }
}

impl Config {
    #[verifier::type_invariant]
    spec fn valid(&self) -> bool {
        distinct_names(repository_views(self.repositories@))
    }

    /// A configuration with these paths and no repository.
    pub fn new(paths: ConfigPaths) -> (config: Self)
        ensures
            config@.paths == paths@,
            config@.repositories.len() == 0,
    {
        Config { paths, repositories: Vec::new() }
    }

    /// Returns a reference to an intermediate structure holding all
    /// important paths that are used by `libnest`.
    pub fn paths(&self) -> (paths: &ConfigPaths)
        ensures
            paths@ == self@.paths,
    {
        &self.paths
    }

    /// Replaces the paths.
    pub fn set_paths(&mut self, paths: ConfigPaths)
        ensures
            final(self)@.paths == paths@,
            final(self)@.repositories == old(self)@.repositories,
    {
        proof {
            use_type_invariant(&*self);
        }
        self.paths = paths;
    }

    /// Returns the repositories with their configurations. No two have the
    /// same name.
    pub fn repositories_config(&self) -> (repositories: &Vec<Repository>)
        ensures
            repository_views(repositories@) == self@.repositories,
            distinct_names(self@.repositories),
    {
        proof {
            use_type_invariant(self);
        }
        &self.repositories
    }

    /// Returns a vector containing a description of each `Repository`.
    pub fn repositories(&self) -> (copy: Vec<Repository>)
        ensures
            repository_views(copy@) == self@.repositories,
            distinct_names(self@.repositories),
    {
        proof {
            use_type_invariant(self);
        }
        let mut copy: Vec<Repository> = Vec::new();
        let mut i: usize = 0;
        while i < self.repositories.len()
            invariant
                i <= self.repositories.len(),
                copy@.len() == i,
                forall|j: int| 0 <= j < i ==> copy@[j]@ == self.repositories@[j]@,
            decreases self.repositories.len() - i,
        {
            copy.push(self.repositories[i].duplicate());
            i += 1;
        }
        proof {
            assert(repository_views(copy@) =~= repository_views(self.repositories@));
        }
        copy
    }

    /// Where the repository named `name` stands among the repositories.
    fn position(&self, name: &String) -> (at: Option<usize>)
        ensures
            match at {
                Some(i) => self@.names(i as int, name@) && lookup(self@.repositories, name@)
                    == Some(self@.repositories[i as int]),
                None => lookup(self@.repositories, name@) is None && !exists|i: int|
                    self@.names(i, name@),
            },
    {
        let ghost all = repository_views(self.repositories@);
        proof {
            assert(all.skip(0) =~= all);
        }
        let mut i: usize = 0;
        while i < self.repositories.len()
            invariant
                i <= self.repositories.len(),
                all == repository_views(self.repositories@),
                lookup(all, name@) == lookup(all.skip(i as int), name@),
                forall|j: int| 0 <= j < i ==> all[j].name != name@,
            decreases self.repositories.len() - i,
        {
            let ghost rest = all.skip(i as int);
            proof {
                assert(rest[0] == all[i as int]);
                assert(rest.drop_first() =~= all.skip(i + 1));
            }
            if *self.repositories[i].name() == *name {
                return Some(i);
            }
            i += 1;
        }
        proof {
            assert(all.skip(i as int).len() == 0);
        }
        None
    }

    /// The repository named `name`, if the configuration has one.
    pub fn repository(&self, name: &String) -> (found: Option<&Repository>)
        ensures
            match found {
                Some(repository) => lookup(self@.repositories, name@) == Some(repository@),
                None => lookup(self@.repositories, name@) is None,
            },
    {
        match self.position(name) {
            Some(i) => Some(&self.repositories[i]),
            None => None,
        }
    }

    /// Gives the repository `name` the configuration `config`: in place of
    /// the one it had, or as a new repository.
    pub fn add_repository(&mut self, name: String, config: RepositoryConfig)
        ensures
            final(self)@ == old(self)@.with_repository(name@, config@),
    {
        proof {
            use_type_invariant(&*self);
        }
        let ghost before = repository_views(self.repositories@);
        let ghost entry = RepositoryView { name: name@, mirrors: config@ };
        let at = self.position(&name);
        let repository = Repository::from(name, config);
        assert(repository@ == entry);
        let mut list: Vec<Repository> = Vec::new();
        std::mem::swap(&mut self.repositories, &mut list);
        match at {
            Some(i) => {
                proof {
                    let chosen = choose|k: int| old(self)@.names(k, entry.name);
                    if chosen != i as int {
                        if chosen < i {
                            assert(before[chosen].name != before[i as int].name);
                        } else {
                            assert(before[i as int].name != before[chosen].name);
                        }
                    }
                    assert(repository_views(list@.update(i as int, repository)) =~= before.update(
                        i as int,
                        entry,
                    ));
                    assert(distinct_names(before.update(i as int, entry))) by {
                        let after = before.update(i as int, entry);
                        assert forall|a: int, b: int| 0 <= a < b < after.len() implies after[a].name
                            != after[b].name by {
                            assert(before[a].name != before[b].name);
                        }
                    }
                }
                list.set(i, repository);
            },
            None => {
                proof {
                    assert(repository_views(list@.push(repository)) =~= before.push(entry));
                    assert(distinct_names(before.push(entry))) by {
                        let after = before.push(entry);
                        assert forall|a: int, b: int| 0 <= a < b < after.len() implies after[a].name
                            != after[b].name by {
                            if b < before.len() {
                                assert(before[a].name != before[b].name);
                            } else {
                                assert(!old(self)@.names(a, entry.name));
                            }
                        }
                    }
                }
                list.push(repository);
            },
        }
        self.repositories = list;
    }

    /// Returns a handle over the cache containing available packages.
    pub fn available_packages_cache(&self) -> (cache: AvailablePackages)
        ensures
            cache@ == self@.paths.available,
    {
        AvailablePackages::from(self.paths.available().clone())
    }

    /// Returns a handle over the cache of downloaded packages, in which the
    /// files `archives` exist.
    pub fn downloaded_packages_cache(&self, archives: Vec<String>) -> (cache: DownloadedPackages)
        ensures
            cache@.root == self@.paths.downloaded,
            cache@.archives == Set::new(|path: Seq<char>| listed(archives@, path)),
    {
        DownloadedPackages::from(self.paths.downloaded().clone(), archives)
    }
}

} // verus!
