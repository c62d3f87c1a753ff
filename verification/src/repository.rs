//! A repository that hosts packages, as the configuration describes it.

use vstd::prelude::*;
use crate::config::RepositoryConfig;
use crate::text::texts;

verus! {

/// A repository: its name and the mirrors that serve it, in the order in
/// which they are to be tried.
#[derive(Clone, Debug, PartialEq, Eq)]
pub struct Repository {
    name: String,
    config: RepositoryConfig,
}

/// A `Repository` as plain mathematical values.
pub struct RepositoryView {
    pub name: Seq<char>,
    pub mirrors: Seq<Seq<char>>,
}

impl View for Repository {
    type V = RepositoryView;

    closed spec fn view(&self) -> RepositoryView {
        RepositoryView { name: self.name@, mirrors: self.config@ }
    }
}

impl Repository {
    /// The repository of that name and configuration.
    pub fn from(name: String, config: RepositoryConfig) -> (repository: Self)
        ensures
            repository@.name == name@,
            repository@.mirrors == config@,
    {
        Repository { name, config }
    }

    /// The name of the repository.
    pub fn name(&self) -> (name: &String)
        ensures
            name@ == self@.name,
    {
        &self.name
    }

    /// The configuration of the repository.
    pub fn config(&self) -> (config: &RepositoryConfig)
        ensures
            config@ == self@.mirrors,
    {
        &self.config
    }

    /// A copy of this repository.
    pub fn duplicate(&self) -> (copy: Self)
        ensures
            copy@ == self@,
    {
        Repository { name: self.name.clone(), config: self.config.duplicate() }
    }
}

/// The first repository of `repositories` that has the name `name`.
pub open spec fn lookup(repositories: Seq<RepositoryView>, name: Seq<char>) -> Option<RepositoryView>
    decreases repositories.len(),
{
    if repositories.len() == 0 {
        None
    } else if repositories[0].name == name {
        Some(repositories[0])
    } else {
        lookup(repositories.drop_first(), name)
    }
}

/// No two of `repositories` have the same name.
pub open spec fn distinct_names(repositories: Seq<RepositoryView>) -> bool {
    forall|i: int, j: int|
        0 <= i < j < repositories.len() ==> repositories[i].name != repositories[j].name
}

/// The views of a list of repositories, in order.
pub open spec fn repository_views(list: Seq<Repository>) -> Seq<RepositoryView> {
    list.map_values(|r: Repository| r@)
}

/// A lookup finds a repository of the name asked for, among those given;
/// it finds none only if none has that name.
pub proof fn lemma_lookup_finds(repositories: Seq<RepositoryView>, name: Seq<char>)
    ensures
        match lookup(repositories, name) {
            Some(found) => found.name == name && repositories.contains(found),
            None => forall|i: int| 0 <= i < repositories.len() ==> repositories[i].name != name,
        },
    decreases repositories.len(),
{
    if repositories.len() > 0 {
        if repositories[0].name == name {
            assert(repositories.contains(repositories[0]));
        } else {
            let rest = repositories.drop_first();
            lemma_lookup_finds(rest, name);
            match lookup(rest, name) {
                Some(found) => {
                    let i = choose|i: int| 0 <= i < rest.len() && rest[i] == found;
                    assert(repositories[i + 1] == found);
                },
                None => {
                    assert forall|i: int| 0 <= i < repositories.len() implies repositories[i].name
                        != name by {
                        if i > 0 {
                            assert(rest[i - 1] == repositories[i]);
                        }
                    }
                },
            }
        }
    }
}

} // verus!
