//! The installation of one package, step by step: find its repository,
//! download its archive from the first mirror that serves it, explore the
//! archive, run the instructions it carries, and commit.
//!
//! A transaction performs nothing itself. It names the action that comes
//! next; the caller performs it and reports how it ended.

use vstd::prelude::*;
use crate::cache::downloaded::cache_path;
use crate::config::{Config, ConfigView};
use crate::lock_file::LockFileOwnership;
use crate::package::{ExplorationFailure, NPFExplorationError, NPFExplorationErrorKind, PackageID,
    PackageIDView};
use crate::repository::{lemma_lookup_finds, lookup, Repository};
use crate::text::{copy_texts, join_path, texts};
use crate::transaction::instructions::InstructionsExecutor;

verus! {

/// Why an installation failed.
#[derive(Clone, Debug, PartialEq, Eq)]
pub enum InstallErrorKind {
    /// No repository of this name is configured.
    RepositoryNotFound(String),
    /// No mirror of the repository of this name served the archive.
    DownloadFailed(String),
    /// The archive could not be explored.
    ExtractionFailed(NPFExplorationErrorKind),
    /// The instructions of the package failed.
    ExecutionFailed,
}

/// An `InstallErrorKind` as plain mathematical values.
pub enum InstallFailure {
    RepositoryNotFound(Seq<char>),
    Download(Seq<char>),
    Extraction(ExplorationFailure),
    Execution,
}

impl InstallFailure {
    /// What to tell the user.
    pub open spec fn message(self) -> Seq<char> {
        match self {
            InstallFailure::RepositoryNotFound(name) => "unable to find repository '"@ + name
                + "'"@,
            InstallFailure::Download(name) => "unable to download package from repository '"@
                + name + "'"@,
            InstallFailure::Extraction(_) => "unable to extract package"@,
            InstallFailure::Execution => "unable to execute the instructions of the package"@,
        }
    }
}

impl View for InstallErrorKind {
    type V = InstallFailure;

    open spec fn view(&self) -> InstallFailure {
        match self {
            InstallErrorKind::RepositoryNotFound(name) => InstallFailure::RepositoryNotFound(name@),
            InstallErrorKind::DownloadFailed(name) => InstallFailure::Download(name@),
            InstallErrorKind::ExtractionFailed(kind) => InstallFailure::Extraction(kind@),
            InstallErrorKind::ExecutionFailed => InstallFailure::Execution,
        }
    }
}

impl InstallErrorKind {
    /// What to tell the user.
    pub fn message(&self) -> (text: String)
        ensures
            text@ == self@.message(),
    {
        match self {
            InstallErrorKind::RepositoryNotFound(name) => {
                let mut text = String::from_str("unable to find repository '");
                text.append(name.as_str());
                text.append("'");
                text
            },
            InstallErrorKind::DownloadFailed(name) => {
                let mut text = String::from_str("unable to download package from repository '");
                text.append(name.as_str());
                text.append("'");
                text
            },
            InstallErrorKind::ExtractionFailed(_) => String::from_str("unable to extract package"),
            InstallErrorKind::ExecutionFailed => String::from_str(
                "unable to execute the instructions of the package",
            ),
        }
    }

    /// A copy of this kind.
    pub fn duplicate(&self) -> (copy: Self)
        ensures
            copy@ == self@,
    {
        match self {
            InstallErrorKind::RepositoryNotFound(name) => InstallErrorKind::RepositoryNotFound(
                name.clone(),
            ),
            InstallErrorKind::DownloadFailed(name) => InstallErrorKind::DownloadFailed(name.clone()),
            InstallErrorKind::ExtractionFailed(kind) => InstallErrorKind::ExtractionFailed(
                match kind {
                    NPFExplorationErrorKind::UnpackError => NPFExplorationErrorKind::UnpackError,
                    NPFExplorationErrorKind::MissingManifest => {
                        NPFExplorationErrorKind::MissingManifest
                    },
                    NPFExplorationErrorKind::InvalidManifest => {
                        NPFExplorationErrorKind::InvalidManifest
                    },
                    NPFExplorationErrorKind::FileNotFound(path) => {
                        NPFExplorationErrorKind::FileNotFound(path.clone())
                    },
                    NPFExplorationErrorKind::FileIOError(path) => {
                        NPFExplorationErrorKind::FileIOError(path.clone())
                    },
                },
            ),
            InstallErrorKind::ExecutionFailed => InstallErrorKind::ExecutionFailed,
        }
    }
}

/// How far a transaction has come. Once the instructions have run, or if
/// there are none, the transaction is committed: nothing lies between.
#[derive(Clone, Debug, PartialEq, Eq)]
pub enum Phase {
    /// Nothing was done yet.
    Created,
    /// The repository is known; the archive is being fetched from `mirror`,
    /// and the mirrors `untried` come after it.
    RepositoryResolved { mirror: String, untried: Vec<String> },
    /// The archive is in the cache and is being explored.
    Downloaded,
    /// The archive is unpacked and these instructions of it are running.
    Extracted(InstructionsExecutor),
    /// The package is installed.
    Committed,
    /// The installation failed.
    Failed(InstallErrorKind),
}

/// A `Phase` as plain mathematical values.
pub enum PhaseView {
    Created,
    RepositoryResolved { mirror: Seq<char>, untried: Seq<Seq<char>> },
    Downloaded,
    Extracted(Seq<char>),
    Committed,
    Failed(InstallFailure),
}

impl View for Phase {
    type V = PhaseView;

    open spec fn view(&self) -> PhaseView {
        match self {
            Phase::Created => PhaseView::Created,
            Phase::RepositoryResolved { mirror, untried } => PhaseView::RepositoryResolved {
                mirror: mirror@,
                untried: texts(untried@),
            },
            Phase::Downloaded => PhaseView::Downloaded,
            Phase::Extracted(instructions) => PhaseView::Extracted(instructions@),
            Phase::Committed => PhaseView::Committed,
            Phase::Failed(kind) => PhaseView::Failed(kind@),
        }
    }
}

/// What the caller reports to a transaction.
#[derive(Debug, PartialEq, Eq)]
pub enum InstallEvent {
    /// The installation is to begin.
    Started,
    /// Whether the mirror served the archive.
    Fetched(bool),
    /// How exploring the archive ended: with the instructions it carries,
    /// if any, or with an error.
    Explored(Result<Option<InstructionsExecutor>, NPFExplorationError>),
    /// Whether the instructions ran to their end.
    Executed(bool),
}

/// An `InstallEvent` as plain mathematical values.
pub enum InstallEventView {
    Started,
    Fetched(bool),
    Explored(Result<Option<Seq<char>>, ExplorationFailure>),
    Executed(bool),
}

impl View for InstallEvent {
    type V = InstallEventView;

    open spec fn view(&self) -> InstallEventView {
        match self {
            InstallEvent::Started => InstallEventView::Started,
            InstallEvent::Fetched(done) => InstallEventView::Fetched(*done),
            InstallEvent::Explored(Ok(Some(instructions))) => InstallEventView::Explored(
                Ok(Some(instructions@)),
            ),
            InstallEvent::Explored(Ok(None)) => InstallEventView::Explored(Ok(None)),
            InstallEvent::Explored(Err(error)) => InstallEventView::Explored(Err(error@)),
            InstallEvent::Executed(done) => InstallEventView::Executed(*done),
        }
    }
}

/// What the caller is to do next.
#[derive(Clone, Debug, PartialEq, Eq)]
pub enum InstallAction {
    /// Report `Started`.
    Start,
    /// Request `request` from `mirror` and write the answer into a fresh
    /// file at `destination`.
    Fetch { mirror: String, request: String, destination: String },
    /// Explore the archive at `archive` and load its instructions.
    Explore { archive: String },
    /// Run these instructions.
    Execute(InstructionsExecutor),
    /// Report that the package is installed.
    Succeed,
    /// Report that the installation failed.
    Fail(InstallErrorKind),
}

/// An `InstallAction` as plain mathematical values.
pub enum InstallActionView {
    Start,
    Fetch { mirror: Seq<char>, request: Seq<char>, destination: Seq<char> },
    Explore { archive: Seq<char> },
    Execute(Seq<char>),
    Succeed,
    Fail(InstallFailure),
}

impl View for InstallAction {
    type V = InstallActionView;

    open spec fn view(&self) -> InstallActionView {
        match self {
            InstallAction::Start => InstallActionView::Start,
            InstallAction::Fetch { mirror, request, destination } => InstallActionView::Fetch {
                mirror: mirror@,
                request: request@,
                destination: destination@,
            },
            InstallAction::Explore { archive } => InstallActionView::Explore { archive: archive@ },
            InstallAction::Execute(instructions) => InstallActionView::Execute(instructions@),
            InstallAction::Succeed => InstallActionView::Succeed,
            InstallAction::Fail(kind) => InstallActionView::Fail(kind@),
        }
    }
}

/// The request that fetches the archive of a package from a mirror:
/// `api/p/category/name/version/download`.
pub open spec fn download_request(id: PackageIDView) -> Seq<char> {
    "api/p/"@ + id.category + "/"@ + id.name + "/"@ + id.version + "/download"@
}

/// The phase in which the first of `mirrors` is tried; with no mirror left,
/// the download has failed.
pub open spec fn fetching(target: PackageIDView, mirrors: Seq<Seq<char>>) -> PhaseView {
    if mirrors.len() == 0 {
        PhaseView::Failed(InstallFailure::Download(target.repository))
    } else {
        PhaseView::RepositoryResolved { mirror: mirrors[0], untried: mirrors.drop_first() }
    }
}

/// An `InstallTransaction` as plain mathematical values.
pub struct TransactionView {
    pub target: PackageIDView,
    pub phase: PhaseView,
}

impl TransactionView {
    /// A transaction for `target` on which nothing was done yet.
    pub open spec fn fresh(target: PackageIDView) -> TransactionView {
        TransactionView { target, phase: PhaseView::Created }
    }

    /// The same transaction in another phase.
    pub open spec fn at(self, phase: PhaseView) -> TransactionView {
        TransactionView { target: self.target, phase }
    }

    /// Whether the transaction has come to its end.
    pub open spec fn is_settled(self) -> bool {
        self.phase is Committed || self.phase is Failed
    }

    /// The action that the phase calls for, with the cache of downloaded
    /// packages rooted at `cache_root`.
    pub open spec fn pending(self, cache_root: Seq<char>) -> InstallActionView {
        match self.phase {
            PhaseView::Created => InstallActionView::Start,
            PhaseView::RepositoryResolved { mirror, untried } => InstallActionView::Fetch {
                mirror,
                request: download_request(self.target),
                destination: cache_path(cache_root, self.target),
            },
            PhaseView::Downloaded => InstallActionView::Explore {
                archive: cache_path(cache_root, self.target),
            },
            PhaseView::Extracted(instructions) => InstallActionView::Execute(instructions),
            PhaseView::Committed => InstallActionView::Succeed,
            PhaseView::Failed(failure) => InstallActionView::Fail(failure),
        }
    }

    /// The transaction once `event` was reported. An event that does not
    /// answer the pending action changes nothing.
    pub open spec fn after(self, config: ConfigView, event: InstallEventView) -> TransactionView {
        match (self.phase, event) {
            (PhaseView::Created, InstallEventView::Started) => match lookup(
                config.repositories,
                self.target.repository,
            ) {
                Some(repository) => self.at(fetching(self.target, repository.mirrors)),
                None => self.at(
                    PhaseView::Failed(InstallFailure::RepositoryNotFound(self.target.repository)),
                ),
            },
            (PhaseView::RepositoryResolved { mirror, untried }, InstallEventView::Fetched(true)) => {
                self.at(PhaseView::Downloaded)
            },
            (
                PhaseView::RepositoryResolved { mirror, untried },
                InstallEventView::Fetched(false),
            ) => self.at(fetching(self.target, untried)),
            (PhaseView::Downloaded, InstallEventView::Explored(Ok(Some(instructions)))) => self.at(
                PhaseView::Extracted(instructions),
            ),
            (PhaseView::Downloaded, InstallEventView::Explored(Ok(None))) => self.at(
                PhaseView::Committed,
            ),
            (PhaseView::Downloaded, InstallEventView::Explored(Err(failure))) => self.at(
                PhaseView::Failed(InstallFailure::Extraction(failure)),
            ),
            (PhaseView::Extracted(_), InstallEventView::Executed(true)) => self.at(
                PhaseView::Committed,
            ),
            (PhaseView::Extracted(_), InstallEventView::Executed(false)) => self.at(
                PhaseView::Failed(InstallFailure::Execution),
            ),
            _ => self,
        }
    }
}

/// The transaction once each of `events` was reported, one after another.
pub open spec fn drive(
    transaction: TransactionView,
    config: ConfigView,
    events: Seq<InstallEventView>,
) -> TransactionView
    decreases events.len(),
{
    if events.len() == 0 {
        transaction
    } else {
        drive(transaction.after(config, events[0]), config, events.drop_first())
    }
}

/// `count` fetches in a row that all failed.
pub open spec fn failures(count: nat) -> Seq<InstallEventView> {
    Seq::new(count, |i: int| InstallEventView::Fetched(false))
}

/// Reporting one more event is one more step.
pub proof fn lemma_drive_push(
    transaction: TransactionView,
    config: ConfigView,
    events: Seq<InstallEventView>,
    last: InstallEventView,
)
    ensures
        drive(transaction, config, events.push(last)) == drive(transaction, config, events).after(
            config,
            last,
        ),
    decreases events.len(),
{
    if events.len() == 0 {
        assert(events.push(last).drop_first() =~= events);
        assert(drive(transaction.after(config, last), config, events) == transaction.after(
            config,
            last,
        ));
    } else {
        assert(events.push(last).drop_first() =~= events.drop_first().push(last));
        lemma_drive_push(
            transaction.after(config, events[0]),
            config,
            events.drop_first(),
            last,
        );
    }
}

/// A transaction that has ended stays as it is, whatever is reported.
pub proof fn lemma_settled_stays(
    transaction: TransactionView,
    config: ConfigView,
    events: Seq<InstallEventView>,
)
    requires
        transaction.is_settled(),
    ensures
        drive(transaction, config, events) == transaction,
    decreases events.len(),
{
    if events.len() > 0 {
        lemma_settled_stays(transaction, config, events.drop_first());
    }
}

/// Mirrors are tried one after another, in their order: while fetches
/// fail, the transaction moves from each mirror to the one after it.
pub proof fn lemma_failed_fetches_move_on(
    transaction: TransactionView,
    config: ConfigView,
    mirrors: Seq<Seq<char>>,
    count: nat,
)
    requires
        transaction.phase == fetching(transaction.target, mirrors),
        count <= mirrors.len(),
    ensures
        drive(transaction, config, failures(count)) == transaction.at(
            fetching(transaction.target, mirrors.skip(count as int)),
        ),
    decreases count,
{
    if count == 0 {
        assert(mirrors.skip(0) =~= mirrors);
    } else {
        let next = transaction.after(config, InstallEventView::Fetched(false));
        assert(failures(count).drop_first() =~= failures((count - 1) as nat));
        assert(mirrors.drop_first().skip(count - 1) =~= mirrors.skip(count as int));
        lemma_failed_fetches_move_on(next, config, mirrors.drop_first(), (count - 1) as nat);
    }
}

/// If every mirror but the last fails and the last one serves the archive,
/// the download succeeds, and the fetch that served it asked the last
/// mirror. If every mirror fails, the transaction fails with a download
/// error that names the repository.
pub proof fn lemma_last_mirror_serves(
    transaction: TransactionView,
    config: ConfigView,
    mirrors: Seq<Seq<char>>,
    cache_root: Seq<char>,
)
    requires
        mirrors.len() > 0,
        transaction.phase == fetching(transaction.target, mirrors),
    ensures
        drive(transaction, config, failures((mirrors.len() - 1) as nat)).pending(cache_root)
            == (InstallActionView::Fetch {
            mirror: mirrors.last(),
            request: download_request(transaction.target),
            destination: cache_path(cache_root, transaction.target),
        }),
        drive(
            transaction,
            config,
            failures((mirrors.len() - 1) as nat).push(InstallEventView::Fetched(true)),
        ) == transaction.at(PhaseView::Downloaded),
        drive(transaction, config, failures(mirrors.len())) == transaction.at(
            PhaseView::Failed(InstallFailure::Download(transaction.target.repository)),
        ),
{
    let most = (mirrors.len() - 1) as nat;
    lemma_failed_fetches_move_on(transaction, config, mirrors, most);
    lemma_failed_fetches_move_on(transaction, config, mirrors, mirrors.len());
    lemma_drive_push(transaction, config, failures(most), InstallEventView::Fetched(true));
    assert(mirrors.skip(most as int)[0] == mirrors.last());
}

/// An earlier attempt leaves nothing behind: a new transaction for the same
/// target, in a configuration that has the target's repository with a
/// mirror, is committed once a mirror serves the archive, the archive is
/// explored and its instructions, if it has any, have run. This holds
/// however the earlier attempt went.
pub proof fn lemma_rerun_commits(
    earlier: TransactionView,
    config: ConfigView,
    failed_mirrors: nat,
    instructions: Option<Seq<char>>,
)
    requires
        earlier.phase is Failed,
        lookup(config.repositories, earlier.target.repository) matches Some(repository)
            && failed_mirrors < repository.mirrors.len(),
    ensures
        ({
            let again = TransactionView::fresh(earlier.target);
            let downloaded = drive(
                again.after(config, InstallEventView::Started),
                config,
                failures(failed_mirrors).push(InstallEventView::Fetched(true)),
            );
            let explored = downloaded.after(config, InstallEventView::Explored(Ok(instructions)));
            &&& downloaded == again.at(PhaseView::Downloaded)
            &&& instructions is None ==> explored == again.at(PhaseView::Committed)
            &&& instructions is Some ==> explored.after(config, InstallEventView::Executed(true))
                == again.at(PhaseView::Committed)
        }),
{
    let again = TransactionView::fresh(earlier.target);
    let started = again.after(config, InstallEventView::Started);
    let repository = lookup(config.repositories, earlier.target.repository)->Some_0;
    lemma_failed_fetches_move_on(started, config, repository.mirrors, failed_mirrors);
    lemma_drive_push(
        started,
        config,
        failures(failed_mirrors),
        InstallEventView::Fetched(true),
    );
}

/// A download error names the repository that hosts the target, which is
/// the one whose mirrors were tried.
pub proof fn lemma_download_error_names_repository(
    target: PackageIDView,
    config: ConfigView,
)
    requires
        lookup(config.repositories, target.repository) is Some,
    ensures
        ({
            let repository = lookup(config.repositories, target.repository)->Some_0;
            &&& repository.name == target.repository
            &&& drive(
                TransactionView::fresh(target),
                config,
                seq![InstallEventView::Started] + failures(repository.mirrors.len()),
            ) == TransactionView::fresh(target).at(
                PhaseView::Failed(InstallFailure::Download(repository.name)),
            )
        }),
{
    let repository = lookup(config.repositories, target.repository)->Some_0;
    let fresh = TransactionView::fresh(target);
    let started = fresh.after(config, InstallEventView::Started);
    let events = seq![InstallEventView::Started] + failures(repository.mirrors.len());
    lemma_lookup_finds(config.repositories, target.repository);
    lemma_failed_fetches_move_on(started, config, repository.mirrors, repository.mirrors.len());
    assert(events.drop_first() =~= failures(repository.mirrors.len()));
    assert(events[0] == InstallEventView::Started);
}

/// The installation of one package.
#[derive(Clone, Debug, PartialEq, Eq)]
pub struct InstallTransaction {
    target: PackageID,
    phase: Phase,
}

impl View for InstallTransaction {
    type V = TransactionView;

    closed spec fn view(&self) -> TransactionView {
        TransactionView { target: self.target@, phase: self.phase@ }
    }
}

/// The phase in which the first of `mirrors` is tried.
fn start_fetching(target: &PackageID, mirrors: Vec<String>) -> (phase: Phase)
    ensures
        phase@ == fetching(target@, texts(mirrors@)),
{
    let mut mirrors = mirrors;
    if mirrors.len() == 0 {
        Phase::Failed(InstallErrorKind::DownloadFailed(target.repository().clone()))
    } else {
        let ghost all = mirrors@;
        let mirror = mirrors.remove(0);
        proof {
            assert(texts(mirrors@) =~= texts(all).drop_first());
        }
        Phase::RepositoryResolved { mirror, untried: mirrors }
    }
}

impl InstallTransaction {
    /// A transaction that will install `target`.
    pub fn from(target: PackageID) -> (transaction: Self)
        ensures
            transaction@ == TransactionView::fresh(target@),
    {
        InstallTransaction { target, phase: Phase::Created }
    }

    /// The package to install.
    pub fn target(&self) -> (target: &PackageID)
        ensures
            target@ == self@.target,
    {
        &self.target
    }

    /// How far the transaction has come.
    pub fn phase(&self) -> (phase: &Phase)
        ensures
            phase@ == self@.phase,
    {
        &self.phase
    }

    /// Finds the repository that hosts the target among those configured.
    pub fn resolve_repository<'a>(&self, config: &'a Config) -> (found: Result<
        &'a Repository,
        InstallErrorKind,
    >)
        ensures
            match found {
                Ok(repository) => lookup(config@.repositories, self@.target.repository) == Some(
                    repository@,
                ),
                Err(kind) => lookup(config@.repositories, self@.target.repository) is None && kind@
                    == InstallFailure::RepositoryNotFound(self@.target.repository),
            },
    {
        match config.repository(self.target.repository()) {
            Some(repository) => Ok(repository),
            None => Err(InstallErrorKind::RepositoryNotFound(self.target.repository().clone())),
        }
    }

    /// The request that fetches the target's archive from a mirror.
    pub fn build_download_request(&self) -> (request: String)
        ensures
            request@ == download_request(self@.target),
    {
        let mut request = String::from_str("api/p/");
        request.append(self.target.category().as_str());
        request.append("/");
        request.append(self.target.name().as_str());
        request.append("/");
        request.append(self.target.version().as_str());
        request.append("/download");
        request
    }

    /// The file in the cache of downloaded packages that the target's
    /// archive is written to and explored from.
    pub fn download_destination(&self, config: &Config) -> (path: String)
        ensures
            path@ == cache_path(config@.paths.downloaded, self@.target),
    {
        config.downloaded_packages_cache(Vec::new()).package_path(&self.target)
    }

    /// The action to perform next.
    pub fn pending(&self, config: &Config) -> (action: InstallAction)
        ensures
            action@ == self@.pending(config@.paths.downloaded),
    {
        match &self.phase {
            Phase::Created => InstallAction::Start,
            Phase::RepositoryResolved { mirror, untried } => InstallAction::Fetch {
                mirror: mirror.clone(),
                request: self.build_download_request(),
                destination: self.download_destination(config),
            },
            Phase::Downloaded => InstallAction::Explore {
                archive: self.download_destination(config),
            },
            Phase::Extracted(instructions) => InstallAction::Execute(instructions.duplicate()),
            Phase::Committed => InstallAction::Succeed,
            Phase::Failed(kind) => InstallAction::Fail(kind.duplicate()),
        }
    }

    /// Takes the outcome of the pending action and moves on. The caller
    /// holds the lock of the package store.
    pub fn advance(&mut self, config: &Config, ownership: &LockFileOwnership, event: InstallEvent)
        ensures
            final(self)@ == old(self)@.after(config@, event@),
    {
        let mut phase = Phase::Created;
        std::mem::swap(&mut self.phase, &mut phase);
        let next = match phase {
            Phase::Created => match event {
                InstallEvent::Started => match self.resolve_repository(config) {
                    Ok(repository) => start_fetching(
                        &self.target,
                        copy_texts(repository.config().mirrors()),
                    ),
                    Err(kind) => Phase::Failed(kind),
                },
                _ => Phase::Created,
            },
            Phase::RepositoryResolved { mirror, untried } => match event {
                InstallEvent::Fetched(true) => Phase::Downloaded,
                InstallEvent::Fetched(false) => start_fetching(&self.target, untried),
                _ => Phase::RepositoryResolved { mirror, untried },
            },
            Phase::Downloaded => match event {
                InstallEvent::Explored(Ok(Some(instructions))) => Phase::Extracted(instructions),
                InstallEvent::Explored(Ok(None)) => Phase::Committed,
                InstallEvent::Explored(Err(error)) => Phase::Failed(
                    InstallErrorKind::ExtractionFailed(error.into_kind()),
                ),
                _ => Phase::Downloaded,
            },
            Phase::Extracted(instructions) => match event {
                InstallEvent::Executed(true) => Phase::Committed,
                InstallEvent::Executed(false) => Phase::Failed(InstallErrorKind::ExecutionFailed),
                _ => Phase::Extracted(instructions),
            },
            Phase::Committed => Phase::Committed,
            Phase::Failed(kind) => Phase::Failed(kind),
        };
        self.phase = next;
    }
}

/// Drives the installation of the target of `trans` one step: takes the
/// outcome of the action performed last, and returns the action to perform
/// next. Begin by reporting `Started`; the installation has ended when the
/// action is `Succeed` or `Fail`.
pub fn install_package(
    config: &Config,
    trans: &mut InstallTransaction,
    ownership: &LockFileOwnership,
    event: InstallEvent,
) -> (action: InstallAction)
    ensures
        final(trans)@ == old(trans)@.after(config@, event@),
        action@ == final(trans)@.pending(config@.paths.downloaded),
{
    trans.advance(config, ownership, event);
    trans.pending(config)
}

} // verus!
