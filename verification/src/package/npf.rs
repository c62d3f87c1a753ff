//! Exploring an archive: unpacking it into a scratch directory of its own,
//! loading its manifest, and looking up its members.
//!
//! Nothing here touches the disk. An `Extraction` says which action comes
//! next; the caller performs it and reports how it ended. Once the manifest
//! is loaded the extraction yields an `NPFExplorer`, whose scratch directory
//! is removed when it is closed.

use std::marker::PhantomData;
use vstd::prelude::*;
use crate::package::error::{ExplorationFailure, NPFExplorationError, NPFExplorationErrorKind};
use crate::package::manifest::{Kind, Manifest, ManifestView};
use crate::text::{join, join_path, push_char};
use crate::transaction::InstructionsExecutor;
use rand::Rng;
use vstd::utf8::{encode_utf8, valid_utf8};

verus! {

/// The generator of random numbers that `rand` keeps for each thread.
#[verifier::external_type_specification]
#[verifier::external_body]
pub struct ExThreadRng(rand::rngs::ThreadRng);

/// `rand::thread_rng`: a handle to the thread's generator. Nothing is known
/// of the numbers it will give. It panics where the system gives the
/// generator no seed.
pub assume_specification[ rand::thread_rng ]() -> (rng: rand::rngs::ThreadRng);

/// One of the 62 characters `A`-`Z`, `a`-`z` and `0`-`9`.
pub open spec fn is_alphanumeric(c: char) -> bool {
    ('A' <= c && c <= 'Z') || ('a' <= c && c <= 'z') || ('0' <= c && c <= '9')
}

/// `Rng::sample` of `rand` with its `Alphanumeric` distribution: whichever
/// character is drawn, it is one of the 62 that the distribution picks from.
#[verifier::external_body]
fn sample_alphanumeric(rng: &mut rand::rngs::ThreadRng) -> (c: char)
    ensures
        is_alphanumeric(c),
{
    rng.sample(rand::distributions::Alphanumeric)
}

/// The name of a scratch directory: `nest_` and ten random characters.
pub open spec fn is_scratch_name(name: Seq<char>) -> bool {
    let prefix = "nest_"@;
    &&& name.len() == prefix.len() + 10
    &&& name.take(prefix.len() as int) == prefix
    &&& forall|i: int| prefix.len() <= i < name.len() ==> is_alphanumeric(name[i])
}

/// A scratch directory directly under `base`.
pub open spec fn is_scratch_path(base: Seq<char>, path: Seq<char>) -> bool {
    let name = path.skip((base.len() + 1) as int);
    &&& path == join(base, name)
    &&& is_scratch_name(name)
}

/// How reading a manifest from an unpacked archive ended.
#[derive(Clone, Debug, PartialEq, Eq)]
pub enum ManifestRead {
    /// The archive's root holds no manifest.
    Missing,
    /// The manifest is there and could not be read.
    Unreadable,
    /// The manifest was read and is no valid manifest.
    Unparsable,
    /// The manifest, parsed.
    Parsed(Manifest),
}

/// A `ManifestRead` as plain mathematical values.
pub enum ManifestReadView {
    Missing,
    Unreadable,
    Unparsable,
    Parsed(ManifestView),
}

impl View for ManifestRead {
    type V = ManifestReadView;

    open spec fn view(&self) -> ManifestReadView {
        match self {
            ManifestRead::Missing => ManifestReadView::Missing,
            ManifestRead::Unreadable => ManifestReadView::Unreadable,
            ManifestRead::Unparsable => ManifestReadView::Unparsable,
            ManifestRead::Parsed(manifest) => ManifestReadView::Parsed(manifest@),
        }
    }
}

/// What the caller reports after performing an action.
#[derive(Clone, Debug, PartialEq, Eq)]
pub enum ExtractionEvent {
    /// Whether the scratch directory was made.
    DirectoryCreated(bool),
    /// Whether the whole archive was unpacked.
    Unpacked(bool),
    /// How reading the manifest ended.
    ManifestLoaded(ManifestRead),
    /// The scratch directory and all under it is gone.
    DirectoryRemoved,
}

/// An `ExtractionEvent` as plain mathematical values.
pub enum ExtractionEventView {
    DirectoryCreated(bool),
    Unpacked(bool),
    ManifestLoaded(ManifestReadView),
    DirectoryRemoved,
}

impl View for ExtractionEvent {
    type V = ExtractionEventView;

    open spec fn view(&self) -> ExtractionEventView {
        match self {
            ExtractionEvent::DirectoryCreated(done) => ExtractionEventView::DirectoryCreated(*done),
            ExtractionEvent::Unpacked(done) => ExtractionEventView::Unpacked(*done),
            ExtractionEvent::ManifestLoaded(read) => ExtractionEventView::ManifestLoaded(read@),
            ExtractionEvent::DirectoryRemoved => ExtractionEventView::DirectoryRemoved,
        }
    }
}

/// What the caller is to do next.
#[derive(Clone, Debug, PartialEq, Eq)]
pub enum ExtractionAction {
    /// Make this directory, with its parents.
    CreateDirectory(String),
    /// Unpack the whole of `archive` into the directory `into`.
    Unpack { archive: String, into: String },
    /// Read and parse the manifest at this path.
    LoadManifest(String),
    /// Remove this directory and all under it. Failing to is fatal.
    RemoveDirectory(String),
}

/// An `ExtractionAction` with its paths as text.
pub enum ExtractionActionView {
    CreateDirectory(Seq<char>),
    Unpack { archive: Seq<char>, into: Seq<char> },
    LoadManifest(Seq<char>),
    RemoveDirectory(Seq<char>),
}

impl View for ExtractionAction {
    type V = ExtractionActionView;

    open spec fn view(&self) -> ExtractionActionView {
        match self {
            ExtractionAction::CreateDirectory(path) => ExtractionActionView::CreateDirectory(path@),
            ExtractionAction::Unpack { archive, into } => ExtractionActionView::Unpack {
                archive: archive@,
                into: into@,
            },
            ExtractionAction::LoadManifest(path) => ExtractionActionView::LoadManifest(path@),
            ExtractionAction::RemoveDirectory(path) => ExtractionActionView::RemoveDirectory(path@),
        }
    }
}

/// How far an extraction has come.
#[derive(Clone, Debug, PartialEq, Eq)]
pub enum Stage {
    /// The scratch directory is to be made.
    Creating,
    /// The archive is to be unpacked into the scratch directory.
    Unpacking,
    /// The manifest is to be loaded from the scratch directory.
    Loading,
    /// The extraction failed with this kind, and the scratch directory is
    /// to be removed.
    CleaningUp(NPFExplorationErrorKind),
}

/// A `Stage` as plain mathematical values.
pub enum StageView {
    Creating,
    Unpacking,
    Loading,
    CleaningUp(ExplorationFailure),
}

impl View for Stage {
    type V = StageView;

    open spec fn view(&self) -> StageView {
        match self {
            Stage::Creating => StageView::Creating,
            Stage::Unpacking => StageView::Unpacking,
            Stage::Loading => StageView::Loading,
            Stage::CleaningUp(kind) => StageView::CleaningUp(kind@),
        }
    }
}

/// An extraction under way: the archive, its scratch directory, the stage.
#[derive(Debug)]
pub struct Extraction {
    archive: String,
    scratch: String,
    stage: Stage,
}

/// An `Extraction` as plain mathematical values.
pub struct ExtractionView {
    pub archive: Seq<char>,
    pub scratch: Seq<char>,
    pub stage: StageView,
}

/// An `NPFExplorer` as plain mathematical values.
pub struct ExplorerView {
    pub manifest: ManifestView,
    pub path: Seq<char>,
}

/// Where an extraction stands after an event.
pub enum ProgressView {
    Pending(ExtractionView),
    Opened(ExplorerView),
    Failed(ExplorationFailure),
}

impl ExtractionView {
    /// The same extraction at another stage.
    pub open spec fn at(self, stage: StageView) -> ExtractionView {
        ExtractionView { archive: self.archive, scratch: self.scratch, stage }
    }

    /// The action that the stage calls for.
    pub open spec fn pending(self) -> ExtractionActionView {
        match self.stage {
            StageView::Creating => ExtractionActionView::CreateDirectory(self.scratch),
            StageView::Unpacking => ExtractionActionView::Unpack {
                archive: self.archive,
                into: self.scratch,
            },
            StageView::Loading => ExtractionActionView::LoadManifest(
                join(self.scratch, "manifest.toml"@),
            ),
            StageView::CleaningUp(_) => ExtractionActionView::RemoveDirectory(self.scratch),
        }
    }

    /// Where the extraction stands once `event` was reported. An event that
    /// does not answer the pending action changes nothing.
    pub open spec fn after(self, event: ExtractionEventView) -> ProgressView {
        match (self.stage, event) {
            (StageView::Creating, ExtractionEventView::DirectoryCreated(true)) => {
                ProgressView::Pending(self.at(StageView::Unpacking))
            },
            (StageView::Creating, ExtractionEventView::DirectoryCreated(false)) => {
                ProgressView::Failed(ExplorationFailure::Unpack)
            },
            (StageView::Unpacking, ExtractionEventView::Unpacked(true)) => {
                ProgressView::Pending(self.at(StageView::Loading))
            },
            (StageView::Unpacking, ExtractionEventView::Unpacked(false)) => {
                ProgressView::Pending(self.at(StageView::CleaningUp(ExplorationFailure::Unpack)))
            },
            (
                StageView::Loading,
                ExtractionEventView::ManifestLoaded(ManifestReadView::Parsed(manifest)),
            ) => ProgressView::Opened(ExplorerView { manifest, path: self.scratch }),
            (StageView::Loading, ExtractionEventView::ManifestLoaded(ManifestReadView::Missing)) => {
                ProgressView::Pending(
                    self.at(StageView::CleaningUp(ExplorationFailure::MissingManifest)),
                )
            },
            (
                StageView::Loading,
                ExtractionEventView::ManifestLoaded(ManifestReadView::Unreadable),
            ) => ProgressView::Pending(
                self.at(StageView::CleaningUp(ExplorationFailure::FileIO(self.scratch))),
            ),
            (
                StageView::Loading,
                ExtractionEventView::ManifestLoaded(ManifestReadView::Unparsable),
            ) => ProgressView::Pending(
                self.at(StageView::CleaningUp(ExplorationFailure::InvalidManifest)),
            ),
            (StageView::CleaningUp(kind), ExtractionEventView::DirectoryRemoved) => {
                ProgressView::Failed(kind)
            },
            _ => ProgressView::Pending(self),
        }
    }
}

/// Where an extraction stands after an event: still under way, opened, or
/// failed with its scratch directory gone.
#[derive(Debug)]
pub enum Progress {
    /// More is to be done.
    Pending(Extraction),
    /// The archive is unpacked and its manifest loaded.
    Opened(NPFExplorer),
    /// The extraction failed.
    Failed(NPFExplorationError),
}

impl View for Progress {
    type V = ProgressView;

    open spec fn view(&self) -> ProgressView {
        match self {
            Progress::Pending(extraction) => ProgressView::Pending(extraction@),
            Progress::Opened(explorer) => ProgressView::Opened(explorer@),
            Progress::Failed(error) => ProgressView::Failed(error@),
        }
    }
}

impl View for Extraction {
    type V = ExtractionView;

    closed spec fn view(&self) -> ExtractionView {
        ExtractionView { archive: self.archive@, scratch: self.scratch@, stage: self.stage@ }
    }
}

impl Extraction {
    /// The archive being unpacked.
    pub fn archive(&self) -> (path: &String)
        ensures
            path@ == self@.archive,
    {
        &self.archive
    }

    /// The scratch directory of this extraction.
    pub fn scratch(&self) -> (path: &String)
        ensures
            path@ == self@.scratch,
    {
        &self.scratch
    }

    /// The action to perform next.
    pub fn pending(&self) -> (action: ExtractionAction)
        ensures
            action@ == self@.pending(),
    {
        match &self.stage {
            Stage::Creating => ExtractionAction::CreateDirectory(self.scratch.clone()),
            Stage::Unpacking => ExtractionAction::Unpack {
                archive: self.archive.clone(),
                into: self.scratch.clone(),
            },
            Stage::Loading => ExtractionAction::LoadManifest(
                join_path(self.scratch.as_str(), "manifest.toml"),
            ),
            Stage::CleaningUp(_) => ExtractionAction::RemoveDirectory(self.scratch.clone()),
        }
    }

    /// Takes the outcome of the pending action and moves on.
    pub fn advance(self, event: ExtractionEvent) -> (progress: Progress)
        ensures
            progress@ == self@.after(event@),
    {
        let Extraction { archive, scratch, stage } = self;
        match stage {
            Stage::Creating => match event {
                ExtractionEvent::DirectoryCreated(true) => Progress::Pending(
                    Extraction { archive, scratch, stage: Stage::Unpacking },
                ),
                ExtractionEvent::DirectoryCreated(false) => Progress::Failed(
                    NPFExplorationError::from(NPFExplorationErrorKind::UnpackError),
                ),
                _ => Progress::Pending(Extraction { archive, scratch, stage: Stage::Creating }),
            },
            Stage::Unpacking => match event {
                ExtractionEvent::Unpacked(true) => Progress::Pending(
                    Extraction { archive, scratch, stage: Stage::Loading },
                ),
                ExtractionEvent::Unpacked(false) => Progress::Pending(
                    Extraction {
                        archive,
                        scratch,
                        stage: Stage::CleaningUp(NPFExplorationErrorKind::UnpackError),
                    },
                ),
                _ => Progress::Pending(Extraction { archive, scratch, stage: Stage::Unpacking }),
            },
            Stage::Loading => match event {
                ExtractionEvent::ManifestLoaded(ManifestRead::Parsed(manifest)) => Progress::Opened(
                    NPFExplorer { manifest, path: scratch },
                ),
                ExtractionEvent::ManifestLoaded(ManifestRead::Missing) => Progress::Pending(
                    Extraction {
                        archive,
                        scratch,
                        stage: Stage::CleaningUp(NPFExplorationErrorKind::MissingManifest),
                    },
                ),
                ExtractionEvent::ManifestLoaded(ManifestRead::Unreadable) => {
                    let kind = NPFExplorationErrorKind::FileIOError(scratch.clone());
                    Progress::Pending(Extraction { archive, scratch, stage: Stage::CleaningUp(kind) })
                },
                ExtractionEvent::ManifestLoaded(ManifestRead::Unparsable) => Progress::Pending(
                    Extraction {
                        archive,
                        scratch,
                        stage: Stage::CleaningUp(NPFExplorationErrorKind::InvalidManifest),
                    },
                ),
                _ => Progress::Pending(Extraction { archive, scratch, stage: Stage::Loading }),
            },
            Stage::CleaningUp(kind) => match event {
                ExtractionEvent::DirectoryRemoved => Progress::Failed(NPFExplorationError::from(kind)),
                _ => Progress::Pending(Extraction { archive, scratch, stage: Stage::CleaningUp(kind) }),
            },
        }
    }
}

/// The directories that exist once `action` was performed and ended as
/// `event` reports, if `directories` existed before.
pub open spec fn directories_after(
    directories: Set<Seq<char>>,
    action: ExtractionActionView,
    event: ExtractionEventView,
) -> Set<Seq<char>> {
    match (action, event) {
        (
            ExtractionActionView::CreateDirectory(path),
            ExtractionEventView::DirectoryCreated(true),
        ) => directories.insert(path),
        (ExtractionActionView::RemoveDirectory(path), ExtractionEventView::DirectoryRemoved) => {
            directories.remove(path)
        },
        _ => directories,
    }
}

impl ProgressView {
    /// Whether the scratch directory exists at this point: from the moment
    /// it was made until the extraction has failed.
    pub open spec fn keeps_scratch(self) -> bool {
        match self {
            ProgressView::Pending(extraction) => extraction.stage != StageView::Creating,
            ProgressView::Opened(_) => true,
            ProgressView::Failed(_) => false,
        }
    }
}

/// Where an extraction stands, and which directories exist, once each
/// pending action was performed and answered by the next of `events`.
pub open spec fn run(
    progress: ProgressView,
    directories: Set<Seq<char>>,
    events: Seq<ExtractionEventView>,
) -> (ProgressView, Set<Seq<char>>)
    decreases events.len(),
{
    if events.len() == 0 {
        (progress, directories)
    } else {
        match progress {
            ProgressView::Pending(extraction) => run(
                extraction.after(events[0]),
                directories_after(directories, extraction.pending(), events[0]),
                events.drop_first(),
            ),
            _ => (progress, directories),
        }
    }
}

/// Whatever is reported to an extraction, its scratch directory exists
/// exactly from its creation until the extraction has failed: it exists
/// while an explorer is open, it is gone once the explorer is closed, and
/// no other directory is made or removed.
pub proof fn lemma_scratch_lives_as_long_as_explorer(
    start: ExtractionView,
    directories: Set<Seq<char>>,
    events: Seq<ExtractionEventView>,
)
    requires
        directories.contains(start.scratch) == ProgressView::Pending(start).keeps_scratch(),
    ensures
        ({
            let (progress, left) = run(ProgressView::Pending(start), directories, events);
            &&& left.contains(start.scratch) == progress.keeps_scratch()
            &&& forall|other: Seq<char>|
                other != start.scratch ==> left.contains(other) == directories.contains(other)
            &&& progress matches ProgressView::Pending(extraction) ==> extraction.scratch
                == start.scratch
            &&& progress matches ProgressView::Opened(explorer) ==> {
                &&& explorer.path == start.scratch
                &&& left.contains(explorer.path)
                &&& !directories_after(
                    left,
                    ExtractionActionView::RemoveDirectory(explorer.path),
                    ExtractionEventView::DirectoryRemoved,
                ).contains(explorer.path)
            }
            &&& progress is Failed ==> !left.contains(start.scratch)
        }),
    decreases events.len(),
{
    if events.len() > 0 {
        let next = start.after(events[0]);
        let then = directories_after(directories, start.pending(), events[0]);
        assert(then.contains(start.scratch) == next.keeps_scratch());
        match next {
            ProgressView::Pending(extraction) => {
                lemma_scratch_lives_as_long_as_explorer(extraction, then, events.drop_first());
            },
            _ => {
                assert(run(next, then, events.drop_first()) == (next, then));
            },
        }
    }
}

/// An archive whose manifest is missing or cannot be parsed fails to open,
/// with the kind that says which, and leaves the directories as they were.
pub proof fn lemma_bad_manifest_leaves_no_scratch(
    start: ExtractionView,
    directories: Set<Seq<char>>,
    read: ManifestReadView,
)
    requires
        start.stage == StageView::Creating,
        !directories.contains(start.scratch),
        read is Missing || read is Unparsable,
    ensures
        run(
            ProgressView::Pending(start),
            directories,
            seq![
                ExtractionEventView::DirectoryCreated(true),
                ExtractionEventView::Unpacked(true),
                ExtractionEventView::ManifestLoaded(read),
                ExtractionEventView::DirectoryRemoved,
            ],
        ) == (
            ProgressView::Failed(
                if read is Missing {
                    ExplorationFailure::MissingManifest
                } else {
                    ExplorationFailure::InvalidManifest
                },
            ),
            directories,
        ),
{
    let all = seq![
        ExtractionEventView::DirectoryCreated(true),
        ExtractionEventView::Unpacked(true),
        ExtractionEventView::ManifestLoaded(read),
        ExtractionEventView::DirectoryRemoved,
    ];
    let after_create = all.drop_first();
    let after_unpack = after_create.drop_first();
    let after_load = after_unpack.drop_first();
    let none_left = after_load.drop_first();
    let made = directories.insert(start.scratch);
    let failure = if read is Missing {
        ExplorationFailure::MissingManifest
    } else {
        ExplorationFailure::InvalidManifest
    };
    let unpacking = ProgressView::Pending(start.at(StageView::Unpacking));
    let loading = ProgressView::Pending(start.at(StageView::Loading));
    let cleaning = ProgressView::Pending(start.at(StageView::CleaningUp(failure)));
    let failed = ProgressView::Failed(failure);
    assert(none_left.len() == 0);
    assert(made.remove(start.scratch) =~= directories);
    assert(run(failed, directories, none_left) == (failed, directories));
    assert(run(cleaning, made, after_load) == run(failed, directories, none_left));
    assert(run(loading, made, after_unpack) == run(cleaning, made, after_load));
    assert(run(unpacking, made, after_create) == run(loading, made, after_unpack));
    assert(run(ProgressView::Pending(start), directories, all) == run(unpacking, made, after_create));
}

/// How opening a member of an unpacked archive ended.
#[derive(Clone, Copy, Debug, PartialEq, Eq, Structural)]
pub enum OpenOutcome {
    /// The member is open for reading.
    Opened,
    /// There is no such member.
    NotFound,
    /// The member could not be opened for another reason.
    Failed,
}

/// How reading a whole member of an unpacked archive ended.
#[derive(Clone, Debug, PartialEq, Eq)]
pub enum MemberRead {
    /// There is no such member.
    NotFound,
    /// The member could not be opened or read.
    Failed,
    /// The bytes of the member.
    Content(Vec<u8>),
}

/// Structure representing a handle over a file contained in an NPF. It
/// borrows from its explorer, so it cannot outlive the scratch directory.
#[derive(Debug)]
pub struct NPFFile<'explorer> {
    path: String,
    phantom: PhantomData<&'explorer NPFExplorer>,
}

impl<'explorer> View for NPFFile<'explorer> {
    type V = Seq<char>;

    closed spec fn view(&self) -> Seq<char> {
        self.path@
    }
}

impl<'explorer> NPFFile<'explorer> {
    /// The path of the file, inside the explorer's scratch directory.
    pub fn path(&self) -> (path: &String)
        ensures
            path@ == self@,
    {
        &self.path
    }
}

/// What looking up a required member gives: the file at its place in the
/// scratch directory, or the error that names the member.
pub open spec fn required_member(
    scratch: Seq<char>,
    member: Seq<char>,
    outcome: OpenOutcome,
) -> Result<Seq<char>, ExplorationFailure> {
    match outcome {
        OpenOutcome::Opened => Ok(join(scratch, member)),
        OpenOutcome::NotFound => Err(ExplorationFailure::FileNotFound(member)),
        OpenOutcome::Failed => Err(ExplorationFailure::FileIO(member)),
    }
}

/// What looking up an optional member gives: as for a required one, but that
/// a member which is absent is no error where `may_be_absent` holds.
pub open spec fn optional_member(
    scratch: Seq<char>,
    member: Seq<char>,
    outcome: OpenOutcome,
    may_be_absent: bool,
) -> Result<Option<Seq<char>>, ExplorationFailure> {
    match required_member(scratch, member, outcome) {
        Ok(path) => Ok(Some(path)),
        Err(ExplorationFailure::FileNotFound(_)) if may_be_absent => Ok(None),
        Err(failure) => Err(failure),
    }
}

/// A lookup result as text: the path of the file, or the failure.
pub open spec fn file_view(found: Result<NPFFile, NPFExplorationError>) -> Result<
    Seq<char>,
    ExplorationFailure,
> {
    match found {
        Ok(file) => Ok(file@),
        Err(error) => Err(error@),
    }
}

/// An optional lookup result as text.
pub open spec fn optional_file_view(found: Result<Option<NPFFile>, NPFExplorationError>) -> Result<
    Option<Seq<char>>,
    ExplorationFailure,
> {
    match found {
        Ok(Some(file)) => Ok(Some(file@)),
        Ok(None) => Ok(None),
        Err(error) => Err(error@),
    }
}

/// What loading the instructions gives: nothing if the archive has none,
/// the script if its bytes are text, and else an error naming the member.
pub open spec fn loaded_instructions(read: MemberRead) -> Result<Option<Seq<u8>>, ExplorationFailure> {
    match read {
        MemberRead::NotFound => Ok(None),
        MemberRead::Failed => Err(ExplorationFailure::FileIO("instructions.sh"@)),
        MemberRead::Content(bytes) => if valid_utf8(bytes@) {
            Ok(Some(bytes@))
        } else {
            Err(ExplorationFailure::FileIO("instructions.sh"@))
        },
    }
}

/// Structure representing an NPF to allow interacting with it: the
/// manifest of an unpacked archive and the scratch directory that holds its
/// members.
#[derive(Debug)]
pub struct NPFExplorer {
    manifest: Manifest,
    path: String,
}

impl View for NPFExplorer {
    type V = ExplorerView;

    closed spec fn view(&self) -> ExplorerView {
        ExplorerView { manifest: self.manifest@, path: self.path@ }
    }
}

impl NPFExplorer {
    /// A fresh name for a scratch directory under `base_dir`: `nest_`
    /// followed by ten random letters and digits.
    pub fn gen_tmp_filename(base_dir: &str) -> (path: String)
        ensures
            is_scratch_path(base_dir@, path@),
    {
        let mut rng = rand::thread_rng();
        let mut name = String::from_str("nest_");
        let mut drawn: usize = 0;
        while drawn < 10
            invariant
                drawn <= 10,
                name@.len() == "nest_"@.len() + drawn,
                name@.take("nest_"@.len() as int) == "nest_"@,
                forall|i: int| "nest_"@.len() <= i < name@.len() ==> is_alphanumeric(name@[i]),
            decreases 10 - drawn,
        {
            let c = sample_alphanumeric(&mut rng);
            let ghost before = name@;
            push_char(&mut name, c);
            proof {
                assert(name@.take("nest_"@.len() as int) =~= before.take("nest_"@.len() as int));
            }
            drawn += 1;
        }
        let path = join_path(base_dir, name.as_str());
        proof {
            assert(path@.skip((base_dir@.len() + 1) as int) =~= name@);
        }
        path
    }

    /// Starts exploring the archive at `npf_path`, to be unpacked into a
    /// fresh scratch directory under `extract_dir`.
    pub fn open_at(npf_path: &str, extract_dir: &str) -> (extraction: Extraction)
        ensures
            extraction@.archive == npf_path@,
            extraction@.stage == StageView::Creating,
            is_scratch_path(extract_dir@, extraction@.scratch),
    {
        let scratch = Self::gen_tmp_filename(extract_dir);
        Extraction { archive: String::from_str(npf_path), scratch, stage: Stage::Creating }
    }

    /// Starts exploring the archive at `npf_path`, to be unpacked under the
    /// package manager's runtime directory.
    pub fn from(npf_path: &str) -> (extraction: Extraction)
        ensures
            extraction@.archive == npf_path@,
            extraction@.stage == StageView::Creating,
            is_scratch_path("/var/run/nest"@, extraction@.scratch),
    {
        Self::open_at(npf_path, "/var/run/nest")
    }

    /// Retrieves the NPF's manifest.
    pub fn manifest(&self) -> (manifest: &Manifest)
        ensures
            manifest@ == self@.manifest,
    {
        &self.manifest
    }

    /// The scratch directory that holds the unpacked archive.
    pub fn path(&self) -> (path: &String)
        ensures
            path@ == self@.path,
    {
        &self.path
    }

    /// The place of the member `member` in the scratch directory.
    pub fn member_path(&self, member: &str) -> (path: String)
        ensures
            path@ == join(self@.path, member@),
    {
        join_path(self.path.as_str(), member)
    }

    /// Retrieves a handle over a file in the NPF, given how opening it ended.
    pub fn open_file<'explorer>(&'explorer self, path: &str, outcome: OpenOutcome) -> (found: Result<
        NPFFile<'explorer>,
        NPFExplorationError,
    >)
        ensures
            file_view(found) == required_member(self@.path, path@, outcome),
    {
        match outcome {
            OpenOutcome::Opened => Ok(NPFFile { path: self.member_path(path), phantom: PhantomData }),
            OpenOutcome::NotFound => Err(
                NPFExplorationError::from(
                    NPFExplorationErrorKind::FileNotFound(String::from_str(path)),
                ),
            ),
            OpenOutcome::Failed => Err(
                NPFExplorationError::from(
                    NPFExplorationErrorKind::FileIOError(String::from_str(path)),
                ),
            ),
        }
    }

    /// Retrieves a handle over the NPF's manifest.toml.
    pub fn open_manifest<'explorer>(&'explorer self, outcome: OpenOutcome) -> (found: Result<
        NPFFile<'explorer>,
        NPFExplorationError,
    >)
        ensures
            file_view(found) == required_member(self@.path, "manifest.toml"@, outcome),
    {
        self.open_file("manifest.toml", outcome)
    }

    /// Retrieves a handle over the NPF's data.tar.gz. An effective package
    /// must carry it; for any other kind its absence is no error.
    pub fn open_data<'explorer>(&'explorer self, outcome: OpenOutcome) -> (found: Result<
        Option<NPFFile<'explorer>>,
        NPFExplorationError,
    >)
        ensures
            optional_file_view(found) == optional_member(
                self@.path,
                "data.tar.gz"@,
                outcome,
                self@.manifest.kind != Kind::Effective,
            ),
    {
        match self.open_file("data.tar.gz", outcome) {
            Ok(file) => Ok(Some(file)),
            Err(error) => {
                let absent = match error.kind() {
                    NPFExplorationErrorKind::FileNotFound(_) => self.manifest.kind()
                        != Kind::Effective,
                    _ => false,
                };
                if absent {
                    Ok(None)
                } else {
                    Err(error)
                }
            },
        }
    }

    /// Retrieves a handle over the NPF's instructions.sh, if one exists.
    pub fn open_instructions<'explorer>(&'explorer self, outcome: OpenOutcome) -> (found: Result<
        Option<NPFFile<'explorer>>,
        NPFExplorationError,
    >)
        ensures
            optional_file_view(found) == optional_member(
                self@.path,
                "instructions.sh"@,
                outcome,
                true,
            ),
    {
        match self.open_file("instructions.sh", outcome) {
            Ok(file) => Ok(Some(file)),
            Err(error) => {
                let absent = match error.kind() {
                    NPFExplorationErrorKind::FileNotFound(_) => true,
                    _ => false,
                };
                if absent {
                    Ok(None)
                } else {
                    Err(error)
                }
            },
        }
    }

    /// Loads the NPF's instructions.sh file for execution, if one exists,
    /// given how reading it ended.
    pub fn load_instructions(&self, read: MemberRead) -> (loaded: Result<
        Option<InstructionsExecutor>,
        NPFExplorationError,
    >)
        ensures
            match loaded_instructions(read) {
                Ok(Some(bytes)) => loaded is Ok && loaded->Ok_0 is Some && encode_utf8(
                    loaded->Ok_0->Some_0@,
                ) == bytes,
                Ok(None) => loaded is Ok && loaded->Ok_0 is None,
                Err(failure) => loaded is Err && loaded->Err_0@ == failure,
            },
    {
        match read {
            MemberRead::NotFound => Ok(None),
            MemberRead::Failed => Err(
                NPFExplorationError::from(
                    NPFExplorationErrorKind::FileIOError(String::from_str("instructions.sh")),
                ),
            ),
            MemberRead::Content(bytes) => match InstructionsExecutor::from_script(bytes) {
                Some(executor) => Ok(Some(executor)),
                None => Err(
                    NPFExplorationError::from(
                        NPFExplorationErrorKind::FileIOError(String::from_str("instructions.sh")),
                    ),
                ),
            },
        }
    }

    /// Ends the exploration: the scratch directory is to be removed.
    pub fn close(self) -> (action: ExtractionAction)
        ensures
            action@ == ExtractionActionView::RemoveDirectory(self@.path),
    {
        ExtractionAction::RemoveDirectory(self.path)
    }
}

} // verus!
