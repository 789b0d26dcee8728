//! The commit of a pending install, as a conversation with the host.
//!
//! [`Commit::begin`] checks the draft and makes the first request;
//! [`Commit::advance`] takes the host's answer and makes the next one, until
//! the request is `Finish`. [`Commit::settle`] then hands out the result,
//! and the draft again where the commit failed.
//!
//! Every step is a gate. A failure before anything was copied ends the
//! commit at once; a failure while an archive is copied first asks for the
//! half-made destination to be removed. Only a success releases the
//! temporary directory that the draft owns.

use crate::install::copy_dir_contents;
use crate::install::copy_plan;
use crate::install::pick_source_root;
use crate::install::spec_pick_source_root;
use crate::install::spec_with_extension;
use crate::install::spec_write_metadata_file;
use crate::install::with_extension_if_missing;
use crate::install::write_metadata_file;
use crate::model::PendingInstall;
use crate::model::PendingInstallView;
use crate::model::PendingSource;
use crate::model::PendingSourceView;
use crate::paths::join;
use crate::paths::spec_join;
use crate::protocol::all_harmless;
use crate::protocol::last_asked;
use crate::protocol::FsEvent;
use crate::protocol::FsEventView;
use crate::protocol::FsRequest;
use crate::protocol::FsRequestView;
use crate::protocol::FsStep;
use crate::protocol::FsStepView;
use crate::resolver::category_dir;
use crate::resolver::spec_category_dir;
use crate::text::chars_of;
use crate::text::is_blank;
use crate::text::lemma_trimmed;
use crate::text::trim;
use crate::text::trimmed;
use vstd::prelude::*;
use vstd::string::StringExecFns;

verus! {

/// Why a commit failed.
#[derive(Clone, Debug, PartialEq, Eq)]
pub enum CommitError {
    /// The install name is empty once the white space around it is dropped.
    EmptyName,
    /// A directory could not be created.
    Io { path: String, cause: String },
    /// Something is installed at the destination already.
    AlreadyExists { destination: String },
    /// The files could not be copied.
    CopyFailed { cause: String },
}

/// What a [`CommitError`] holds, as text.
pub enum CommitErrorView {
    EmptyName,
    Io { path: Seq<char>, cause: Seq<char> },
    AlreadyExists { destination: Seq<char> },
    CopyFailed { cause: Seq<char> },
}

impl View for CommitError {
    type V = CommitErrorView;

    open spec fn view(&self) -> CommitErrorView {
        match self {
            Self::EmptyName => CommitErrorView::EmptyName,
            Self::Io { path, cause } => CommitErrorView::Io { path: path@, cause: cause@ },
            Self::AlreadyExists { destination } => CommitErrorView::AlreadyExists {
                destination: destination@,
            },
            Self::CopyFailed { cause } => CommitErrorView::CopyFailed { cause: cause@ },
        }
    }
}

/// How a commit succeeded: the mod is installed, with or without its
/// sidecar.
#[derive(Clone, Debug, PartialEq, Eq)]
pub enum CommitOutcome {
    Installed { destination: String },
    InstalledWithWarning { destination: String, cause: String },
}

/// What a [`CommitOutcome`] holds, as text.
pub enum CommitOutcomeView {
    Installed { destination: Seq<char> },
    InstalledWithWarning { destination: Seq<char>, cause: Seq<char> },
}

impl View for CommitOutcome {
    type V = CommitOutcomeView;

    open spec fn view(&self) -> CommitOutcomeView {
        match self {
            Self::Installed { destination } => CommitOutcomeView::Installed {
                destination: destination@,
            },
            Self::InstalledWithWarning { destination, cause } => {
                CommitOutcomeView::InstalledWithWarning { destination: destination@, cause: cause@ }
            },
        }
    }
}

/// The view of a commit's result.
pub open spec fn result_view(r: Result<CommitOutcome, CommitError>) -> Result<
    CommitOutcomeView,
    CommitErrorView,
> {
    match r {
        Ok(outcome) => Ok(outcome@),
        Err(error) => Err(error@),
    }
}

/// Where a commit stands: which answer it waits for.
#[derive(Debug, PartialEq, Eq)]
pub enum CommitPhase {
    /// The category's directory is being created.
    CreatingBase,
    /// The destination is being looked for.
    ProbingDestination,
    /// The destination directory of an archive install is being created.
    CreatingDestination,
    /// The extraction directory is being listed.
    ListingSource,
    /// The directory to copy is being walked.
    WalkingSource { source_root: String },
    /// The files are being copied.
    Copying,
    /// The half-made destination is being removed after a failed copy.
    RollingBack { cause: String },
    /// The sidecar is being written.
    WritingMetadata,
    /// The temporary directory is being removed after a success.
    Releasing { warning: Option<String> },
    /// The commit has ended.
    Finished { result: Result<CommitOutcome, CommitError> },
}

/// What a [`CommitPhase`] holds, as text.
pub enum CommitPhaseView {
    CreatingBase,
    ProbingDestination,
    CreatingDestination,
    ListingSource,
    WalkingSource { source_root: Seq<char> },
    Copying,
    RollingBack { cause: Seq<char> },
    WritingMetadata,
    Releasing { warning: Option<Seq<char>> },
    Finished { result: Result<CommitOutcomeView, CommitErrorView> },
}

impl View for CommitPhase {
    type V = CommitPhaseView;

    open spec fn view(&self) -> CommitPhaseView {
        match self {
            Self::CreatingBase => CommitPhaseView::CreatingBase,
            Self::ProbingDestination => CommitPhaseView::ProbingDestination,
            Self::CreatingDestination => CommitPhaseView::CreatingDestination,
            Self::ListingSource => CommitPhaseView::ListingSource,
            Self::WalkingSource { source_root } => CommitPhaseView::WalkingSource {
                source_root: source_root@,
            },
            Self::Copying => CommitPhaseView::Copying,
            Self::RollingBack { cause } => CommitPhaseView::RollingBack { cause: cause@ },
            Self::WritingMetadata => CommitPhaseView::WritingMetadata,
            Self::Releasing { warning } => CommitPhaseView::Releasing {
                warning: warning.deep_view(),
            },
            Self::Finished { result } => CommitPhaseView::Finished { result: result_view(*result) },
        }
    }
}

/// A commit under way: the draft, the mods root it goes to, and the phase.
/// The draft and the root stay as they were when the commit began.
#[derive(Debug, PartialEq, Eq)]
pub struct Commit {
    pub pending: PendingInstall,
    pub root: String,
    pub phase: CommitPhase,
}

/// What a [`Commit`] holds, as text.
pub struct CommitView {
    pub pending: PendingInstallView,
    pub root: Seq<char>,
    pub phase: CommitPhaseView,
}

impl View for Commit {
    type V = CommitView;

    open spec fn view(&self) -> CommitView {
        CommitView { pending: self.pending@, root: self.root@, phase: self.phase@ }
    }
}

/// The name under which a draft is installed: the install name without the
/// white space around it, and for a single file with the extension of its
/// kind.
pub open spec fn spec_installed_name(pending: PendingInstallView) -> Seq<char> {
    let name = trimmed(pending.custom_name);
    match pending.source {
        PendingSourceView::Zip { .. } => name,
        PendingSourceView::Pkz { .. } => spec_with_extension(name, ".pkz"@),
        PendingSourceView::Pnt { .. } => spec_with_extension(name, ".pnt"@),
    }
}

/// The directory of the draft's category below the mods root.
pub open spec fn spec_base(pending: PendingInstallView, root: Seq<char>) -> Seq<char> {
    spec_category_dir(root, pending.install_target)
}

/// Where the draft is installed: a new directory for an archive, a new file
/// for a single file, in the directory of its category.
pub open spec fn spec_destination(pending: PendingInstallView, root: Seq<char>) -> Seq<char> {
    spec_join(spec_base(pending, root), spec_installed_name(pending))
}

/// The temporary directory that the draft owns; the empty path where it owns
/// none.
pub open spec fn spec_temp_dir(pending: PendingInstallView) -> Seq<char> {
    match pending.source.owned_dir() {
        Some(dir) => dir,
        None => Seq::empty(),
    }
}

/// The end of a commit: the phase that holds the result, and no request.
pub open spec fn finished(result: Result<CommitOutcomeView, CommitErrorView>) -> (
    CommitPhaseView,
    FsRequestView,
) {
    (CommitPhaseView::Finished { result }, FsRequestView::Finish)
}

/// The outcome of a commit whose files are in place.
pub open spec fn installed(destination: Seq<char>, warning: Option<Seq<char>>) -> CommitOutcomeView {
    match warning {
        Some(cause) => CommitOutcomeView::InstalledWithWarning { destination, cause },
        None => CommitOutcomeView::Installed { destination },
    }
}

/// How a commit begins: a draft whose name is blank is refused at once;
/// for any other the category's directory is created first.
pub open spec fn spec_begin(pending: PendingInstallView, root: Seq<char>) -> (
    CommitPhaseView,
    FsRequestView,
) {
    if trimmed(pending.custom_name).len() == 0 {
        finished(Err(CommitErrorView::EmptyName))
    } else {
        (
            CommitPhaseView::CreatingBase,
            FsRequestView::CreateDirAll { path: spec_base(pending, root) },
        )
    }
}

/// The phase after an answer, and the request made on entering it. An
/// answer that the phase does not wait for changes nothing and ends the
/// conversation.
pub open spec fn spec_advance(commit: CommitView, event: FsEventView) -> (
    CommitPhaseView,
    FsRequestView,
) {
    let pending = commit.pending;
    let base = spec_base(pending, commit.root);
    let destination = spec_destination(pending, commit.root);
    let temp_dir = spec_temp_dir(pending);
    let is_archive = pending.source is Zip;
    let ignored = (commit.phase, FsRequestView::Finish);
    match commit.phase {
        CommitPhaseView::CreatingBase => match event {
            FsEventView::Done => (
                CommitPhaseView::ProbingDestination,
                FsRequestView::ProbeExists { path: destination },
            ),
            FsEventView::Failed { cause } => finished(
                Err(CommitErrorView::Io { path: base, cause }),
            ),
            _ => ignored,
        },
        CommitPhaseView::ProbingDestination => match event {
            FsEventView::Exists { exists } => if exists {
                finished(Err(CommitErrorView::AlreadyExists { destination }))
            } else if is_archive {
                (
                    CommitPhaseView::CreatingDestination,
                    FsRequestView::CreateDirAll { path: destination },
                )
            } else {
                (
                    CommitPhaseView::Copying,
                    FsRequestView::Apply {
                        steps: seq![
                            FsStepView::CopyFile {
                                from: pending.source.input_path(),
                                to: destination,
                            },
                        ],
                    },
                )
            },
            _ => ignored,
        },
        CommitPhaseView::CreatingDestination => match event {
            FsEventView::Done => (
                CommitPhaseView::ListingSource,
                FsRequestView::ListDir { path: temp_dir },
            ),
            FsEventView::Failed { cause } => finished(
                Err(CommitErrorView::Io { path: destination, cause }),
            ),
            _ => ignored,
        },
        CommitPhaseView::ListingSource => match event {
            FsEventView::Listing { items } => {
                let source_root = spec_pick_source_root(temp_dir, items);
                (
                    CommitPhaseView::WalkingSource { source_root },
                    FsRequestView::Walk { path: source_root },
                )
            },
            _ => ignored,
        },
        CommitPhaseView::WalkingSource { source_root } => match event {
            FsEventView::Walked { entries } => (
                CommitPhaseView::Copying,
                FsRequestView::Apply { steps: copy_plan(source_root, destination, entries) },
            ),
            FsEventView::Failed { cause } => (
                CommitPhaseView::RollingBack { cause },
                FsRequestView::RemoveTree { path: destination },
            ),
            _ => ignored,
        },
        CommitPhaseView::Copying => match event {
            FsEventView::Done => if is_archive {
                (
                    CommitPhaseView::WritingMetadata,
                    spec_write_metadata_file(
                        destination,
                        pending.install_target,
                        pending.version,
                        pending.notes,
                        pending.source.input_path(),
                    ),
                )
            } else {
                finished(Ok(CommitOutcomeView::Installed { destination }))
            },
            FsEventView::Failed { cause } => if is_archive {
                (
                    CommitPhaseView::RollingBack { cause },
                    FsRequestView::RemoveTree { path: destination },
                )
            } else {
                finished(Err(CommitErrorView::CopyFailed { cause }))
            },
            _ => ignored,
        },
        CommitPhaseView::RollingBack { cause } => match event {
            FsEventView::Done | FsEventView::Failed { .. } => finished(
                Err(CommitErrorView::CopyFailed { cause }),
            ),
            _ => ignored,
        },
        CommitPhaseView::WritingMetadata => match event {
            FsEventView::Done => (
                CommitPhaseView::Releasing { warning: None },
                FsRequestView::RemoveTree { path: temp_dir },
            ),
            FsEventView::Failed { cause } => (
                CommitPhaseView::Releasing { warning: Some(cause) },
                FsRequestView::RemoveTree { path: temp_dir },
            ),
            _ => ignored,
        },
        CommitPhaseView::Releasing { warning } => match event {
            FsEventView::Done | FsEventView::Failed { .. } => finished(
                Ok(installed(destination, warning)),
            ),
            _ => ignored,
        },
        CommitPhaseView::Finished { .. } => ignored,
    }
}

/// What is left when a commit is settled: the draft, unless the commit
/// succeeded, and the result, if the commit has ended.
#[derive(Debug, PartialEq, Eq)]
pub struct Settlement {
    pub pending: Option<PendingInstall>,
    pub result: Option<Result<CommitOutcome, CommitError>>,
}

/// The name under which a draft is installed.
pub fn installed_name(pending: &PendingInstall) -> (r: String)
    ensures
        r@ == spec_installed_name(pending@),
{
    let name = trim(pending.custom_name.as_str());
    match &pending.source {
        PendingSource::Zip { .. } => String::from_str(name),
        PendingSource::Pkz { .. } => with_extension_if_missing(name, ".pkz"),
        PendingSource::Pnt { .. } => with_extension_if_missing(name, ".pnt"),
    }
}

/// Where a draft is installed below a mods root.
pub fn destination_of(pending: &PendingInstall, root: &str) -> (r: String)
    ensures
        r@ == spec_destination(pending@, root@),
{
    let base = category_dir(root, pending.install_target);
    let name = installed_name(pending);
    join(base.as_str(), name.as_str())
}

/// The temporary directory that a draft owns, or the empty path.
fn temp_dir_of(pending: &PendingInstall) -> (r: String)
    ensures
        r@ == spec_temp_dir(pending@),
{
    match pending.source.cleanup() {
        Some(dir) => String::from_str(dir),
        None => String::new(),
    }
}

/// Tells whether a draft comes from an archive.
fn is_archive(pending: &PendingInstall) -> (r: bool)
    ensures
        r == (pending@.source is Zip),
{
    match &pending.source {
        PendingSource::Zip { .. } => true,
        _ => false,
    }
}

impl Commit {
    /// Begins the commit of a draft into the mods root `root`. A draft whose
    /// install name is blank is refused with `EmptyName`; for any other the
    /// first request creates the category's directory.
    pub fn begin(pending: PendingInstall, root: &str) -> (r: (Commit, FsRequest))
        ensures
            r.0.pending == pending,
            r.0.root@ == root@,
            (r.0@.phase, r.1@) == spec_begin(pending@, root@),
    {
        let blank = chars_of(trim(pending.custom_name.as_str())).len() == 0;
        if blank {
            (
                Commit {
                    pending,
                    root: String::from_str(root),
                    phase: CommitPhase::Finished { result: Err(CommitError::EmptyName) },
                },
                FsRequest::Finish,
            )
        } else {
            let base = category_dir(root, pending.install_target);
            (
                Commit { pending, root: String::from_str(root), phase: CommitPhase::CreatingBase },
                FsRequest::CreateDirAll { path: base },
            )
        }
    }

    /// Takes the host's answer to the last request and makes the next one.
    pub fn advance(self, event: FsEvent) -> (r: (Commit, FsRequest))
        ensures
            r.0.pending == self.pending,
            r.0.root == self.root,
            (r.0@.phase, r.1@) == spec_advance(self@, event@),
    {
        let Commit { pending, root, phase } = self;
        let (next, request) = match phase {
            CommitPhase::CreatingBase => match event {
                FsEvent::Done => (
                    CommitPhase::ProbingDestination,
                    FsRequest::ProbeExists { path: destination_of(&pending, root.as_str()) },
                ),
                FsEvent::Failed { cause } => (
                    CommitPhase::Finished {
                        result: Err(
                            CommitError::Io {
                                path: category_dir(root.as_str(), pending.install_target),
                                cause,
                            },
                        ),
                    },
                    FsRequest::Finish,
                ),
                _ => (CommitPhase::CreatingBase, FsRequest::Finish),
            },
            CommitPhase::ProbingDestination => match event {
                FsEvent::Exists { exists } => {
                    let destination = destination_of(&pending, root.as_str());
                    if exists {
                        (
                            CommitPhase::Finished {
                                result: Err(CommitError::AlreadyExists { destination }),
                            },
                            FsRequest::Finish,
                        )
                    } else if is_archive(&pending) {
                        (
                            CommitPhase::CreatingDestination,
                            FsRequest::CreateDirAll { path: destination },
                        )
                    } else {
                        let mut steps: Vec<FsStep> = Vec::new();
                        steps.push(
                            FsStep::CopyFile {
                                from: String::from_str(pending.source.input_path()),
                                to: destination,
                            },
                        );
                        assert(steps.deep_view() =~= seq![
                            FsStepView::CopyFile {
                                from: pending@.source.input_path(),
                                to: spec_destination(pending@, root@),
                            },
                        ]);
                        (CommitPhase::Copying, FsRequest::Apply { steps })
                    }
                },
                _ => (CommitPhase::ProbingDestination, FsRequest::Finish),
            },
            CommitPhase::CreatingDestination => match event {
                FsEvent::Done => (
                    CommitPhase::ListingSource,
                    FsRequest::ListDir { path: temp_dir_of(&pending) },
                ),
                FsEvent::Failed { cause } => (
                    CommitPhase::Finished {
                        result: Err(
                            CommitError::Io {
                                path: destination_of(&pending, root.as_str()),
                                cause,
                            },
                        ),
                    },
                    FsRequest::Finish,
                ),
                _ => (CommitPhase::CreatingDestination, FsRequest::Finish),
            },
            CommitPhase::ListingSource => match event {
                FsEvent::Listing { items } => {
                    let temp_dir = temp_dir_of(&pending);
                    let source_root = pick_source_root(temp_dir.as_str(), &items);
                    (
                        CommitPhase::WalkingSource { source_root: source_root.clone() },
                        FsRequest::Walk { path: source_root },
                    )
                },
                _ => (CommitPhase::ListingSource, FsRequest::Finish),
            },
            CommitPhase::WalkingSource { source_root } => match event {
                FsEvent::Walked { entries } => {
                    let destination = destination_of(&pending, root.as_str());
                    let steps = copy_dir_contents(
                        source_root.as_str(),
                        destination.as_str(),
                        &entries,
                    );
                    (CommitPhase::Copying, FsRequest::Apply { steps })
                },
                FsEvent::Failed { cause } => (
                    CommitPhase::RollingBack { cause },
                    FsRequest::RemoveTree { path: destination_of(&pending, root.as_str()) },
                ),
                _ => (CommitPhase::WalkingSource { source_root }, FsRequest::Finish),
            },
            CommitPhase::Copying => match event {
                FsEvent::Done => {
                    let destination = destination_of(&pending, root.as_str());
                    if is_archive(&pending) {
                        (
                            CommitPhase::WritingMetadata,
                            write_metadata_file(
                                destination.as_str(),
                                pending.install_target,
                                pending.version.as_str(),
                                pending.notes.as_str(),
                                pending.source.input_path(),
                            ),
                        )
                    } else {
                        (
                            CommitPhase::Finished {
                                result: Ok(CommitOutcome::Installed { destination }),
                            },
                            FsRequest::Finish,
                        )
                    }
                },
                FsEvent::Failed { cause } => {
                    if is_archive(&pending) {
                        (
                            CommitPhase::RollingBack { cause },
                            FsRequest::RemoveTree {
                                path: destination_of(&pending, root.as_str()),
                            },
                        )
                    } else {
                        (
                            CommitPhase::Finished {
                                result: Err(CommitError::CopyFailed { cause }),
                            },
                            FsRequest::Finish,
                        )
                    }
                },
                _ => (CommitPhase::Copying, FsRequest::Finish),
            },
            CommitPhase::RollingBack { cause } => match event {
                FsEvent::Done | FsEvent::Failed { .. } => (
                    CommitPhase::Finished { result: Err(CommitError::CopyFailed { cause }) },
                    FsRequest::Finish,
                ),
                _ => (CommitPhase::RollingBack { cause }, FsRequest::Finish),
            },
            CommitPhase::WritingMetadata => match event {
                FsEvent::Done => (
                    CommitPhase::Releasing { warning: None },
                    FsRequest::RemoveTree { path: temp_dir_of(&pending) },
                ),
                FsEvent::Failed { cause } => (
                    CommitPhase::Releasing { warning: Some(cause) },
                    FsRequest::RemoveTree { path: temp_dir_of(&pending) },
                ),
                _ => (CommitPhase::WritingMetadata, FsRequest::Finish),
            },
            CommitPhase::Releasing { warning } => match event {
                FsEvent::Done | FsEvent::Failed { .. } => {
                    let destination = destination_of(&pending, root.as_str());
                    let outcome = match warning {
                        Some(cause) => CommitOutcome::InstalledWithWarning { destination, cause },
                        None => CommitOutcome::Installed { destination },
                    };
                    (CommitPhase::Finished { result: Ok(outcome) }, FsRequest::Finish)
                },
                _ => (CommitPhase::Releasing { warning }, FsRequest::Finish),
            },
            CommitPhase::Finished { result } => (CommitPhase::Finished { result }, FsRequest::Finish),
        };
        (Commit { pending, root, phase: next }, request)
    }

    /// Ends the conversation. After a success the draft is gone and the
    /// outcome is handed out; after a failure the draft comes back as it
    /// was, with the error; while the commit has not ended the draft comes
    /// back without a result.
    pub fn settle(self) -> (r: Settlement)
        ensures
            (match self.phase {
                CommitPhase::Finished { result: Ok(outcome) } => r.pending is None && r.result
                    == Some(Ok::<CommitOutcome, CommitError>(outcome)),
                CommitPhase::Finished { result: Err(error) } => r.pending == Some(self.pending)
                    && r.result == Some(Err::<CommitOutcome, CommitError>(error)),
                _ => r.pending == Some(self.pending) && r.result is None,
            }),
    {
        let Commit { pending, root, phase } = self;
        match phase {
            CommitPhase::Finished { result } => match result {
                Ok(outcome) => Settlement { pending: None, result: Some(Ok(outcome)) },
                Err(error) => Settlement { pending: Some(pending), result: Some(Err(error)) },
            },
            _ => Settlement { pending: Some(pending), result: None },
        }
    }
}

/// A draft whose install name is empty or only white space is refused with
/// `EmptyName` before anything is asked of the host.
pub proof fn lemma_blank_name_is_refused(pending: PendingInstallView, root: Seq<char>)
    ensures
        is_blank(pending.custom_name) <==> spec_begin(pending, root) == finished(
            Err(CommitErrorView::EmptyName),
        ),
{
    lemma_trimmed(pending.custom_name);
}

/// Where the destination exists already, the commit ends with
/// `AlreadyExists`, and all that was asked of the host before is to make
/// sure the category's directory is there and to look for the destination:
/// nothing was copied, written or removed.
pub proof fn lemma_existing_destination_is_refused(pending: PendingInstallView, root: Seq<char>)
    requires
        !is_blank(pending.custom_name),
    ensures
        ({
            let first = spec_begin(pending, root);
            let second = spec_advance(
                CommitView { pending, root, phase: first.0 },
                FsEventView::Done,
            );
            let third = spec_advance(
                CommitView { pending, root, phase: second.0 },
                FsEventView::Exists { exists: true },
            );
            &&& first.1 == FsRequestView::CreateDirAll { path: spec_base(pending, root) }
            &&& second.1 == FsRequestView::ProbeExists { path: spec_destination(pending, root) }
            &&& first.1.is_harmless()
            &&& second.1.is_harmless()
            &&& third == finished(
                Err(
                    CommitErrorView::AlreadyExists {
                        destination: spec_destination(pending, root),
                    },
                ),
            )
        }),
{
    lemma_trimmed(pending.custom_name);
}

/// No partial install survives: when the copy of an archive fails, the next
/// request removes the destination, and whatever comes of that, the commit
/// ends with `CopyFailed` and the cause of the failed copy.
pub proof fn lemma_failed_copy_is_rolled_back(
    commit: CommitView,
    cause: Seq<char>,
    answer: FsEventView,
)
    requires
        commit.pending.source is Zip,
        commit.phase is Copying || commit.phase is WalkingSource,
        answer is Done || answer is Failed,
    ensures
        ({
            let failed = spec_advance(commit, FsEventView::Failed { cause });
            let rolled_back = spec_advance(
                CommitView { pending: commit.pending, root: commit.root, phase: failed.0 },
                answer,
            );
            &&& failed.1 == FsRequestView::RemoveTree {
                path: spec_destination(commit.pending, commit.root),
            }
            &&& rolled_back == finished(Err(CommitErrorView::CopyFailed { cause }))
        }),
{
}

/// A commit of an archive succeeds only out of the phase that removes the
/// temporary directory: every success has released what the draft owned.
/// A failed sidecar does not stand in the way of a success; it turns the
/// outcome into a warning.
pub proof fn lemma_success_releases_the_source(commit: CommitView, event: FsEventView)
    requires
        commit.pending.source is Zip,
        !(commit.phase is Finished),
    ensures
        (spec_advance(commit, event).0 matches CommitPhaseView::Finished { result: Ok(_) }
            ==> commit.phase is Releasing),
        commit.phase is WritingMetadata && (event is Done || event is Failed) ==> spec_advance(
            commit,
            event,
        ) == (
            CommitPhaseView::Releasing {
                warning: match event {
                    FsEventView::Failed { cause } => Some(cause),
                    _ => None,
                },
            },
            FsRequestView::RemoveTree { path: spec_temp_dir(commit.pending) },
        ),
{
}

/// A whole conversation: where the commit stands after the host has given
/// the answers `events` one after the other, and all the requests that were
/// made of the host on the way, the first one included.
pub open spec fn spec_run(
    pending: PendingInstallView,
    root: Seq<char>,
    events: Seq<FsEventView>,
) -> (CommitPhaseView, Seq<FsRequestView>)
    decreases events.len(),
{
    if events.len() == 0 {
        let first = spec_begin(pending, root);
        (first.0, seq![first.1])
    } else {
        let before = spec_run(pending, root, events.drop_last());
        let next = spec_advance(CommitView { pending, root, phase: before.0 }, events.last());
        (next.0, before.1.push(next.1))
    }
}

/// What holds of the requests made so far, by the phase that was reached.
pub open spec fn run_invariant(
    pending: PendingInstallView,
    root: Seq<char>,
    phase: CommitPhaseView,
    requests: Seq<FsRequestView>,
) -> bool {
    let remove_destination = FsRequestView::RemoveTree { path: spec_destination(pending, root) };
    let remove_temp_dir = FsRequestView::RemoveTree { path: spec_temp_dir(pending) };
    match phase {
        CommitPhaseView::CreatingBase => all_harmless(requests),
        CommitPhaseView::ProbingDestination => all_harmless(requests),
        CommitPhaseView::CreatingDestination => all_harmless(requests),
        CommitPhaseView::RollingBack { .. } => last_asked(requests) == remove_destination,
        CommitPhaseView::Releasing { .. } => last_asked(requests) == remove_temp_dir,
        CommitPhaseView::Finished { result: Err(CommitErrorView::CopyFailed { .. }) } => {
            pending.source is Zip ==> last_asked(requests) == remove_destination
        },
        CommitPhaseView::Finished { result: Err(_) } => all_harmless(requests),
        CommitPhaseView::Finished { result: Ok(_) } => {
            pending.source is Zip ==> last_asked(requests) == remove_temp_dir
        },
        _ => true,
    }
}

/// The invariant holds after every conversation.
pub proof fn lemma_run_invariant(
    pending: PendingInstallView,
    root: Seq<char>,
    events: Seq<FsEventView>,
)
    ensures
        run_invariant(
            pending,
            root,
            spec_run(pending, root, events).0,
            spec_run(pending, root, events).1,
        ),
    decreases events.len(),
{
    if events.len() > 0 {
        lemma_run_invariant(pending, root, events.drop_last());
        let before = spec_run(pending, root, events.drop_last());
        let next = spec_advance(CommitView { pending, root, phase: before.0 }, events.last());
        let after = before.1.push(next.1);
        assert(after.last() == next.1);
        assert(after.drop_last() =~= before.1);
        if all_harmless(before.1) && next.1.is_harmless() {
            assert forall|i: int| 0 <= i < after.len() implies (#[trigger] after[i]).is_harmless() by {
                if i < before.1.len() {
                    assert(after[i] == before.1[i]);
                }
            }
        }
    }
}

/// No clobbering and no partial install, whatever the host answers: a
/// commit of an archive that ends in an error has either asked for nothing
/// but harmless things, or has last asked for the destination to be
/// removed. A commit that ends because the destination exists has asked for
/// nothing but harmless things.
pub proof fn lemma_failed_commit_leaves_nothing(
    pending: PendingInstallView,
    root: Seq<char>,
    events: Seq<FsEventView>,
)
    requires
        (spec_run(pending, root, events).0 matches CommitPhaseView::Finished { result: Err(_) }),
    ensures
        pending.source is Zip ==> all_harmless(spec_run(pending, root, events).1) || last_asked(
            spec_run(pending, root, events).1,
        ) == (FsRequestView::RemoveTree { path: spec_destination(pending, root) }),
        (spec_run(pending, root, events).0 matches CommitPhaseView::Finished {
            result: Err(CommitErrorView::AlreadyExists { .. }),
        } ==> all_harmless(spec_run(pending, root, events).1)),
        (spec_run(pending, root, events).0 matches CommitPhaseView::Finished {
            result: Err(CommitErrorView::EmptyName),
        } ==> all_harmless(spec_run(pending, root, events).1)),
{
    lemma_run_invariant(pending, root, events);
}

/// Whatever the host answers, a commit of an archive that ends in a success
/// has last asked for the temporary directory to be removed: what the draft
/// owned is released.
pub proof fn lemma_successful_commit_releases(
    pending: PendingInstallView,
    root: Seq<char>,
    events: Seq<FsEventView>,
)
    requires
        pending.source is Zip,
        (spec_run(pending, root, events).0 matches CommitPhaseView::Finished { result: Ok(_) }),
    ensures
        last_asked(spec_run(pending, root, events).1) == (FsRequestView::RemoveTree {
            path: spec_temp_dir(pending),
        }),
{
    lemma_run_invariant(pending, root, events);
}

/// A commit that has ended stays as it is.
pub proof fn lemma_finished_is_final(commit: CommitView, event: FsEventView)
    requires
        commit.phase is Finished,
    ensures
        spec_advance(commit, event) == (commit.phase, FsRequestView::Finish),
{
}

} // verus!
