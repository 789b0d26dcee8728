//! Staging: from a dropped file to a pending install.
//!
//! A single-file package or paint is staged where it lies, once it is known
//! to exist. An archive is unpacked into a fresh temporary directory first;
//! whatever goes wrong after that directory was made, it is removed again
//! before the failure is reported, so that a failed staging leaves nothing
//! behind.

use crate::archive::extract_zip_archive;
use crate::archive::spec_extract_zip_archive;
use crate::archive::ExtractError;
use crate::archive::ExtractErrorView;
use crate::classify::classify;
use crate::classify::spec_classify;
use crate::classify::InputKind;
use crate::model::InstallTarget;
use crate::model::PendingInstall;
use crate::model::PendingInstallView;
use crate::model::PendingSource;
use crate::model::PendingSourceView;
use crate::paths::file_stem;
use crate::paths::join;
use crate::paths::spec_file_stem;
use crate::paths::spec_join;
use crate::protocol::all_harmless;
use crate::protocol::last_asked;
use crate::protocol::last_created;
use crate::protocol::sole_directory;
use crate::protocol::spec_sole_directory;
use crate::protocol::DirItem;
use crate::protocol::DirItemView;
use crate::protocol::FsEvent;
use crate::protocol::FsEventView;
use crate::protocol::FsRequest;
use crate::protocol::FsRequestView;
use crate::tempdir::create_temp_extract_dir;
use crate::tempdir::spec_create_temp_extract_dir;
use vstd::prelude::*;
use vstd::string::StringExecFns;

verus! {

/// Why a dropped file could not be staged.
#[derive(Clone, Debug, PartialEq, Eq)]
pub enum StageError {
    /// The file is of no kind that can be installed.
    Unsupported,
    /// The file is not there.
    Missing,
    /// No free name was found for the temporary directory.
    TempDirExhausted,
    /// The temporary directory could not be created.
    TempDir { cause: String },
    /// The archive could not be unpacked.
    Extract { error: ExtractError },
}

/// What a [`StageError`] holds, as text.
pub enum StageErrorView {
    Unsupported,
    Missing,
    TempDirExhausted,
    TempDir { cause: Seq<char> },
    Extract { error: ExtractErrorView },
}

impl View for StageError {
    type V = StageErrorView;

    open spec fn view(&self) -> StageErrorView {
        match self {
            Self::Unsupported => StageErrorView::Unsupported,
            Self::Missing => StageErrorView::Missing,
            Self::TempDirExhausted => StageErrorView::TempDirExhausted,
            Self::TempDir { cause } => StageErrorView::TempDir { cause: cause@ },
            Self::Extract { error } => StageErrorView::Extract { error: error@ },
        }
    }
}

/// The view of a staging's result.
pub open spec fn stage_result_view(r: Result<PendingInstall, StageError>) -> Result<
    PendingInstallView,
    StageErrorView,
> {
    match r {
        Ok(pending) => Ok(pending@),
        Err(error) => Err(error@),
    }
}

/// The stem of a path, or `fallback` where it has none.
pub open spec fn spec_stem_or(path: Seq<char>, fallback: Seq<char>) -> Seq<char> {
    match spec_file_stem(path) {
        Some(stem) => stem,
        None => fallback,
    }
}

/// The name proposed for an unpacked archive: the name of its single
/// top-level directory where it has one; else the stem of the archive's
/// file name, or `mod` where it has none.
pub open spec fn spec_guess_mod_name(
    listing: Option<Seq<DirItemView>>,
    archive_path: Seq<char>,
) -> Seq<char> {
    match spec_sole_directory(listing) {
        Some(name) => name,
        None => spec_stem_or(archive_path, "mod"@),
    }
}

/// A draft with empty notes and version.
pub open spec fn draft(
    source: PendingSourceView,
    install_target: InstallTarget,
    custom_name: Seq<char>,
) -> PendingInstallView {
    PendingInstallView {
        source,
        install_target,
        custom_name,
        notes: Seq::empty(),
        version: Seq::empty(),
    }
}

/// The draft for an unpacked archive: it goes to the tracks unless the user
/// says otherwise, under the guessed name.
pub open spec fn spec_prepare_pending_install(
    archive_path: Seq<char>,
    temp_extract_dir: Seq<char>,
    listing: Option<Seq<DirItemView>>,
) -> PendingInstallView {
    draft(
        PendingSourceView::Zip { archive_path, temp_extract_dir },
        InstallTarget::Tracks,
        spec_guess_mod_name(listing, archive_path),
    )
}

/// The draft for a single-file package: it goes to the tracks, under the
/// stem of its file name.
pub open spec fn spec_prepare_pending_pkz_install(pkz_path: Seq<char>, exists: bool) -> Result<
    PendingInstallView,
    StageErrorView,
> {
    if exists {
        Ok(
            draft(
                PendingSourceView::Pkz { pkz_path },
                InstallTarget::Tracks,
                spec_stem_or(pkz_path, "track"@),
            ),
        )
    } else {
        Err(StageErrorView::Missing)
    }
}

/// The draft for a single-file paint: it goes to the rider paints, under the
/// stem of its file name.
pub open spec fn spec_prepare_pending_pnt_install(pnt_path: Seq<char>, exists: bool) -> Result<
    PendingInstallView,
    StageErrorView,
> {
    if exists {
        Ok(
            draft(
                PendingSourceView::Pnt { pnt_path },
                InstallTarget::RiderPaints,
                spec_stem_or(pnt_path, "rider"@),
            ),
        )
    } else {
        Err(StageErrorView::Missing)
    }
}

/// The stem of a path, or `fallback`.
fn stem_or(path: &str, fallback: &str) -> (r: String)
    ensures
        r@ == spec_stem_or(path@, fallback@),
{
    match file_stem(path) {
        Some(stem) => String::from_str(stem),
        None => String::from_str(fallback),
    }
}

/// Proposes a name for an unpacked archive, given the children of the
/// directory it was unpacked into.
pub fn guess_mod_name(listing: &Option<Vec<DirItem>>, archive_path: &str) -> (r: String)
    ensures
        r@ == spec_guess_mod_name(listing.deep_view(), archive_path@),
{
    match sole_directory(listing) {
        Some(name) => String::from_str(name),
        None => stem_or(archive_path, "mod"),
    }
}

/// Makes the draft for an archive that was unpacked into
/// `temp_extract_dir`, whose children are `listing`.
pub fn prepare_pending_install(
    archive_path: String,
    temp_extract_dir: String,
    listing: &Option<Vec<DirItem>>,
) -> (r: PendingInstall)
    ensures
        r@ == spec_prepare_pending_install(archive_path@, temp_extract_dir@, listing.deep_view()),
{
    let custom_name = guess_mod_name(listing, archive_path.as_str());
    PendingInstall {
        source: PendingSource::Zip { archive_path, temp_extract_dir },
        install_target: InstallTarget::Tracks,
        custom_name,
        notes: String::new(),
        version: String::new(),
    }
}

/// Makes the draft for a single-file package, if the file exists.
pub fn prepare_pending_pkz_install(pkz_path: String, exists: bool) -> (r: Result<
    PendingInstall,
    StageError,
>)
    ensures
        stage_result_view(r) == spec_prepare_pending_pkz_install(pkz_path@, exists),
{
    if !exists {
        return Err(StageError::Missing);
    }
    let custom_name = stem_or(pkz_path.as_str(), "track");
    Ok(
        PendingInstall {
            source: PendingSource::Pkz { pkz_path },
            install_target: InstallTarget::Tracks,
            custom_name,
            notes: String::new(),
            version: String::new(),
        },
    )
}

/// Makes the draft for a single-file paint, if the file exists.
pub fn prepare_pending_pnt_install(pnt_path: String, exists: bool) -> (r: Result<
    PendingInstall,
    StageError,
>)
    ensures
        stage_result_view(r) == spec_prepare_pending_pnt_install(pnt_path@, exists),
{
    if !exists {
        return Err(StageError::Missing);
    }
    let custom_name = stem_or(pnt_path.as_str(), "rider");
    Ok(
        PendingInstall {
            source: PendingSource::Pnt { pnt_path },
            install_target: InstallTarget::RiderPaints,
            custom_name,
            notes: String::new(),
            version: String::new(),
        },
    )
}

/// What is done about a drop.
#[derive(Clone, Debug, PartialEq, Eq)]
pub enum DropDecision {
    /// Nothing was dropped.
    Nothing,
    /// A draft is pending; it has to be installed or cancelled first.
    Busy,
    /// Not exactly one file with a path was dropped.
    NotOneFile,
    /// The one file that was dropped is staged.
    Stage { path: String },
}

/// What a [`DropDecision`] holds, as text.
pub enum DropDecisionView {
    Nothing,
    Busy,
    NotOneFile,
    Stage { path: Seq<char> },
}

impl View for DropDecision {
    type V = DropDecisionView;

    open spec fn view(&self) -> DropDecisionView {
        match self {
            Self::Nothing => DropDecisionView::Nothing,
            Self::Busy => DropDecisionView::Busy,
            Self::NotOneFile => DropDecisionView::NotOneFile,
            Self::Stage { path } => DropDecisionView::Stage { path: path@ },
        }
    }
}

/// The paths among the dropped files; a dropped file may come without one.
pub open spec fn known_paths(dropped: Seq<Option<Seq<char>>>) -> Seq<Seq<char>>
    decreases dropped.len(),
{
    if dropped.len() == 0 {
        Seq::empty()
    } else {
        match dropped.last() {
            Some(path) => known_paths(dropped.drop_last()).push(path),
            None => known_paths(dropped.drop_last()),
        }
    }
}

/// The single slot for a draft guards staging: an empty drop does nothing;
/// while a draft is pending every drop is turned away; otherwise exactly one
/// path must have been dropped, and that one is staged.
pub open spec fn spec_handle_dropped_files(
    has_pending: bool,
    dropped: Seq<Option<Seq<char>>>,
) -> DropDecisionView {
    if dropped.len() == 0 {
        DropDecisionView::Nothing
    } else if has_pending {
        DropDecisionView::Busy
    } else if known_paths(dropped).len() != 1 {
        DropDecisionView::NotOneFile
    } else {
        DropDecisionView::Stage { path: known_paths(dropped)[0] }
    }
}

/// Decides what is done about the files that were dropped.
pub fn handle_dropped_files(has_pending: bool, dropped: &Vec<Option<String>>) -> (r: DropDecision)
    ensures
        r@ == spec_handle_dropped_files(has_pending, dropped.deep_view()),
{
    if dropped.len() == 0 {
        return DropDecision::Nothing;
    }
    if has_pending {
        return DropDecision::Busy;
    }
    let mut found: Option<usize> = None;
    let mut count: usize = 0;
    let mut i: usize = 0;
    while i < dropped.len()
        invariant
            0 <= i <= dropped.len(),
            count == known_paths(dropped.deep_view().take(i as int)).len(),
            count <= i,
            count == 1 ==> {
                &&& found matches Some(k)
                &&& k < i
                &&& dropped[k as int] matches Some(path)
                &&& known_paths(dropped.deep_view().take(i as int))[0] == path@
            },
        decreases dropped.len() - i,
    {
        proof {
            let next = dropped.deep_view().take(i + 1);
            assert(next.drop_last() =~= dropped.deep_view().take(i as int));
            assert(next.last() == dropped.deep_view()[i as int]);
        }
        match &dropped[i] {
            Some(_) => {
                if count == 0 {
                    found = Some(i);
                }
                count = count + 1;
            },
            None => {},
        }
        i = i + 1;
    }
    assert(dropped.deep_view().take(dropped.len() as int) =~= dropped.deep_view());
    if count != 1 {
        return DropDecision::NotOneFile;
    }
    match found {
        Some(k) => match &dropped[k] {
            Some(path) => DropDecision::Stage { path: path.clone() },
            None => DropDecision::NotOneFile,
        },
        None => DropDecision::NotOneFile,
    }
}

/// What cancelling a draft asks of the host: to remove the temporary
/// directory of an archive; nothing for a single file.
pub open spec fn spec_cancel(pending: PendingInstallView) -> FsRequestView {
    match pending.source.owned_dir() {
        Some(dir) => FsRequestView::RemoveTree { path: dir },
        None => FsRequestView::Finish,
    }
}

/// Cancels a draft: the draft is given up, and what it owned is to be
/// removed.
pub fn cancel(pending: PendingInstall) -> (r: FsRequest)
    ensures
        r@ == spec_cancel(pending@),
{
    match pending.source.cleanup() {
        Some(dir) => FsRequest::RemoveTree { path: String::from_str(dir) },
        None => FsRequest::Finish,
    }
}

/// Where a staging stands: which answer it waits for.
#[derive(Debug, PartialEq, Eq)]
pub enum StagePhase {
    /// A single file is being looked for.
    ProbingInput { kind: InputKind },
    /// The directory for all temporary directories is being created.
    PreparingBase,
    /// That directory is being listed.
    ListingBase,
    /// The temporary directory is being created.
    CreatingTempDir { dir: String },
    /// The archive is being read.
    ReadingArchive { dir: String },
    /// The entries are being written.
    Unpacking { dir: String },
    /// The temporary directory is being removed after a failure.
    Discarding { error: ExtractError },
    /// The temporary directory is being listed.
    Inspecting { dir: String },
    /// The staging has ended.
    Finished { result: Result<PendingInstall, StageError> },
}

/// What a [`StagePhase`] holds, as text.
pub enum StagePhaseView {
    ProbingInput { kind: InputKind },
    PreparingBase,
    ListingBase,
    CreatingTempDir { dir: Seq<char> },
    ReadingArchive { dir: Seq<char> },
    Unpacking { dir: Seq<char> },
    Discarding { error: ExtractErrorView },
    Inspecting { dir: Seq<char> },
    Finished { result: Result<PendingInstallView, StageErrorView> },
}

impl View for StagePhase {
    type V = StagePhaseView;

    open spec fn view(&self) -> StagePhaseView {
        match self {
            Self::ProbingInput { kind } => StagePhaseView::ProbingInput { kind: *kind },
            Self::PreparingBase => StagePhaseView::PreparingBase,
            Self::ListingBase => StagePhaseView::ListingBase,
            Self::CreatingTempDir { dir } => StagePhaseView::CreatingTempDir { dir: dir@ },
            Self::ReadingArchive { dir } => StagePhaseView::ReadingArchive { dir: dir@ },
            Self::Unpacking { dir } => StagePhaseView::Unpacking { dir: dir@ },
            Self::Discarding { error } => StagePhaseView::Discarding { error: error@ },
            Self::Inspecting { dir } => StagePhaseView::Inspecting { dir: dir@ },
            Self::Finished { result } => StagePhaseView::Finished {
                result: stage_result_view(*result),
            },
        }
    }
}

/// A staging under way: the dropped path, where temporary directories go,
/// what their names are made of, and the phase.
#[derive(Debug, PartialEq, Eq)]
pub struct Staging {
    pub input: String,
    pub temp_root: String,
    pub pid: u32,
    pub now_nanos: u128,
    pub phase: StagePhase,
}

/// What a [`Staging`] holds, as text.
pub struct StagingView {
    pub input: Seq<char>,
    pub temp_root: Seq<char>,
    pub pid: u32,
    pub now_nanos: u128,
    pub phase: StagePhaseView,
}

impl View for Staging {
    type V = StagingView;

    open spec fn view(&self) -> StagingView {
        StagingView {
            input: self.input@,
            temp_root: self.temp_root@,
            pid: self.pid,
            now_nanos: self.now_nanos,
            phase: self.phase@,
        }
    }
}

/// The directory that holds all temporary directories.
pub open spec fn spec_temp_base(temp_root: Seq<char>) -> Seq<char> {
    spec_join(temp_root, "mxbmm_extracts"@)
}

/// The names in a listing; none where the directory could not be read.
pub open spec fn listed_names(listing: Option<Seq<DirItemView>>) -> Seq<Seq<char>> {
    match listing {
        Some(items) => items.map_values(|item: DirItemView| item.name),
        None => Seq::empty(),
    }
}

/// The end of a staging: the phase that holds the result, and no request.
pub open spec fn staged(result: Result<PendingInstallView, StageErrorView>) -> (
    StagePhaseView,
    FsRequestView,
) {
    (StagePhaseView::Finished { result }, FsRequestView::Finish)
}

/// The phase in which a failed unpacking is cleaned up, and its request.
pub open spec fn discarding(dir: Seq<char>, error: ExtractErrorView) -> (
    StagePhaseView,
    FsRequestView,
) {
    (StagePhaseView::Discarding { error }, FsRequestView::RemoveTree { path: dir })
}

/// How a staging begins: a single file is looked for; for an archive the
/// directory for temporary directories is created; anything else is refused
/// at once.
pub open spec fn spec_begin_staging(input: Seq<char>, temp_root: Seq<char>) -> (
    StagePhaseView,
    FsRequestView,
) {
    match spec_classify(input) {
        InputKind::Package => (
            StagePhaseView::ProbingInput { kind: InputKind::Package },
            FsRequestView::ProbeExists { path: input },
        ),
        InputKind::Paint => (
            StagePhaseView::ProbingInput { kind: InputKind::Paint },
            FsRequestView::ProbeExists { path: input },
        ),
        InputKind::Archive => (
            StagePhaseView::PreparingBase,
            FsRequestView::CreateDirAll { path: spec_temp_base(temp_root) },
        ),
        InputKind::Unsupported => staged(Err(StageErrorView::Unsupported)),
    }
}

/// The phase after an answer, and the request made on entering it. An
/// answer that the phase does not wait for changes nothing and ends the
/// conversation.
pub open spec fn spec_advance_staging(staging: StagingView, event: FsEventView) -> (
    StagePhaseView,
    FsRequestView,
) {
    let input = staging.input;
    let base = spec_temp_base(staging.temp_root);
    let ignored = (staging.phase, FsRequestView::Finish);
    match staging.phase {
        StagePhaseView::ProbingInput { kind } => match event {
            FsEventView::Exists { exists } => if kind == InputKind::Paint {
                staged(spec_prepare_pending_pnt_install(input, exists))
            } else {
                staged(spec_prepare_pending_pkz_install(input, exists))
            },
            _ => ignored,
        },
        StagePhaseView::PreparingBase => match event {
            FsEventView::Done => (StagePhaseView::ListingBase, FsRequestView::ListDir { path: base }),
            FsEventView::Failed { cause } => staged(Err(StageErrorView::TempDir { cause })),
            _ => ignored,
        },
        StagePhaseView::ListingBase => match event {
            FsEventView::Listing { items } => match spec_create_temp_extract_dir(
                base,
                staging.pid as nat,
                staging.now_nanos as nat,
                listed_names(items),
            ) {
                Some(dir) => (
                    StagePhaseView::CreatingTempDir { dir },
                    FsRequestView::CreateDirAll { path: dir },
                ),
                None => staged(Err(StageErrorView::TempDirExhausted)),
            },
            _ => ignored,
        },
        StagePhaseView::CreatingTempDir { dir } => match event {
            FsEventView::Done => (
                StagePhaseView::ReadingArchive { dir },
                FsRequestView::ReadFile { path: input },
            ),
            FsEventView::Failed { cause } => staged(Err(StageErrorView::TempDir { cause })),
            _ => ignored,
        },
        StagePhaseView::ReadingArchive { dir } => match event {
            FsEventView::Bytes { data } => match spec_extract_zip_archive(data, dir) {
                Ok(steps) => (StagePhaseView::Unpacking { dir }, FsRequestView::Apply { steps }),
                Err(error) => discarding(dir, error),
            },
            FsEventView::Failed { cause } => discarding(dir, ExtractErrorView::Io { cause }),
            _ => ignored,
        },
        StagePhaseView::Unpacking { dir } => match event {
            FsEventView::Done => (
                StagePhaseView::Inspecting { dir },
                FsRequestView::ListDir { path: dir },
            ),
            FsEventView::Failed { cause } => discarding(dir, ExtractErrorView::Io { cause }),
            _ => ignored,
        },
        StagePhaseView::Discarding { error } => match event {
            FsEventView::Done | FsEventView::Failed { .. } => staged(
                Err(StageErrorView::Extract { error }),
            ),
            _ => ignored,
        },
        StagePhaseView::Inspecting { dir } => match event {
            FsEventView::Listing { items } => staged(
                Ok(spec_prepare_pending_install(input, dir, items)),
            ),
            _ => ignored,
        },
        StagePhaseView::Finished { .. } => ignored,
    }
}

/// The names in a listing.
fn names_of(listing: &Option<Vec<DirItem>>) -> (r: Vec<String>)
    ensures
        r.deep_view() == listed_names(listing.deep_view()),
{
    let mut names: Vec<String> = Vec::new();
    match listing {
        Some(items) => {
            let mut i: usize = 0;
            while i < items.len()
                invariant
                    0 <= i <= items.len(),
                    names.len() == i,
                    forall|k: int| 0 <= k < i ==> names[k]@ == items[k].name@,
                decreases items.len() - i,
            {
                names.push(items[i].name.clone());
                i = i + 1;
            }
            assert(names.deep_view() =~= listed_names(listing.deep_view()));
        },
        None => {
            assert(names.deep_view() =~= listed_names(listing.deep_view()));
        },
    }
    names
}

impl Staging {
    /// Begins the staging of the dropped path `input`. Temporary
    /// directories go below `temp_root`; `pid` and `now_nanos` go into their
    /// names.
    pub fn begin(input: String, temp_root: &str, pid: u32, now_nanos: u128) -> (r: (
        Staging,
        FsRequest,
    ))
        ensures
            r.0.input == input,
            r.0.temp_root@ == temp_root@,
            r.0.pid == pid,
            r.0.now_nanos == now_nanos,
            (r.0@.phase, r.1@) == spec_begin_staging(input@, temp_root@),
    {
        let kind = classify(input.as_str());
        let (phase, request) = match kind {
            InputKind::Package | InputKind::Paint => (
                StagePhase::ProbingInput { kind },
                FsRequest::ProbeExists { path: input.clone() },
            ),
            InputKind::Archive => (
                StagePhase::PreparingBase,
                FsRequest::CreateDirAll { path: join(temp_root, "mxbmm_extracts") },
            ),
            InputKind::Unsupported => (
                StagePhase::Finished { result: Err(StageError::Unsupported) },
                FsRequest::Finish,
            ),
        };
        (Staging { input, temp_root: String::from_str(temp_root), pid, now_nanos, phase }, request)
    }

    /// Takes the host's answer to the last request and makes the next one.
    pub fn advance(self, event: FsEvent) -> (r: (Staging, FsRequest))
        ensures
            r.0.input == self.input,
            r.0.temp_root == self.temp_root,
            r.0.pid == self.pid,
            r.0.now_nanos == self.now_nanos,
            (r.0@.phase, r.1@) == spec_advance_staging(self@, event@),
    {
        let Staging { input, temp_root, pid, now_nanos, phase } = self;
        let (next, request) = match phase {
            StagePhase::ProbingInput { kind } => match event {
                FsEvent::Exists { exists } => {
                    let result = match kind {
                        InputKind::Paint => prepare_pending_pnt_install(input.clone(), exists),
                        _ => prepare_pending_pkz_install(input.clone(), exists),
                    };
                    (StagePhase::Finished { result }, FsRequest::Finish)
                },
                _ => (StagePhase::ProbingInput { kind }, FsRequest::Finish),
            },
            StagePhase::PreparingBase => match event {
                FsEvent::Done => (
                    StagePhase::ListingBase,
                    FsRequest::ListDir { path: join(temp_root.as_str(), "mxbmm_extracts") },
                ),
                FsEvent::Failed { cause } => (
                    StagePhase::Finished { result: Err(StageError::TempDir { cause }) },
                    FsRequest::Finish,
                ),
                _ => (StagePhase::PreparingBase, FsRequest::Finish),
            },
            StagePhase::ListingBase => match event {
                FsEvent::Listing { items } => {
                    let base = join(temp_root.as_str(), "mxbmm_extracts");
                    let taken = names_of(&items);
                    match create_temp_extract_dir(base.as_str(), pid, now_nanos, &taken) {
                        Ok(dir) => (
                            StagePhase::CreatingTempDir { dir: dir.clone() },
                            FsRequest::CreateDirAll { path: dir },
                        ),
                        Err(_) => (
                            StagePhase::Finished { result: Err(StageError::TempDirExhausted) },
                            FsRequest::Finish,
                        ),
                    }
                },
                _ => (StagePhase::ListingBase, FsRequest::Finish),
            },
            StagePhase::CreatingTempDir { dir } => match event {
                FsEvent::Done => (
                    StagePhase::ReadingArchive { dir },
                    FsRequest::ReadFile { path: input.clone() },
                ),
                FsEvent::Failed { cause } => (
                    StagePhase::Finished { result: Err(StageError::TempDir { cause }) },
                    FsRequest::Finish,
                ),
                _ => (StagePhase::CreatingTempDir { dir }, FsRequest::Finish),
            },
            StagePhase::ReadingArchive { dir } => match event {
                FsEvent::Bytes { data } => match extract_zip_archive(data, dir.as_str()) {
                    Ok(steps) => (StagePhase::Unpacking { dir }, FsRequest::Apply { steps }),
                    Err(error) => (
                        StagePhase::Discarding { error },
                        FsRequest::RemoveTree { path: dir },
                    ),
                },
                FsEvent::Failed { cause } => (
                    StagePhase::Discarding { error: ExtractError::Io { cause } },
                    FsRequest::RemoveTree { path: dir },
                ),
                _ => (StagePhase::ReadingArchive { dir }, FsRequest::Finish),
            },
            StagePhase::Unpacking { dir } => match event {
                FsEvent::Done => (
                    StagePhase::Inspecting { dir: dir.clone() },
                    FsRequest::ListDir { path: dir },
                ),
                FsEvent::Failed { cause } => (
                    StagePhase::Discarding { error: ExtractError::Io { cause } },
                    FsRequest::RemoveTree { path: dir },
                ),
                _ => (StagePhase::Unpacking { dir }, FsRequest::Finish),
            },
            StagePhase::Discarding { error } => match event {
                FsEvent::Done | FsEvent::Failed { .. } => (
                    StagePhase::Finished { result: Err(StageError::Extract { error }) },
                    FsRequest::Finish,
                ),
                _ => (StagePhase::Discarding { error }, FsRequest::Finish),
            },
            StagePhase::Inspecting { dir } => match event {
                FsEvent::Listing { items } => (
                    StagePhase::Finished {
                        result: Ok(prepare_pending_install(input.clone(), dir, &items)),
                    },
                    FsRequest::Finish,
                ),
                _ => (StagePhase::Inspecting { dir }, FsRequest::Finish),
            },
            StagePhase::Finished { result } => (StagePhase::Finished { result }, FsRequest::Finish),
        };
        (Staging { input, temp_root, pid, now_nanos, phase: next }, request)
    }

    /// Ends the conversation: the draft or the error, once the staging has
    /// ended; nothing before that.
    pub fn settle(self) -> (r: Option<Result<PendingInstall, StageError>>)
        ensures
            (match self.phase {
                StagePhase::Finished { result } => r == Some(result),
                _ => r is None,
            }),
    {
        match self.phase {
            StagePhase::Finished { result } => Some(result),
            _ => None,
        }
    }
}

/// A path of no known kind is refused before anything is asked of the host:
/// the refusal has no side effect.
pub proof fn lemma_unsupported_is_refused(input: Seq<char>, temp_root: Seq<char>)
    ensures
        spec_classify(input) == InputKind::Unsupported <==> spec_begin_staging(input, temp_root)
            == staged(Err(StageErrorView::Unsupported)),
{
}

/// A whole conversation: where the staging stands after the host has given
/// the answers `events` one after the other, and all the requests that were
/// made of the host on the way, the first one included.
pub open spec fn spec_run_staging(start: StagingView, events: Seq<FsEventView>) -> (
    StagePhaseView,
    Seq<FsRequestView>,
)
    decreases events.len(),
{
    if events.len() == 0 {
        let first = spec_begin_staging(start.input, start.temp_root);
        (first.0, seq![first.1])
    } else {
        let before = spec_run_staging(start, events.drop_last());
        let next = spec_advance_staging(
            StagingView {
                input: start.input,
                temp_root: start.temp_root,
                pid: start.pid,
                now_nanos: start.now_nanos,
                phase: before.0,
            },
            events.last(),
        );
        (next.0, before.1.push(next.1))
    }
}

/// What holds of the requests made so far, by the phase that was reached.
pub open spec fn staging_invariant(phase: StagePhaseView, requests: Seq<FsRequestView>) -> bool {
    match phase {
        StagePhaseView::ProbingInput { .. } => all_harmless(requests),
        StagePhaseView::PreparingBase => all_harmless(requests),
        StagePhaseView::ListingBase => all_harmless(requests),
        StagePhaseView::CreatingTempDir { dir } => {
            all_harmless(requests) && last_created(requests) == Some(dir)
        },
        StagePhaseView::ReadingArchive { dir } => last_created(requests) == Some(dir),
        StagePhaseView::Unpacking { dir } => last_created(requests) == Some(dir),
        StagePhaseView::Inspecting { dir } => last_created(requests) == Some(dir),
        StagePhaseView::Discarding { .. } => {
            last_created(requests) matches Some(dir) && last_asked(requests)
                == (FsRequestView::RemoveTree { path: dir })
        },
        StagePhaseView::Finished { result: Err(StageErrorView::Extract { .. }) } => {
            last_created(requests) matches Some(dir) && last_asked(requests)
                == (FsRequestView::RemoveTree { path: dir })
        },
        StagePhaseView::Finished { result: Err(_) } => all_harmless(requests),
        StagePhaseView::Finished { result: Ok(pending) } => {
            pending.source.owned_dir() matches Some(dir) ==> last_created(requests) == Some(dir)
        },
    }
}

/// The invariant holds after every conversation.
pub proof fn lemma_staging_invariant(start: StagingView, events: Seq<FsEventView>)
    ensures
        staging_invariant(spec_run_staging(start, events).0, spec_run_staging(start, events).1),
    decreases events.len(),
{
    if events.len() > 0 {
        lemma_staging_invariant(start, events.drop_last());
        let before = spec_run_staging(start, events.drop_last());
        let next = spec_advance_staging(
            StagingView {
                input: start.input,
                temp_root: start.temp_root,
                pid: start.pid,
                now_nanos: start.now_nanos,
                phase: before.0,
            },
            events.last(),
        );
        let after = before.1.push(next.1);
        assert(after.last() == next.1);
        assert(after.drop_last() =~= before.1);
        if all_harmless(before.1) && next.1.is_harmless() {
            assert forall|i: int| 0 <= i < after.len() implies (#[trigger] after[i]).is_harmless() by {
                if i < before.1.len() {
                    assert(after[i] == before.1[i]);
                }
            }
        }
    }
}

/// A failed staging leaves nothing behind, whatever the host answers: a
/// staging that fails to unpack has last asked for the temporary directory
/// that it created to be removed; a staging that fails for any other reason
/// has asked for nothing but harmless things.
pub proof fn lemma_failed_staging_leaves_nothing(start: StagingView, events: Seq<FsEventView>)
    requires
        (spec_run_staging(start, events).0 matches StagePhaseView::Finished { result: Err(_) }),
    ensures
        ({
            let end = spec_run_staging(start, events);
            if end.0 matches StagePhaseView::Finished {
                result: Err(StageErrorView::Extract { .. }),
            } {
                last_created(end.1) matches Some(dir) && last_asked(end.1)
                    == (FsRequestView::RemoveTree { path: dir })
            } else {
                all_harmless(end.1)
            }
        }),
{
    lemma_staging_invariant(start, events);
}

/// The temporary directory of a staged archive is the directory that was
/// created for it: the draft owns what its staging made.
pub proof fn lemma_staged_archive_owns_its_dir(start: StagingView, events: Seq<FsEventView>)
    requires
        (spec_run_staging(start, events).0 matches StagePhaseView::Finished { result: Ok(_) }),
    ensures
        ({
            let end = spec_run_staging(start, events);
            let pending = end.0->Finished_result->Ok_0;
            pending.source.owned_dir() matches Some(dir) ==> last_created(end.1) == Some(dir)
        }),
{
    lemma_staging_invariant(start, events);
}

/// A staged archive owns the temporary directory that it was unpacked
/// into: cancelling it asks for exactly that directory to be removed.
pub proof fn lemma_cancel_releases_staged_archive(staging: StagingView, items: Option<
    Seq<DirItemView>,
>)
    requires
        staging.phase is Inspecting,
    ensures
        (spec_advance_staging(staging, FsEventView::Listing { items }).0 matches StagePhaseView::Finished {
            result: Ok(pending),
        } && spec_cancel(pending) == (FsRequestView::RemoveTree {
            path: staging.phase->Inspecting_dir,
        })),
{
}

} // verus!
