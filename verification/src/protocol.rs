//! What the library asks of its host, and what the host answers.
//!
//! The library decides; the host reads and writes. A decision that needs the
//! file system is a [`FsRequest`]; the host carries it out and hands back
//! the [`FsEvent`] that answers it.

use vstd::prelude::*;

verus! {

/// One child of a directory, as a listing reports it.
#[derive(Clone, Debug, PartialEq, Eq)]
pub struct DirItem {
    pub name: String,
    pub is_dir: bool,
}

/// What a [`DirItem`] holds, as text.
pub struct DirItemView {
    pub name: Seq<char>,
    pub is_dir: bool,
}

impl View for DirItem {
    type V = DirItemView;

    open spec fn view(&self) -> DirItemView {
        DirItemView { name: self.name@, is_dir: self.is_dir }
    }
}

impl DeepView for DirItem {
    type V = DirItemView;

    open spec fn deep_view(&self) -> DirItemView {
        self@
    }
}

/// The name of the only child of a listed directory, where that child is a
/// directory: the top-level folder that wraps everything else. A listing
/// that is missing, is empty, holds several children or holds a single file
/// has none.
pub open spec fn spec_sole_directory(listing: Option<Seq<DirItemView>>) -> Option<Seq<char>> {
    match listing {
        Some(items) => if items.len() == 1 && items[0].is_dir {
            Some(items[0].name)
        } else {
            None
        },
        None => None,
    }
}

/// Finds the directory that is the only child in a listing.
pub fn sole_directory(listing: &Option<Vec<DirItem>>) -> (r: Option<&str>)
    ensures
        (match r {
            Some(name) => spec_sole_directory(listing.deep_view()) == Some(name@),
            None => spec_sole_directory(listing.deep_view()) is None,
        }),
{
    match listing {
        Some(items) => {
            if items.len() == 1 && items[0].is_dir {
                Some(items[0].name.as_str())
            } else {
                None
            }
        },
        None => None,
    }
}

/// One entry met while walking a directory tree: its full path and whether it
/// is a directory or a regular file. A link is neither.
#[derive(Clone, Debug, PartialEq, Eq)]
pub struct WalkedEntry {
    pub path: String,
    pub is_dir: bool,
    pub is_file: bool,
}

/// What a [`WalkedEntry`] holds, as text.
pub struct WalkedEntryView {
    pub path: Seq<char>,
    pub is_dir: bool,
    pub is_file: bool,
}

impl View for WalkedEntry {
    type V = WalkedEntryView;

    open spec fn view(&self) -> WalkedEntryView {
        WalkedEntryView { path: self.path@, is_dir: self.is_dir, is_file: self.is_file }
    }
}

impl DeepView for WalkedEntry {
    type V = WalkedEntryView;

    open spec fn deep_view(&self) -> WalkedEntryView {
        self@
    }
}

/// One write to the file system. `CreateDirAll` creates a directory and the
/// directories above it, and succeeds where they exist already.
#[derive(Clone, Debug, PartialEq, Eq)]
pub enum FsStep {
    CreateDirAll { path: String },
    WriteFile { path: String, data: Vec<u8> },
    CopyFile { from: String, to: String },
}

/// What an [`FsStep`] holds, as text and bytes.
pub enum FsStepView {
    CreateDirAll { path: Seq<char> },
    WriteFile { path: Seq<char>, data: Seq<u8> },
    CopyFile { from: Seq<char>, to: Seq<char> },
}

impl FsStepView {
    /// The path that the step creates or writes.
    pub open spec fn target(self) -> Seq<char> {
        match self {
            Self::CreateDirAll { path } => path,
            Self::WriteFile { path, .. } => path,
            Self::CopyFile { to, .. } => to,
        }
    }
}

impl View for FsStep {
    type V = FsStepView;

    open spec fn view(&self) -> FsStepView {
        match self {
            Self::CreateDirAll { path } => FsStepView::CreateDirAll { path: path@ },
            Self::WriteFile { path, data } => FsStepView::WriteFile { path: path@, data: data@ },
            Self::CopyFile { from, to } => FsStepView::CopyFile { from: from@, to: to@ },
        }
    }
}

impl DeepView for FsStep {
    type V = FsStepView;

    open spec fn deep_view(&self) -> FsStepView {
        self@
    }
}

/// What the host is asked to do next.
///
/// `Apply` carries out its steps in order and stops at the first that fails.
/// `RemoveTree` removes a directory with all that is in it, `RemoveFile` a
/// single file. `Finish` asks for nothing: the operation has ended.
#[derive(Clone, Debug, PartialEq, Eq)]
pub enum FsRequest {
    CreateDirAll { path: String },
    ProbeExists { path: String },
    ListDir { path: String },
    Walk { path: String },
    ReadFile { path: String },
    Apply { steps: Vec<FsStep> },
    WriteText { path: String, content: String },
    RemoveTree { path: String },
    RemoveFile { path: String },
    Finish,
}

/// What an [`FsRequest`] holds, as text and bytes.
pub enum FsRequestView {
    CreateDirAll { path: Seq<char> },
    ProbeExists { path: Seq<char> },
    ListDir { path: Seq<char> },
    Walk { path: Seq<char> },
    ReadFile { path: Seq<char> },
    Apply { steps: Seq<FsStepView> },
    WriteText { path: Seq<char>, content: Seq<char> },
    RemoveTree { path: Seq<char> },
    RemoveFile { path: Seq<char> },
    Finish,
}

impl FsRequestView {
    /// The request changes nothing on disk, or only makes sure that a
    /// directory is there.
    pub open spec fn is_harmless(self) -> bool {
        match self {
            Self::CreateDirAll { .. } => true,
            Self::ProbeExists { .. } => true,
            Self::ListDir { .. } => true,
            Self::Walk { .. } => true,
            Self::ReadFile { .. } => true,
            Self::Finish => true,
            _ => false,
        }
    }
}

/// Every request is harmless.
pub open spec fn all_harmless(requests: Seq<FsRequestView>) -> bool {
    forall|i: int| 0 <= i < requests.len() ==> (#[trigger] requests[i]).is_harmless()
}

/// The last request that asked for something.
pub open spec fn last_asked(requests: Seq<FsRequestView>) -> FsRequestView
    decreases requests.len(),
{
    if requests.len() == 0 {
        FsRequestView::Finish
    } else if requests.last() is Finish {
        last_asked(requests.drop_last())
    } else {
        requests.last()
    }
}

/// The directory that was last asked to be created, if any was.
pub open spec fn last_created(requests: Seq<FsRequestView>) -> Option<Seq<char>>
    decreases requests.len(),
{
    if requests.len() == 0 {
        None
    } else {
        match requests.last() {
            FsRequestView::CreateDirAll { path } => Some(path),
            _ => last_created(requests.drop_last()),
        }
    }
}

impl View for FsRequest {
    type V = FsRequestView;

    open spec fn view(&self) -> FsRequestView {
        match self {
            Self::CreateDirAll { path } => FsRequestView::CreateDirAll { path: path@ },
            Self::ProbeExists { path } => FsRequestView::ProbeExists { path: path@ },
            Self::ListDir { path } => FsRequestView::ListDir { path: path@ },
            Self::Walk { path } => FsRequestView::Walk { path: path@ },
            Self::ReadFile { path } => FsRequestView::ReadFile { path: path@ },
            Self::Apply { steps } => FsRequestView::Apply { steps: steps.deep_view() },
            Self::WriteText { path, content } => FsRequestView::WriteText {
                path: path@,
                content: content@,
            },
            Self::RemoveTree { path } => FsRequestView::RemoveTree { path: path@ },
            Self::RemoveFile { path } => FsRequestView::RemoveFile { path: path@ },
            Self::Finish => FsRequestView::Finish,
        }
    }
}

/// The host's answer to a request.
///
/// `Done` and `Failed` answer a request that creates, writes, copies or
/// removes; `Failed` also answers a walk or a read that could not be made.
/// `Listing` holds the children of a directory, or nothing where the
/// directory could not be read.
#[derive(Clone, Debug, PartialEq, Eq)]
pub enum FsEvent {
    Done,
    Failed { cause: String },
    Exists { exists: bool },
    Listing { items: Option<Vec<DirItem>> },
    Walked { entries: Vec<WalkedEntry> },
    Bytes { data: Vec<u8> },
}

/// What an [`FsEvent`] holds, as text and bytes.
pub enum FsEventView {
    Done,
    Failed { cause: Seq<char> },
    Exists { exists: bool },
    Listing { items: Option<Seq<DirItemView>> },
    Walked { entries: Seq<WalkedEntryView> },
    Bytes { data: Seq<u8> },
}

impl View for FsEvent {
    type V = FsEventView;

    open spec fn view(&self) -> FsEventView {
        match self {
            Self::Done => FsEventView::Done,
            Self::Failed { cause } => FsEventView::Failed { cause: cause@ },
            Self::Exists { exists } => FsEventView::Exists { exists: *exists },
            Self::Listing { items } => FsEventView::Listing { items: items.deep_view() },
            Self::Walked { entries } => FsEventView::Walked { entries: entries.deep_view() },
            Self::Bytes { data } => FsEventView::Bytes { data: data@ },
        }
    }
}

} // verus!
