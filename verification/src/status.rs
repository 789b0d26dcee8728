//! The message that tells the user how an operation ended.
//!
//! A success is told as `Success`, a refusal or a failure as `Error`. What
//! calls for the user's attention without having failed is told as `Info`:
//! a draft that waits to be edited, a drop that was turned away, and an
//! install whose files are in place while its sidecar is not.

use crate::archive::ExtractError;
use crate::archive::ExtractErrorView;
use crate::classify::classify;
use crate::classify::spec_classify;
use crate::classify::InputKind;
use crate::commit::result_view;
use crate::commit::CommitError;
use crate::commit::CommitErrorView;
use crate::commit::CommitOutcome;
use crate::commit::CommitOutcomeView;
use crate::model::ModEntry;
use crate::model::ModEntryView;
use crate::model::PendingInstall;
use crate::model::PendingInstallView;
use crate::model::PendingSource;
use crate::model::PendingSourceView;
use crate::model::StatusKind;
use crate::model::StatusMessage;
use crate::model::StatusMessageView;
use crate::staging::stage_result_view;
use crate::staging::DropDecision;
use crate::staging::DropDecisionView;
use crate::staging::StageError;
use crate::staging::StageErrorView;
use vstd::prelude::*;
use vstd::string::StringExecFns;

verus! {

/// A message of a kind with a text.
pub open spec fn message(kind: StatusKind, text: Seq<char>) -> StatusMessageView {
    StatusMessageView { kind, text }
}

/// The view of an optional message.
pub open spec fn opt_message_view(m: Option<StatusMessage>) -> Option<StatusMessageView> {
    match m {
        Some(status) => Some(status@),
        None => None,
    }
}

/// Three texts written one after the other.
fn compose(before: &str, middle: &str, after: &str) -> (r: String)
    ensures
        r@ == before@ + middle@ + after@,
{
    let mut text = String::from_str(before);
    text.append(middle);
    text.append(after);
    text
}

/// Two texts written one after the other.
fn compose_two(before: &str, after: &str) -> (r: String)
    ensures
        r@ == before@ + after@,
{
    let mut text = String::from_str(before);
    text.append(after);
    text
}

/// Makes a message.
fn tell(kind: StatusKind, text: String) -> (r: StatusMessage)
    ensures
        r@ == message(kind, text@),
{
    StatusMessage { kind, text }
}

/// What is told about a drop that is not staged: that a draft is pending,
/// or that more or less than one file was dropped.
pub open spec fn spec_drop_status(decision: DropDecisionView) -> Option<StatusMessageView> {
    match decision {
        DropDecisionView::Busy => Some(
            message(
                StatusKind::Info,
                "Finish or cancel the current pending install before dropping another file."@,
            ),
        ),
        DropDecisionView::NotOneFile => Some(
            message(StatusKind::Error, "Drop exactly one file at a time."@),
        ),
        _ => None,
    }
}

/// Tells the user why a drop was turned away.
pub fn drop_status(decision: &DropDecision) -> (r: Option<StatusMessage>)
    ensures
        opt_message_view(r) == spec_drop_status(decision@),
{
    match decision {
        DropDecision::Busy => Some(
            tell(
                StatusKind::Info,
                String::from_str(
                    "Finish or cancel the current pending install before dropping another file.",
                ),
            ),
        ),
        DropDecision::NotOneFile => Some(
            tell(StatusKind::Error, String::from_str("Drop exactly one file at a time.")),
        ),
        _ => None,
    }
}

/// The words for a staging error.
pub open spec fn spec_stage_error_text(error: StageErrorView) -> Seq<char> {
    match error {
        StageErrorView::Unsupported => "Unsupported file type. Supported: .zip, .pkz, and .pnt."@,
        StageErrorView::Missing => "File does not exist."@,
        StageErrorView::TempDirExhausted => "Failed to create a unique extraction directory."@,
        StageErrorView::TempDir { cause } => cause,
        StageErrorView::Extract { error: ExtractErrorView::Corrupt } => "The archive is corrupt."@,
        StageErrorView::Extract { error: ExtractErrorView::Io { cause } } => cause,
    }
}

/// What a failed staging is called, by the kind of the dropped file.
pub open spec fn spec_stage_failure_prefix(kind: InputKind) -> Seq<char> {
    match kind {
        InputKind::Package => "Failed to prepare .pkz file "@,
        InputKind::Paint => "Failed to prepare .pnt file "@,
        _ => "Failed to extract archive "@,
    }
}

/// What is told after a staging: that the draft waits to be edited, or why
/// there is none.
pub open spec fn spec_stage_status(
    input: Seq<char>,
    result: Result<PendingInstallView, StageErrorView>,
) -> StatusMessageView {
    match result {
        Ok(pending) => match pending.source {
            PendingSourceView::Zip { .. } => message(
                StatusKind::Info,
                "Archive extracted: "@ + input + ". Fill out mod details and install."@,
            ),
            PendingSourceView::Pkz { .. } => message(
                StatusKind::Info,
                ".pkz file loaded: "@ + input + ". Select mod type and install."@,
            ),
            PendingSourceView::Pnt { .. } => message(
                StatusKind::Info,
                ".pnt file loaded: "@ + input
                    + ". Default target is Rider Paints; change it if needed."@,
            ),
        },
        Err(StageErrorView::Unsupported) => message(
            StatusKind::Error,
            spec_stage_error_text(StageErrorView::Unsupported),
        ),
        Err(error) => message(
            StatusKind::Error,
            spec_stage_failure_prefix(spec_classify(input)) + input + ": "@
                + spec_stage_error_text(error),
        ),
    }
}

/// The words for a staging error.
fn stage_error_text(error: &StageError) -> (r: String)
    ensures
        r@ == spec_stage_error_text(error@),
{
    match error {
        StageError::Unsupported => String::from_str(
            "Unsupported file type. Supported: .zip, .pkz, and .pnt.",
        ),
        StageError::Missing => String::from_str("File does not exist."),
        StageError::TempDirExhausted => String::from_str(
            "Failed to create a unique extraction directory.",
        ),
        StageError::TempDir { cause } => cause.clone(),
        StageError::Extract { error } => match error {
            ExtractError::Corrupt => String::from_str("The archive is corrupt."),
            ExtractError::Io { cause } => cause.clone(),
        },
    }
}

/// Tells the user how the staging of the dropped path `input` ended.
pub fn stage_status(input: &str, result: &Result<PendingInstall, StageError>) -> (r: StatusMessage)
    ensures
        r@ == spec_stage_status(input@, stage_result_view(*result)),
{
    match result {
        Ok(pending) => match &pending.source {
            PendingSource::Zip { .. } => tell(
                StatusKind::Info,
                compose("Archive extracted: ", input, ". Fill out mod details and install."),
            ),
            PendingSource::Pkz { .. } => tell(
                StatusKind::Info,
                compose(".pkz file loaded: ", input, ". Select mod type and install."),
            ),
            PendingSource::Pnt { .. } => tell(
                StatusKind::Info,
                compose(
                    ".pnt file loaded: ",
                    input,
                    ". Default target is Rider Paints; change it if needed.",
                ),
            ),
        },
        Err(error) => match error {
            StageError::Unsupported => tell(StatusKind::Error, stage_error_text(error)),
            _ => {
                let prefix = match classify(input) {
                    InputKind::Package => "Failed to prepare .pkz file ",
                    InputKind::Paint => "Failed to prepare .pnt file ",
                    _ => "Failed to extract archive ",
                };
                let mut text = compose(prefix, input, ": ");
                text.append(stage_error_text(error).as_str());
                tell(StatusKind::Error, text)
            },
        },
    }
}

/// What is told after a commit. An install without its sidecar is no
/// failure: it is told as `Info`.
pub open spec fn spec_commit_status(
    result: Result<CommitOutcomeView, CommitErrorView>,
) -> StatusMessageView {
    match result {
        Ok(CommitOutcomeView::Installed { destination }) => message(
            StatusKind::Success,
            "Installed mod to "@ + destination,
        ),
        Ok(CommitOutcomeView::InstalledWithWarning { destination, cause }) => message(
            StatusKind::Info,
            "Installed, but failed to write metadata file in "@ + destination + ": "@ + cause,
        ),
        Err(CommitErrorView::EmptyName) => message(
            StatusKind::Error,
            "Install name cannot be empty."@,
        ),
        Err(CommitErrorView::Io { path, cause }) => message(
            StatusKind::Error,
            "Failed to create directory "@ + path + ": "@ + cause,
        ),
        Err(CommitErrorView::AlreadyExists { destination }) => message(
            StatusKind::Error,
            "Destination already exists: "@ + destination + ". Choose another install name."@,
        ),
        Err(CommitErrorView::CopyFailed { cause }) => message(
            StatusKind::Error,
            "Install failed while copying files: "@ + cause,
        ),
    }
}

/// Tells the user how a commit ended.
pub fn commit_status(result: &Result<CommitOutcome, CommitError>) -> (r: StatusMessage)
    ensures
        r@ == spec_commit_status(result_view(*result)),
{
    match result {
        Ok(outcome) => match outcome {
            CommitOutcome::Installed { destination } => tell(
                StatusKind::Success,
                compose_two("Installed mod to ", destination.as_str()),
            ),
            CommitOutcome::InstalledWithWarning { destination, cause } => {
                let mut text = compose(
                    "Installed, but failed to write metadata file in ",
                    destination.as_str(),
                    ": ",
                );
                text.append(cause.as_str());
                tell(StatusKind::Info, text)
            },
        },
        Err(error) => match error {
            CommitError::EmptyName => tell(
                StatusKind::Error,
                String::from_str("Install name cannot be empty."),
            ),
            CommitError::Io { path, cause } => {
                let mut text = compose("Failed to create directory ", path.as_str(), ": ");
                text.append(cause.as_str());
                tell(StatusKind::Error, text)
            },
            CommitError::AlreadyExists { destination } => tell(
                StatusKind::Error,
                compose(
                    "Destination already exists: ",
                    destination.as_str(),
                    ". Choose another install name.",
                ),
            ),
            CommitError::CopyFailed { cause } => tell(
                StatusKind::Error,
                compose_two("Install failed while copying files: ", cause.as_str()),
            ),
        },
    }
}

/// What is told after the removal of an installed mod.
pub open spec fn spec_uninstall_status(
    entry: ModEntryView,
    failure: Option<Seq<char>>,
) -> StatusMessageView {
    match failure {
        None => message(StatusKind::Success, "Removed mod "@ + entry.name),
        Some(cause) => message(
            StatusKind::Error,
            "Failed to remove "@ + entry.path + ": "@ + cause,
        ),
    }
}

/// Tells the user how the removal of an installed mod ended, given the
/// cause of its failure if it failed.
pub fn uninstall_status(entry: &ModEntry, failure: &Option<String>) -> (r: StatusMessage)
    ensures
        r@ == spec_uninstall_status(entry@, failure.deep_view()),
{
    match failure {
        None => tell(StatusKind::Success, compose_two("Removed mod ", entry.name.as_str())),
        Some(cause) => {
            let mut text = compose("Failed to remove ", entry.path.as_str(), ": ");
            text.append(cause.as_str());
            tell(StatusKind::Error, text)
        },
    }
}

/// What is told when a draft was cancelled.
pub fn cancel_status() -> (r: StatusMessage)
    ensures
        r@ == message(StatusKind::Info, "Pending install canceled."@),
{
    tell(StatusKind::Info, String::from_str("Pending install canceled."))
}

/// What is told when the watcher reported an error.
pub fn watch_error_status(cause: &str) -> (r: StatusMessage)
    ensures
        r@ == message(
            StatusKind::Info,
            "File watcher event error: "@ + cause@ + ". Refresh may be needed."@,
        ),
{
    tell(StatusKind::Info, compose("File watcher event error: ", cause, ". Refresh may be needed."))
}

/// What is told when no watcher could be started on a root.
pub fn watch_unavailable_status(root: &str, cause: &str) -> (r: StatusMessage)
    ensures
        r@ == message(
            StatusKind::Info,
            "File watcher unavailable for "@ + root@ + ": "@ + cause@
                + ". Use Refresh manually."@,
        ),
{
    let mut text = compose("File watcher unavailable for ", root, ": ");
    text.append(cause);
    text.append(". Use Refresh manually.");
    tell(StatusKind::Info, text)
}

/// A status is an error exactly for a commit that failed; a commit whose
/// files are in place is never told as an error.
pub proof fn lemma_commit_status_kind(result: Result<CommitOutcomeView, CommitErrorView>)
    ensures
        spec_commit_status(result).kind == StatusKind::Error <==> result is Err,
        result matches Ok(CommitOutcomeView::Installed { .. }) ==> spec_commit_status(result).kind
            == StatusKind::Success,
        result matches Ok(CommitOutcomeView::InstalledWithWarning { .. }) ==> spec_commit_status(
            result,
        ).kind == StatusKind::Info,
{
}

} // verus!
