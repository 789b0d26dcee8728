use mxbmm::commit::destination_of;
use mxbmm::commit::installed_name;
use mxbmm::commit::Commit;
use mxbmm::commit::CommitError;
use mxbmm::commit::CommitOutcome;
use mxbmm::commit::CommitPhase;
use mxbmm::model::InstallTarget;
use mxbmm::model::PendingInstall;
use mxbmm::model::PendingSource;
use mxbmm::protocol::DirItem;
use mxbmm::protocol::FsEvent;
use mxbmm::protocol::FsRequest;
use mxbmm::protocol::FsStep;
use mxbmm::protocol::WalkedEntry;

fn archive_draft(name: &str) -> PendingInstall {
    PendingInstall {
        source: PendingSource::Zip {
            archive_path: "/drop/pack.zip".to_string(),
            temp_extract_dir: "/tmp/e/extract-1-2-0".to_string(),
        },
        install_target: InstallTarget::Tracks,
        custom_name: name.to_string(),
        notes: "line one\nline two".to_string(),
        version: " 1.0 ".to_string(),
    }
}

fn package_draft(name: &str) -> PendingInstall {
    PendingInstall {
        source: PendingSource::Pkz { pkz_path: "/drop/cool".to_string() },
        install_target: InstallTarget::Tracks,
        custom_name: name.to_string(),
        notes: String::new(),
        version: String::new(),
    }
}

fn paint_draft(name: &str) -> PendingInstall {
    PendingInstall {
        source: PendingSource::Pnt { pnt_path: "/drop/red.pnt".to_string() },
        install_target: InstallTarget::RiderPaints,
        custom_name: name.to_string(),
        notes: String::new(),
        version: String::new(),
    }
}

fn failed(cause: &str) -> FsEvent {
    FsEvent::Failed { cause: cause.to_string() }
}

fn walk_to_copy(pending: PendingInstall) -> (Commit, FsRequest) {
    let (commit, _) = Commit::begin(pending, "/mods");
    let (commit, _) = commit.advance(FsEvent::Done);
    let (commit, _) = commit.advance(FsEvent::Exists { exists: false });
    let (commit, _) = commit.advance(FsEvent::Done);
    let (commit, _) = commit.advance(FsEvent::Listing {
        items: Some(vec![DirItem { name: "Pack".to_string(), is_dir: true }]),
    });
    commit.advance(FsEvent::Walked {
        entries: vec![
            WalkedEntry { path: "/tmp/e/extract-1-2-0/Pack".to_string(), is_dir: true, is_file: false },
            WalkedEntry {
                path: "/tmp/e/extract-1-2-0/Pack/a.txt".to_string(),
                is_dir: false,
                is_file: true,
            },
        ],
    })
}

#[test]
fn blank_name_fails_with_empty_name_and_keeps_the_draft() {
    for name in ["", "   ", "\t\n", "\u{a0}\u{3000}"] {
        let draft = archive_draft(name);
        let (commit, request) = Commit::begin(draft.clone(), "/mods");
        assert_eq!(request, FsRequest::Finish);
        assert_eq!(commit.phase, CommitPhase::Finished { result: Err(CommitError::EmptyName) });
        let settled = commit.settle();
        assert_eq!(settled.result, Some(Err(CommitError::EmptyName)));
        assert_eq!(settled.pending, Some(draft));
    }
    let (commit, _) = Commit::begin(package_draft(" "), "/mods");
    assert_eq!(commit.settle().result, Some(Err(CommitError::EmptyName)));
}

#[test]
fn existing_destination_fails_before_anything_is_changed() {
    let draft = archive_draft("  MyMod ");
    let (commit, request) = Commit::begin(draft.clone(), "/mods");
    assert_eq!(request, FsRequest::CreateDirAll { path: "/mods/tracks".to_string() });
    let (commit, request) = commit.advance(FsEvent::Done);
    assert_eq!(request, FsRequest::ProbeExists { path: "/mods/tracks/MyMod".to_string() });
    let (commit, request) = commit.advance(FsEvent::Exists { exists: true });
    assert_eq!(request, FsRequest::Finish);
    let settled = commit.settle();
    assert_eq!(
        settled.result,
        Some(Err(CommitError::AlreadyExists { destination: "/mods/tracks/MyMod".to_string() }))
    );
    assert_eq!(settled.pending, Some(draft));
}

#[test]
fn failing_to_create_a_directory_is_an_io_error() {
    let (commit, _) = Commit::begin(archive_draft("MyMod"), "/mods");
    let (commit, request) = commit.advance(failed("denied"));
    assert_eq!(request, FsRequest::Finish);
    assert_eq!(
        commit.settle().result,
        Some(Err(CommitError::Io { path: "/mods/tracks".to_string(), cause: "denied".to_string() }))
    );

    let draft = archive_draft("MyMod");
    let (commit, _) = Commit::begin(draft.clone(), "/mods");
    let (commit, _) = commit.advance(FsEvent::Done);
    let (commit, request) = commit.advance(FsEvent::Exists { exists: false });
    assert_eq!(request, FsRequest::CreateDirAll { path: "/mods/tracks/MyMod".to_string() });
    let (commit, request) = commit.advance(failed("disk full"));
    assert_eq!(request, FsRequest::Finish);
    let settled = commit.settle();
    assert_eq!(
        settled.result,
        Some(Err(CommitError::Io {
            path: "/mods/tracks/MyMod".to_string(),
            cause: "disk full".to_string()
        }))
    );
    assert_eq!(settled.pending, Some(draft));
}

#[test]
fn archive_commit_copies_the_wrapped_directory_and_writes_the_sidecar() {
    let (commit, _) = Commit::begin(archive_draft("MyMod"), "/mods");
    let (commit, _) = commit.advance(FsEvent::Done);
    let (commit, _) = commit.advance(FsEvent::Exists { exists: false });
    let (commit, request) = commit.advance(FsEvent::Done);
    assert_eq!(request, FsRequest::ListDir { path: "/tmp/e/extract-1-2-0".to_string() });
    let (commit, request) = commit.advance(FsEvent::Listing {
        items: Some(vec![DirItem { name: "Pack".to_string(), is_dir: true }]),
    });
    assert_eq!(request, FsRequest::Walk { path: "/tmp/e/extract-1-2-0/Pack".to_string() });
    let (commit, request) = commit.advance(FsEvent::Walked {
        entries: vec![
            WalkedEntry { path: "/tmp/e/extract-1-2-0/Pack".to_string(), is_dir: true, is_file: false },
            WalkedEntry {
                path: "/tmp/e/extract-1-2-0/Pack/a.txt".to_string(),
                is_dir: false,
                is_file: true,
            },
        ],
    });
    assert_eq!(
        request,
        FsRequest::Apply {
            steps: vec![
                FsStep::CreateDirAll { path: "/mods/tracks/MyMod".to_string() },
                FsStep::CopyFile {
                    from: "/tmp/e/extract-1-2-0/Pack/a.txt".to_string(),
                    to: "/mods/tracks/MyMod/a.txt".to_string(),
                },
            ],
        }
    );
    let (commit, request) = commit.advance(FsEvent::Done);
    assert_eq!(
        request,
        FsRequest::WriteText {
            path: "/mods/tracks/MyMod/_mxbmm_meta.txt".to_string(),
            content: "install_target=tracks\nversion=1.0\narchive=/drop/pack.zip\nnotes=line one\\nline two\n"
                .to_string(),
        }
    );
    let (commit, request) = commit.advance(FsEvent::Done);
    assert_eq!(request, FsRequest::RemoveTree { path: "/tmp/e/extract-1-2-0".to_string() });
    let (commit, request) = commit.advance(FsEvent::Done);
    assert_eq!(request, FsRequest::Finish);
    let settled = commit.settle();
    assert_eq!(
        settled.result,
        Some(Ok(CommitOutcome::Installed { destination: "/mods/tracks/MyMod".to_string() }))
    );
    assert_eq!(settled.pending, None);
}

#[test]
fn failed_copy_removes_the_destination_and_keeps_the_draft() {
    let draft = archive_draft("MyMod");
    let (commit, _) = walk_to_copy(draft.clone());
    let (commit, request) = commit.advance(failed("disk full"));
    assert_eq!(request, FsRequest::RemoveTree { path: "/mods/tracks/MyMod".to_string() });
    assert_eq!(commit.phase, CommitPhase::RollingBack { cause: "disk full".to_string() });
    let (commit, request) = commit.advance(failed("could not remove"));
    assert_eq!(request, FsRequest::Finish);
    let settled = commit.settle();
    assert_eq!(
        settled.result,
        Some(Err(CommitError::CopyFailed { cause: "disk full".to_string() }))
    );
    assert_eq!(settled.pending, Some(draft));
}

#[test]
fn failed_walk_is_a_failed_copy() {
    let (commit, _) = Commit::begin(archive_draft("MyMod"), "/mods");
    let (commit, _) = commit.advance(FsEvent::Done);
    let (commit, _) = commit.advance(FsEvent::Exists { exists: false });
    let (commit, _) = commit.advance(FsEvent::Done);
    let (commit, request) = commit.advance(FsEvent::Listing { items: None });
    assert_eq!(request, FsRequest::Walk { path: "/tmp/e/extract-1-2-0".to_string() });
    let (commit, request) = commit.advance(failed("loop"));
    assert_eq!(request, FsRequest::RemoveTree { path: "/mods/tracks/MyMod".to_string() });
    let (commit, _) = commit.advance(FsEvent::Done);
    assert_eq!(
        commit.settle().result,
        Some(Err(CommitError::CopyFailed { cause: "loop".to_string() }))
    );
}

#[test]
fn failed_sidecar_is_a_warning() {
    let (commit, _) = walk_to_copy(archive_draft("MyMod"));
    let (commit, _) = commit.advance(FsEvent::Done);
    let (commit, request) = commit.advance(failed("denied"));
    assert_eq!(request, FsRequest::RemoveTree { path: "/tmp/e/extract-1-2-0".to_string() });
    let (commit, request) = commit.advance(failed("busy"));
    assert_eq!(request, FsRequest::Finish);
    let settled = commit.settle();
    assert_eq!(
        settled.result,
        Some(Ok(CommitOutcome::InstalledWithWarning {
            destination: "/mods/tracks/MyMod".to_string(),
            cause: "denied".to_string(),
        }))
    );
    assert_eq!(settled.pending, None);
}

#[test]
fn package_is_installed_under_its_extension() {
    for name in ["cool", "cool.pkz", " cool "] {
        let (commit, request) = Commit::begin(package_draft(name), "/mods");
        assert_eq!(request, FsRequest::CreateDirAll { path: "/mods/tracks".to_string() });
        let (commit, request) = commit.advance(FsEvent::Done);
        assert_eq!(request, FsRequest::ProbeExists { path: "/mods/tracks/cool.pkz".to_string() });
        let (commit, request) = commit.advance(FsEvent::Exists { exists: false });
        assert_eq!(
            request,
            FsRequest::Apply {
                steps: vec![FsStep::CopyFile {
                    from: "/drop/cool".to_string(),
                    to: "/mods/tracks/cool.pkz".to_string(),
                }],
            }
        );
        let (commit, request) = commit.advance(FsEvent::Done);
        assert_eq!(request, FsRequest::Finish);
        assert_eq!(
            commit.settle().result,
            Some(Ok(CommitOutcome::Installed { destination: "/mods/tracks/cool.pkz".to_string() }))
        );
    }
    assert_eq!(installed_name(&package_draft("Cool.PKZ")), "Cool.PKZ");
    assert_eq!(installed_name(&paint_draft("red")), "red.pnt");
    assert_eq!(installed_name(&archive_draft(" My Mod ")), "My Mod");
    assert_eq!(destination_of(&paint_draft("red"), "/mods"), "/mods/rider/riders/paints/red.pnt");
}

#[test]
fn single_file_failures_need_no_rollback() {
    let draft = paint_draft("red");
    let (commit, _) = Commit::begin(draft.clone(), "/mods");
    let (commit, _) = commit.advance(FsEvent::Done);
    let (commit, _) = commit.advance(FsEvent::Exists { exists: false });
    let (commit, request) = commit.advance(failed("denied"));
    assert_eq!(request, FsRequest::Finish);
    let settled = commit.settle();
    assert_eq!(settled.result, Some(Err(CommitError::CopyFailed { cause: "denied".to_string() })));
    assert_eq!(settled.pending, Some(draft));

    let (commit, _) = Commit::begin(paint_draft("red"), "/mods");
    let (commit, _) = commit.advance(FsEvent::Done);
    let (commit, request) = commit.advance(FsEvent::Exists { exists: true });
    assert_eq!(request, FsRequest::Finish);
    assert_eq!(
        commit.settle().result,
        Some(Err(CommitError::AlreadyExists {
            destination: "/mods/rider/riders/paints/red.pnt".to_string()
        }))
    );
}

#[test]
fn commit_under_way_settles_without_a_result() {
    let draft = archive_draft("MyMod");
    let (commit, _) = Commit::begin(draft.clone(), "/mods");
    let (commit, request) = commit.advance(FsEvent::Exists { exists: false });
    assert_eq!(request, FsRequest::Finish);
    assert_eq!(commit.phase, CommitPhase::CreatingBase);
    let settled = commit.settle();
    assert_eq!(settled.result, None);
    assert_eq!(settled.pending, Some(draft));
}

#[test]
fn finished_commit_ignores_further_answers() {
    let (commit, _) = Commit::begin(archive_draft(""), "/mods");
    let (commit, request) = commit.advance(FsEvent::Done);
    assert_eq!(request, FsRequest::Finish);
    assert_eq!(commit.phase, CommitPhase::Finished { result: Err(CommitError::EmptyName) });
}
