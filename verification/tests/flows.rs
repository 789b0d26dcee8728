use mxbmm::archive::ExtractError;
use mxbmm::commit::Commit;
use mxbmm::commit::CommitError;
use mxbmm::commit::CommitOutcome;
use mxbmm::commit::Settlement;
use mxbmm::model::InstallTarget;
use mxbmm::model::PendingInstall;
use mxbmm::model::PendingSource;
use mxbmm::protocol::DirItem;
use mxbmm::protocol::FsEvent;
use mxbmm::protocol::FsRequest;
use mxbmm::protocol::FsStep;
use mxbmm::protocol::WalkedEntry;
use mxbmm::scanner::scan_category;
use mxbmm::staging::cancel;
use mxbmm::staging::handle_dropped_files;
use mxbmm::staging::DropDecision;
use mxbmm::staging::StageError;
use mxbmm::staging::Staging;
use std::collections::BTreeMap;
use std::collections::BTreeSet;
use std::io::Cursor;
use std::io::Write;
use zip::write::SimpleFileOptions;
use zip::CompressionMethod;
use zip::ZipWriter;

/// A file system in memory: directories and files by their paths.
struct Disk {
    dirs: BTreeSet<String>,
    files: BTreeMap<String, Vec<u8>>,
    read_only: Option<String>,
}

fn parent_of(path: &str) -> Option<&str> {
    path.rfind('/').map(|cut| if cut == 0 { "/" } else { &path[..cut] })
}

impl Disk {
    fn new() -> Disk {
        let mut dirs = BTreeSet::new();
        dirs.insert("/".to_string());
        Disk { dirs, files: BTreeMap::new(), read_only: None }
    }

    fn frozen(&self, path: &str) -> bool {
        match &self.read_only {
            Some(prefix) => path.starts_with(prefix.as_str()),
            None => false,
        }
    }

    fn create_dir_all(&mut self, path: &str) -> Result<(), String> {
        if self.files.contains_key(path) {
            return Err(format!("{} is a file", path));
        }
        if self.dirs.contains(path) {
            return Ok(());
        }
        if self.frozen(path) {
            return Err(format!("{} is read-only", path));
        }
        if let Some(above) = parent_of(path) {
            self.create_dir_all(above)?;
        }
        self.dirs.insert(path.to_string());
        Ok(())
    }

    fn write(&mut self, path: &str, data: Vec<u8>) -> Result<(), String> {
        let above = parent_of(path).unwrap_or("/");
        if !self.dirs.contains(above) || self.dirs.contains(path) || self.frozen(path) {
            return Err(format!("cannot write {}", path));
        }
        self.files.insert(path.to_string(), data);
        Ok(())
    }

    fn has(&self, path: &str) -> bool {
        self.dirs.contains(path) || self.files.contains_key(path)
    }

    fn below(&self, dir: &str) -> Vec<(String, bool)> {
        let prefix = format!("{}/", dir.trim_end_matches('/'));
        let mut found: Vec<(String, bool)> = Vec::new();
        for path in &self.dirs {
            if path.starts_with(prefix.as_str()) {
                found.push((path.clone(), true));
            }
        }
        for path in self.files.keys() {
            if path.starts_with(prefix.as_str()) {
                found.push((path.clone(), false));
            }
        }
        found.sort();
        found
    }

    fn list(&self, dir: &str) -> Option<Vec<DirItem>> {
        if !self.dirs.contains(dir) {
            return None;
        }
        let prefix = format!("{}/", dir.trim_end_matches('/'));
        Some(
            self.below(dir)
                .into_iter()
                .filter(|(path, _)| !path[prefix.len()..].contains('/'))
                .map(|(path, is_dir)| DirItem { name: path[prefix.len()..].to_string(), is_dir })
                .collect(),
        )
    }

    fn walk(&self, dir: &str) -> Result<Vec<WalkedEntry>, String> {
        if !self.dirs.contains(dir) {
            return Err(format!("{} is no directory", dir));
        }
        let mut entries = vec![WalkedEntry { path: dir.to_string(), is_dir: true, is_file: false }];
        for (path, is_dir) in self.below(dir) {
            entries.push(WalkedEntry { path, is_dir, is_file: !is_dir });
        }
        Ok(entries)
    }

    fn remove_tree(&mut self, dir: &str) {
        let doomed = self.below(dir);
        for (path, is_dir) in doomed {
            if is_dir {
                self.dirs.remove(&path);
            } else {
                self.files.remove(&path);
            }
        }
        self.dirs.remove(dir);
    }

    fn apply(&mut self, steps: Vec<FsStep>) -> Result<(), String> {
        for step in steps {
            match step {
                FsStep::CreateDirAll { path } => self.create_dir_all(&path)?,
                FsStep::WriteFile { path, data } => self.write(&path, data)?,
                FsStep::CopyFile { from, to } => {
                    let data = self.files.get(&from).cloned().ok_or(format!("{} is missing", from))?;
                    self.write(&to, data)?;
                }
            }
        }
        Ok(())
    }

    fn answer(&mut self, request: FsRequest) -> FsEvent {
        let outcome = match request {
            FsRequest::CreateDirAll { path } => self.create_dir_all(&path),
            FsRequest::ProbeExists { path } => return FsEvent::Exists { exists: self.has(&path) },
            FsRequest::ListDir { path } => return FsEvent::Listing { items: self.list(&path) },
            FsRequest::Walk { path } => match self.walk(&path) {
                Ok(entries) => return FsEvent::Walked { entries },
                Err(cause) => Err(cause),
            },
            FsRequest::ReadFile { path } => match self.files.get(&path) {
                Some(data) => return FsEvent::Bytes { data: data.clone() },
                None => Err(format!("{} is missing", path)),
            },
            FsRequest::Apply { steps } => self.apply(steps),
            FsRequest::WriteText { path, content } => self.write(&path, content.into_bytes()),
            FsRequest::RemoveTree { path } => {
                self.remove_tree(&path);
                Ok(())
            }
            FsRequest::RemoveFile { path } => {
                self.files.remove(&path);
                Ok(())
            }
            FsRequest::Finish => Ok(()),
        };
        match outcome {
            Ok(()) => FsEvent::Done,
            Err(cause) => FsEvent::Failed { cause },
        }
    }
}

fn stage(disk: &mut Disk, input: &str, now_nanos: u128) -> Result<PendingInstall, StageError> {
    let (mut staging, mut request) = Staging::begin(input.to_string(), "/tmp", 77, now_nanos);
    while request != FsRequest::Finish {
        let event = disk.answer(request);
        let next = staging.advance(event);
        staging = next.0;
        request = next.1;
    }
    staging.settle().unwrap()
}

fn commit(disk: &mut Disk, pending: PendingInstall, root: &str) -> Settlement {
    let (mut commit, mut request) = Commit::begin(pending, root);
    while request != FsRequest::Finish {
        let event = disk.answer(request);
        let next = commit.advance(event);
        commit = next.0;
        request = next.1;
    }
    commit.settle()
}

fn pack_archive() -> Vec<u8> {
    let mut writer = ZipWriter::new(Cursor::new(Vec::new()));
    let stored = SimpleFileOptions::default().compression_method(CompressionMethod::Stored);
    let deflated = SimpleFileOptions::default().compression_method(CompressionMethod::Deflated);
    writer.add_directory("Pack/", stored).unwrap();
    writer.start_file("Pack/a.txt", deflated).unwrap();
    writer.write_all(b"alpha alpha alpha alpha").unwrap();
    writer.start_file("Pack/sub/b.txt", stored).unwrap();
    writer.write_all(b"beta").unwrap();
    writer.finish().unwrap().into_inner()
}

fn flat_archive() -> Vec<u8> {
    let mut writer = ZipWriter::new(Cursor::new(Vec::new()));
    let stored = SimpleFileOptions::default().compression_method(CompressionMethod::Stored);
    writer.start_file("track.trp", stored).unwrap();
    writer.write_all(b"track").unwrap();
    writer.start_file("readme.txt", stored).unwrap();
    writer.write_all(b"read me").unwrap();
    writer.finish().unwrap().into_inner()
}

fn disk_with(path: &str, data: Vec<u8>) -> Disk {
    let mut disk = Disk::new();
    disk.create_dir_all(parent_of(path).unwrap()).unwrap();
    disk.write(path, data).unwrap();
    disk
}

#[test]
fn staged_archive_with_one_folder_is_named_after_it() {
    let mut disk = disk_with("/drop/download.zip", pack_archive());
    let pending = stage(&mut disk, "/drop/download.zip", 5).unwrap();
    assert_eq!(pending.custom_name, "Pack");
    assert_eq!(pending.install_target, InstallTarget::Tracks);
    assert_eq!(
        pending.source,
        PendingSource::Zip {
            archive_path: "/drop/download.zip".to_string(),
            temp_extract_dir: "/tmp/mxbmm_extracts/extract-77-5-0".to_string(),
        }
    );
    assert_eq!(
        disk.files.get("/tmp/mxbmm_extracts/extract-77-5-0/Pack/a.txt"),
        Some(&b"alpha alpha alpha alpha".to_vec())
    );
    assert_eq!(
        disk.files.get("/tmp/mxbmm_extracts/extract-77-5-0/Pack/sub/b.txt"),
        Some(&b"beta".to_vec())
    );
}

#[test]
fn staged_archive_with_top_level_files_is_named_after_the_archive() {
    let mut disk = disk_with("/drop/Forest Track.zip", flat_archive());
    let pending = stage(&mut disk, "/drop/Forest Track.zip", 5).unwrap();
    assert_eq!(pending.custom_name, "Forest Track");
}

#[test]
fn round_trip_installs_the_contents_of_the_single_folder() {
    let mut disk = disk_with("/drop/download.zip", pack_archive());
    let mut pending = stage(&mut disk, "/drop/download.zip", 5).unwrap();
    pending.custom_name = "MyMod".to_string();
    pending.version = "2".to_string();
    let settled = commit(&mut disk, pending, "/mods");
    assert_eq!(
        settled.result,
        Some(Ok(CommitOutcome::Installed { destination: "/mods/tracks/MyMod".to_string() }))
    );
    assert_eq!(settled.pending, None);
    assert_eq!(
        disk.files.get("/mods/tracks/MyMod/a.txt"),
        Some(&b"alpha alpha alpha alpha".to_vec())
    );
    assert_eq!(disk.files.get("/mods/tracks/MyMod/sub/b.txt"), Some(&b"beta".to_vec()));
    assert_eq!(
        disk.files.get("/mods/tracks/MyMod/_mxbmm_meta.txt"),
        Some(&b"install_target=tracks\nversion=2\narchive=/drop/download.zip\nnotes=\n".to_vec())
    );
    assert!(!disk.has("/mods/tracks/MyMod/Pack"));
    assert!(!disk.has("/tmp/mxbmm_extracts/extract-77-5-0"));
    let listing = disk.list("/mods/tracks");
    let mods = scan_category("/mods", InstallTarget::Tracks, &listing);
    assert_eq!(mods.len(), 1);
    assert_eq!(mods[0].name, "MyMod");
    assert_eq!(mods[0].path, "/mods/tracks/MyMod");
}

#[test]
fn round_trip_without_a_single_folder_installs_everything() {
    let mut disk = disk_with("/drop/flat.zip", flat_archive());
    let pending = stage(&mut disk, "/drop/flat.zip", 5).unwrap();
    let settled = commit(&mut disk, pending, "/mods");
    assert_eq!(
        settled.result,
        Some(Ok(CommitOutcome::Installed { destination: "/mods/tracks/flat".to_string() }))
    );
    assert_eq!(disk.files.get("/mods/tracks/flat/track.trp"), Some(&b"track".to_vec()));
    assert_eq!(disk.files.get("/mods/tracks/flat/readme.txt"), Some(&b"read me".to_vec()));
    assert!(disk.has("/mods/tracks/flat/_mxbmm_meta.txt"));
}

#[test]
fn committing_onto_an_existing_install_changes_nothing() {
    let mut disk = disk_with("/drop/download.zip", pack_archive());
    disk.create_dir_all("/mods/tracks/Pack").unwrap();
    disk.write("/mods/tracks/Pack/old.txt", b"old".to_vec()).unwrap();
    let pending = stage(&mut disk, "/drop/download.zip", 5).unwrap();
    let dirs_before = disk.dirs.clone();
    let files_before = disk.files.clone();
    let settled = commit(&mut disk, pending.clone(), "/mods");
    assert_eq!(
        settled.result,
        Some(Err(CommitError::AlreadyExists { destination: "/mods/tracks/Pack".to_string() }))
    );
    assert_eq!(settled.pending, Some(pending));
    assert_eq!(disk.dirs, dirs_before);
    assert_eq!(disk.files, files_before);
}

#[test]
fn failed_copy_leaves_no_partial_install() {
    let mut disk = disk_with("/drop/download.zip", pack_archive());
    let pending = stage(&mut disk, "/drop/download.zip", 5).unwrap();
    disk.read_only = Some("/mods/tracks/Pack/sub".to_string());
    let settled = commit(&mut disk, pending.clone(), "/mods");
    assert!(matches!(settled.result, Some(Err(CommitError::CopyFailed { .. }))));
    assert_eq!(settled.pending, Some(pending));
    assert!(!disk.has("/mods/tracks/Pack"));
    assert!(disk.has("/mods/tracks"));
    assert!(disk.has("/tmp/mxbmm_extracts/extract-77-5-0/Pack/a.txt"));
    disk.read_only = None;
    let retried = commit(&mut disk, settled.pending.unwrap(), "/mods");
    assert_eq!(
        retried.result,
        Some(Ok(CommitOutcome::Installed { destination: "/mods/tracks/Pack".to_string() }))
    );
}

#[test]
fn failed_sidecar_keeps_the_install() {
    let mut disk = disk_with("/drop/download.zip", pack_archive());
    let pending = stage(&mut disk, "/drop/download.zip", 5).unwrap();
    disk.read_only = Some("/mods/tracks/Pack/_mxbmm_meta.txt".to_string());
    let settled = commit(&mut disk, pending, "/mods");
    assert!(matches!(
        settled.result,
        Some(Ok(CommitOutcome::InstalledWithWarning { .. }))
    ));
    assert_eq!(settled.pending, None);
    assert!(disk.has("/mods/tracks/Pack/a.txt"));
    assert!(!disk.has("/mods/tracks/Pack/_mxbmm_meta.txt"));
    assert!(!disk.has("/tmp/mxbmm_extracts/extract-77-5-0"));
}

#[test]
fn single_file_package_is_installed_with_its_extension() {
    let mut disk = disk_with("/drop/cool.pkz", b"package".to_vec());
    let mut pending = stage(&mut disk, "/drop/cool.pkz", 5).unwrap();
    assert_eq!(pending.custom_name, "cool");
    let plain = commit(&mut disk, pending.clone(), "/mods");
    assert_eq!(
        plain.result,
        Some(Ok(CommitOutcome::Installed { destination: "/mods/tracks/cool.pkz".to_string() }))
    );
    assert_eq!(disk.files.get("/mods/tracks/cool.pkz"), Some(&b"package".to_vec()));
    pending.custom_name = "cool.pkz".to_string();
    let again = commit(&mut disk, pending, "/mods");
    assert_eq!(
        again.result,
        Some(Err(CommitError::AlreadyExists { destination: "/mods/tracks/cool.pkz".to_string() }))
    );
    assert!(!disk.has("/mods/tracks/cool.pkz.pkz"));
}

#[test]
fn cancel_removes_the_temp_dir_and_staging_again_works() {
    let mut disk = disk_with("/drop/download.zip", pack_archive());
    let pending = stage(&mut disk, "/drop/download.zip", 5).unwrap();
    assert!(disk.has("/tmp/mxbmm_extracts/extract-77-5-0"));
    let dropped = vec![Some("/drop/download.zip".to_string())];
    assert_eq!(handle_dropped_files(true, &dropped), DropDecision::Busy);
    let request = cancel(pending);
    assert_eq!(
        request,
        FsRequest::RemoveTree { path: "/tmp/mxbmm_extracts/extract-77-5-0".to_string() }
    );
    disk.answer(request);
    assert!(!disk.has("/tmp/mxbmm_extracts/extract-77-5-0"));
    assert_eq!(
        handle_dropped_files(false, &dropped),
        DropDecision::Stage { path: "/drop/download.zip".to_string() }
    );
    let again = stage(&mut disk, "/drop/download.zip", 5).unwrap();
    assert_eq!(again.custom_name, "Pack");
    assert!(disk.has("/tmp/mxbmm_extracts/extract-77-5-0/Pack/a.txt"));
}

#[test]
fn two_stagings_at_the_same_time_get_different_temp_dirs() {
    let mut disk = disk_with("/drop/download.zip", pack_archive());
    let first = stage(&mut disk, "/drop/download.zip", 5).unwrap();
    let second = stage(&mut disk, "/drop/download.zip", 5).unwrap();
    assert_eq!(first.source.cleanup(), Some("/tmp/mxbmm_extracts/extract-77-5-0"));
    assert_eq!(second.source.cleanup(), Some("/tmp/mxbmm_extracts/extract-77-5-1"));
}

#[test]
fn corrupt_archive_is_not_staged_and_leaves_nothing_behind() {
    let mut disk = disk_with("/drop/broken.zip", b"PK but not really".to_vec());
    let staged = stage(&mut disk, "/drop/broken.zip", 5);
    assert_eq!(staged, Err(StageError::Extract { error: ExtractError::Corrupt }));
    assert_eq!(disk.list("/tmp/mxbmm_extracts"), Some(Vec::new()));
}

#[test]
fn missing_archive_is_an_io_failure() {
    let mut disk = Disk::new();
    let staged = stage(&mut disk, "/drop/gone.zip", 5);
    assert!(matches!(
        staged,
        Err(StageError::Extract { error: ExtractError::Io { .. } })
    ));
    assert_eq!(disk.list("/tmp/mxbmm_extracts"), Some(Vec::new()));
}
