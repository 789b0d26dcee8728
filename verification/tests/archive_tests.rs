use mxbmm::archive::extract_zip_archive;
use mxbmm::archive::plan_entry;
use mxbmm::archive::EntryPlan;
use mxbmm::archive::ExtractError;
use mxbmm::protocol::FsStep;
use std::io::Cursor;
use std::io::Write;
use zip::write::SimpleFileOptions;
use zip::CompressionMethod;
use zip::ZipWriter;

fn build_archive(entries: &[(&str, Option<&[u8]>)]) -> Vec<u8> {
    let mut writer = ZipWriter::new(Cursor::new(Vec::new()));
    let options = SimpleFileOptions::default().compression_method(CompressionMethod::Stored);
    for (name, data) in entries {
        match data {
            Some(bytes) => {
                writer.start_file(*name, options).unwrap();
                writer.write_all(bytes).unwrap();
            }
            None => {
                writer.add_directory(*name, options).unwrap();
            }
        }
    }
    writer.finish().unwrap().into_inner()
}

fn dir(path: &str) -> FsStep {
    FsStep::CreateDirAll { path: path.to_string() }
}

fn file(path: &str, data: &[u8]) -> FsStep {
    FsStep::WriteFile { path: path.to_string(), data: data.to_vec() }
}

#[test]
fn archive_is_unpacked_entry_by_entry() {
    let bytes = build_archive(&[
        ("Pack/", None),
        ("Pack/a.txt", Some(b"alpha")),
        ("Pack/sub/b.txt", Some(b"beta")),
    ]);
    let steps = extract_zip_archive(bytes, "/tmp/x").unwrap();
    assert_eq!(
        steps,
        vec![
            dir("/tmp/x/Pack"),
            dir("/tmp/x/Pack"),
            file("/tmp/x/Pack/a.txt", b"alpha"),
            dir("/tmp/x/Pack/sub"),
            file("/tmp/x/Pack/sub/b.txt", b"beta"),
        ]
    );
}

#[test]
fn bytes_that_are_no_archive_are_corrupt() {
    assert_eq!(extract_zip_archive(b"not a zip".to_vec(), "/tmp/x"), Err(ExtractError::Corrupt));
    assert_eq!(extract_zip_archive(Vec::new(), "/tmp/x"), Err(ExtractError::Corrupt));
}

#[test]
fn empty_archive_has_no_steps() {
    let bytes = build_archive(&[]);
    assert_eq!(extract_zip_archive(bytes, "/tmp/x"), Ok(Vec::new()));
}

#[test]
fn entry_that_leaves_the_destination_is_skipped() {
    let bytes = build_archive(&[("../evil.txt", Some(b"x")), ("ok.txt", Some(b"fine"))]);
    let steps = extract_zip_archive(bytes, "out").unwrap();
    assert_eq!(steps, vec![dir("out"), file("out/ok.txt", b"fine")]);
}

#[test]
fn plan_entry_tells_directories_from_files() {
    let parts = Some(vec!["Pack".to_string(), "sub".to_string()]);
    assert_eq!(
        plan_entry(&Some("Pack/sub/".to_string()), &parts, "dest"),
        EntryPlan::Directory { path: "dest/Pack/sub".to_string() }
    );
    assert_eq!(
        plan_entry(&Some("Pack/sub".to_string()), &parts, "dest"),
        EntryPlan::File { path: "dest/Pack/sub".to_string() }
    );
    assert_eq!(plan_entry(&Some("../x".to_string()), &None, "dest"), EntryPlan::Skip);
    assert_eq!(plan_entry(&None, &parts, "dest"), EntryPlan::Skip);
}

#[test]
fn confined_path_is_not_taken_on_trust() {
    let name = Some("x".to_string());
    for parts in [
        vec!["..".to_string(), "x".to_string()],
        vec!["a/b".to_string()],
        vec!["".to_string()],
        vec![".".to_string()],
        vec!["ok".to_string(), "..".to_string()],
    ] {
        assert_eq!(plan_entry(&name, &Some(parts), "dest"), EntryPlan::Skip);
    }
    assert_eq!(
        plan_entry(&name, &Some(vec!["...".to_string(), ".x".to_string()]), "dest"),
        EntryPlan::File { path: "dest/.../.x".to_string() }
    );
    assert_eq!(
        plan_entry(&Some("/".to_string()), &Some(Vec::new()), "dest"),
        EntryPlan::Directory { path: "dest/".to_string() }
    );
}

#[test]
fn absolute_and_dotted_names_are_confined_by_the_reader() {
    let bytes = build_archive(&[
        ("/etc/passwd", Some(b"root")),
        ("a/./b/../c.txt", Some(b"c")),
        ("dir\\file.txt", Some(b"w")),
    ]);
    let steps = extract_zip_archive(bytes, "out").unwrap();
    for step in &steps {
        let path = match step {
            FsStep::CreateDirAll { path } => path,
            FsStep::WriteFile { path, .. } => path,
            FsStep::CopyFile { to, .. } => to,
        };
        assert!(path == "out" || path.starts_with("out/"), "{}", path);
        assert!(!path.split('/').any(|part| part == ".."), "{}", path);
    }
    assert!(steps.contains(&file("out/a/c.txt", b"c")));
}

#[test]
fn entry_that_fails_its_checksum_makes_the_archive_corrupt() {
    let mut bytes = build_archive(&[("first.txt", Some(b"first")), ("a.txt", Some(b"alpha"))]);
    let at = bytes.windows(5).position(|window| window == b"alpha").unwrap();
    bytes[at + 4] = b'b';
    assert_eq!(extract_zip_archive(bytes, "out"), Err(ExtractError::Corrupt));
}

#[test]
fn truncated_archive_is_corrupt() {
    let mut bytes = build_archive(&[("a.txt", Some(b"alpha"))]);
    bytes.truncate(bytes.len() - 10);
    assert_eq!(extract_zip_archive(bytes, "out"), Err(ExtractError::Corrupt));
}
