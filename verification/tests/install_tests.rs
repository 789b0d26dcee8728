use mxbmm::install::copy_dir_contents;
use mxbmm::install::escape_line_feeds;
use mxbmm::install::pick_source_root;
use mxbmm::install::with_extension_if_missing;
use mxbmm::install::write_metadata_file;
use mxbmm::model::InstallTarget;
use mxbmm::protocol::DirItem;
use mxbmm::protocol::FsRequest;
use mxbmm::protocol::FsStep;
use mxbmm::protocol::WalkedEntry;

fn item(name: &str, is_dir: bool) -> DirItem {
    DirItem { name: name.to_string(), is_dir }
}

fn walked(path: &str, is_dir: bool, is_file: bool) -> WalkedEntry {
    WalkedEntry { path: path.to_string(), is_dir, is_file }
}

#[test]
fn extension_is_appended_once() {
    assert_eq!(with_extension_if_missing("cool", ".pkz"), "cool.pkz");
    assert_eq!(with_extension_if_missing("cool.pkz", ".pkz"), "cool.pkz");
    assert_eq!(with_extension_if_missing("cool.PKZ", ".pkz"), "cool.PKZ");
    assert_eq!(with_extension_if_missing("cool.pkz", ".PKZ"), "cool.pkz");
    assert_eq!(with_extension_if_missing("cool.pnt", ".pkz"), "cool.pnt.pkz");
    assert_eq!(with_extension_if_missing("", ".pnt"), ".pnt");
    assert_eq!(with_extension_if_missing("coolpkz", ".pkz"), "coolpkz.pkz");
}

#[test]
fn appending_an_extension_twice_changes_nothing() {
    for name in ["cool", "cool.pkz", "Cool.PKZ", "a.b", "", ".pkz", "x.pnt"] {
        for extension in [".pkz", ".pnt", ".PKZ"] {
            let once = with_extension_if_missing(name, extension);
            let twice = with_extension_if_missing(once.as_str(), extension);
            assert_eq!(once, twice);
        }
    }
}

#[test]
fn single_top_level_directory_is_the_source_root() {
    let one_dir = Some(vec![item("Pack", true)]);
    let one_file = Some(vec![item("readme.txt", false)]);
    let several = Some(vec![item("Pack", true), item("readme.txt", false)]);
    let empty = Some(Vec::new());
    assert_eq!(pick_source_root("/tmp/x", &one_dir), "/tmp/x/Pack");
    assert_eq!(pick_source_root("/tmp/x", &one_file), "/tmp/x");
    assert_eq!(pick_source_root("/tmp/x", &several), "/tmp/x");
    assert_eq!(pick_source_root("/tmp/x", &empty), "/tmp/x");
    assert_eq!(pick_source_root("/tmp/x", &None), "/tmp/x");
}

#[test]
fn copy_plan_keeps_the_relative_structure() {
    let entries = vec![
        walked("/tmp/x/Pack", true, false),
        walked("/tmp/x/Pack/a.txt", false, true),
        walked("/tmp/x/Pack/sub", true, false),
        walked("/tmp/x/Pack/sub/b.txt", false, true),
        walked("/tmp/x/Pack/link", false, false),
        walked("/elsewhere/c.txt", false, true),
    ];
    let plan = copy_dir_contents("/tmp/x/Pack", "/mods/tracks/MyMod", &entries);
    assert_eq!(
        plan,
        vec![
            FsStep::CreateDirAll { path: "/mods/tracks/MyMod".to_string() },
            FsStep::CopyFile {
                from: "/tmp/x/Pack/a.txt".to_string(),
                to: "/mods/tracks/MyMod/a.txt".to_string(),
            },
            FsStep::CreateDirAll { path: "/mods/tracks/MyMod/sub".to_string() },
            FsStep::CreateDirAll { path: "/mods/tracks/MyMod/sub".to_string() },
            FsStep::CopyFile {
                from: "/tmp/x/Pack/sub/b.txt".to_string(),
                to: "/mods/tracks/MyMod/sub/b.txt".to_string(),
            },
            FsStep::CreateDirAll { path: "/mods/tracks/MyMod".to_string() },
        ]
    );
    assert_eq!(copy_dir_contents("/a", "/b", &Vec::new()), Vec::new());
}

#[test]
fn line_feeds_are_escaped() {
    assert_eq!(escape_line_feeds("one\ntwo\n"), "one\\ntwo\\n");
    assert_eq!(escape_line_feeds("plain"), "plain");
    assert_eq!(escape_line_feeds(""), "");
    assert_eq!(escape_line_feeds("\n\n"), "\\n\\n");
    assert_eq!(escape_line_feeds("a\r\nb"), "a\r\\nb");
}

#[test]
fn sidecar_has_four_lines() {
    let request = write_metadata_file(
        "/mods/rider/riders/paints/Red",
        InstallTarget::RiderPaints,
        "  1.2 ",
        "first\nsecond",
        "/drop/red.zip",
    );
    assert_eq!(
        request,
        FsRequest::WriteText {
            path: "/mods/rider/riders/paints/Red/_mxbmm_meta.txt".to_string(),
            content: "install_target=rider/riders/paints\nversion=1.2\narchive=/drop/red.zip\nnotes=first\\nsecond\n"
                .to_string(),
        }
    );
    let bare = write_metadata_file("d", InstallTarget::Tracks, "", "", "a.zip");
    assert_eq!(
        bare,
        FsRequest::WriteText {
            path: "d/_mxbmm_meta.txt".to_string(),
            content: "install_target=tracks\nversion=\narchive=a.zip\nnotes=\n".to_string(),
        }
    );
}
