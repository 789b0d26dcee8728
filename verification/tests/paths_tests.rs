use mxbmm::paths::extension;
use mxbmm::paths::file_name;
use mxbmm::paths::file_stem;
use mxbmm::paths::join;
use mxbmm::paths::parent;
use mxbmm::paths::relative_to;
use std::path::Path;

#[test]
fn file_name_is_the_last_component() {
    assert_eq!(file_name("/home/u/mod.zip"), Some("mod.zip"));
    assert_eq!(file_name("mod.zip"), Some("mod.zip"));
    assert_eq!(file_name("dir/sub/"), Some("sub"));
    assert_eq!(file_name("dir/sub///"), Some("sub"));
    assert_eq!(file_name(""), None);
    assert_eq!(file_name("/"), None);
    assert_eq!(file_name("a/.."), None);
    assert_eq!(file_name("a/."), None);
    assert_eq!(file_name(".."), None);
    assert_eq!(file_name("..."), Some("..."));
    assert_eq!(file_name(".hidden"), Some(".hidden"));
}

#[test]
fn extension_follows_the_last_dot() {
    assert_eq!(extension("track.pkz"), Some("pkz"));
    assert_eq!(extension("/a/b.c/track.tar.gz"), Some("gz"));
    assert_eq!(extension("/a/b.c/track"), None);
    assert_eq!(extension(".hidden"), None);
    assert_eq!(extension(".hidden.zip"), Some("zip"));
    assert_eq!(extension("name."), Some(""));
    assert_eq!(extension("dir.zip/"), Some("zip"));
    assert_eq!(extension(""), None);
    assert_eq!(extension("a/.."), None);
}

#[test]
fn stem_is_the_name_without_the_extension() {
    assert_eq!(file_stem("/drop/Cool Track.zip"), Some("Cool Track"));
    assert_eq!(file_stem("track.tar.gz"), Some("track.tar"));
    assert_eq!(file_stem("track"), Some("track"));
    assert_eq!(file_stem(".hidden"), Some(".hidden"));
    assert_eq!(file_stem("name."), Some("name"));
    assert_eq!(file_stem("/"), None);
    assert_eq!(file_stem(""), None);
}

#[test]
fn join_puts_one_separator_between() {
    assert_eq!(join("mods", "tracks"), "mods/tracks");
    assert_eq!(join("mods/", "tracks"), "mods/tracks");
    assert_eq!(join("", "tracks"), "tracks");
    assert_eq!(join("mods", "/abs"), "/abs");
    assert_eq!(join("mods", ""), "mods/");
    assert_eq!(join("/", "x"), "/x");
    assert_eq!(join("mods", "rider/riders"), "mods/rider/riders");
}

#[test]
fn parent_drops_the_last_component() {
    assert_eq!(parent("a/b/c.txt"), Some("a/b"));
    assert_eq!(parent("a/b/"), Some("a"));
    assert_eq!(parent("a//b"), Some("a"));
    assert_eq!(parent("a"), Some(""));
    assert_eq!(parent("/a"), Some("/"));
    assert_eq!(parent("/"), None);
    assert_eq!(parent(""), None);
}

#[test]
fn relative_to_gives_what_lies_below() {
    assert_eq!(relative_to("src/a/b.txt", "src"), Some("a/b.txt"));
    assert_eq!(relative_to("src/a/b.txt", "src/"), Some("a/b.txt"));
    assert_eq!(relative_to("src", "src"), Some(""));
    assert_eq!(relative_to("src/", "src"), Some(""));
    assert_eq!(relative_to("src//a", "src"), Some("a"));
    assert_eq!(relative_to("srcx/a", "src"), None);
    assert_eq!(relative_to("other/a", "src"), None);
    assert_eq!(relative_to("a", "a/b"), None);
    assert_eq!(relative_to("a/b", ""), Some("a/b"));
}

#[test]
fn ordinary_paths_are_read_as_std_reads_them() {
    let samples = [
        "/home/u/Downloads/Cool Track.zip",
        "pack.ZIP",
        "a/b/c",
        "a/b/c/",
        "a//b",
        "/",
        "",
        "..",
        "a/..",
        ".hidden",
        ".hidden.pkz",
        "name.",
        "x.tar.gz",
        "/abs/dir.d/file",
        "rel/dir.d/.file.ext",
        "é/ü.pnt",
    ];
    for sample in samples {
        let path = Path::new(sample);
        assert_eq!(file_name(sample), path.file_name().and_then(|n| n.to_str()), "{}", sample);
        assert_eq!(extension(sample), path.extension().and_then(|n| n.to_str()), "{}", sample);
        assert_eq!(file_stem(sample), path.file_stem().and_then(|n| n.to_str()), "{}", sample);
        assert_eq!(parent(sample), path.parent().and_then(|n| n.to_str()), "{}", sample);
        for rel in ["tracks", "rider/riders", "/abs", "", "x.pkz"] {
            assert_eq!(join(sample, rel), path.join(rel).to_str().unwrap(), "{} + {}", sample, rel);
        }
    }
}
