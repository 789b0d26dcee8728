use mxbmm::model::InstallTarget;
use mxbmm::model::ModEntry;
use mxbmm::protocol::DirItem;
use mxbmm::protocol::FsRequest;
use mxbmm::scanner::read_mod_entries;
use mxbmm::scanner::refresh_mod_lists;
use mxbmm::scanner::refresh_requests;
use mxbmm::scanner::scan_category;
use mxbmm::scanner::uninstall_mod;

fn item(name: &str, is_dir: bool) -> DirItem {
    DirItem { name: name.to_string(), is_dir }
}

fn names(entries: &[ModEntry]) -> Vec<String> {
    entries.iter().map(|e| e.name.clone()).collect()
}

#[test]
fn scan_lists_mods_in_name_order() {
    let listing = Some(vec![
        item("b", true),
        item("Excluded", true),
        item("stray.txt", false),
        item("A", true),
    ]);
    let entries = read_mod_entries("/mods/cat", &listing, &vec!["excluded"]);
    assert_eq!(
        entries,
        vec![
            ModEntry { name: "A".to_string(), path: "/mods/cat/A".to_string() },
            ModEntry { name: "b".to_string(), path: "/mods/cat/b".to_string() },
        ]
    );
}

#[test]
fn missing_directory_has_no_mods() {
    assert_eq!(read_mod_entries("/mods/tracks", &None, &Vec::new()), Vec::new());
    assert_eq!(read_mod_entries("/mods/tracks", &Some(Vec::new()), &Vec::new()), Vec::new());
}

#[test]
fn package_and_paint_files_are_mods() {
    let listing = Some(vec![
        item("zeta.PKZ", false),
        item("alpha.pnt", false),
        item("notes.txt", false),
        item("pack.zip", false),
        item("paints", false),
        item(".pkz", false),
    ]);
    let entries = read_mod_entries("/mods/tracks", &listing, &vec!["paints"]);
    assert_eq!(names(&entries), vec!["alpha.pnt", "zeta.PKZ"]);
}

#[test]
fn exclusion_is_for_directories_and_ignores_case() {
    let listing = Some(vec![item("PAINTS", true), item("Gloves", true), item("paints2", true)]);
    let entries = read_mod_entries("/mods/rider/riders", &listing, &vec!["paints", "gloves"]);
    assert_eq!(names(&entries), vec!["paints2"]);
}

#[test]
fn equal_names_keep_the_order_of_the_listing() {
    let listing = Some(vec![
        item("mod", true),
        item("Beta", true),
        item("MOD", true),
        item("alpha", true),
        item("Mod", true),
    ]);
    let entries = read_mod_entries("d", &listing, &Vec::new());
    assert_eq!(names(&entries), vec!["alpha", "Beta", "mod", "MOD", "Mod"]);
}

#[test]
fn order_is_by_lowered_code_points() {
    let listing = Some(vec![
        item("b10", true),
        item("B2", true),
        item("_x", true),
        item("Zed", true),
        item("émile", true),
        item("a", true),
    ]);
    let entries = read_mod_entries("d", &listing, &Vec::new());
    assert_eq!(names(&entries), vec!["_x", "a", "b10", "B2", "Zed", "émile"]);
}

#[test]
fn category_scan_uses_the_category_s_directory_and_exclusions() {
    let listing = Some(vec![item("paints", true), item("gloves", true), item("Rider A", true)]);
    let entries = scan_category("/mods", InstallTarget::RiderModels, &listing);
    assert_eq!(
        entries,
        vec![ModEntry { name: "Rider A".to_string(), path: "/mods/rider/riders/Rider A".to_string() }]
    );
    let paints = scan_category("/mods", InstallTarget::RiderPaints, &listing);
    assert_eq!(names(&paints), vec!["gloves", "paints", "Rider A"]);
}

#[test]
fn refresh_reads_every_category() {
    let requests = refresh_requests("/mods");
    assert_eq!(requests.len(), 13);
    assert_eq!(requests[0], FsRequest::ListDir { path: "/mods/tracks".to_string() });
    assert_eq!(requests[12], FsRequest::ListDir { path: "/mods/rider/protections".to_string() });
    let mut listings: Vec<Option<Vec<DirItem>>> = vec![None; 13];
    listings[0] = Some(vec![item("Track B", true), item("track a.pkz", false)]);
    listings[5] = Some(vec![item("paints", true), item("Rider", true)]);
    let lists = refresh_mod_lists("/mods", &listings);
    assert_eq!(lists.len(), 13);
    assert_eq!(names(&lists[0]), vec!["track a.pkz", "Track B"]);
    assert_eq!(names(&lists[5]), vec!["Rider"]);
    assert_eq!(lists[1], Vec::new());
    let short = refresh_mod_lists("/mods", &Vec::new());
    assert_eq!(short.len(), 13);
    assert!(short.iter().all(|list| list.is_empty()));
}

#[test]
fn directories_are_removed_as_trees_and_files_alone() {
    let entry = ModEntry { name: "Track".to_string(), path: "/mods/tracks/Track".to_string() };
    assert_eq!(
        uninstall_mod(&entry, true),
        FsRequest::RemoveTree { path: "/mods/tracks/Track".to_string() }
    );
    assert_eq!(
        uninstall_mod(&entry, false),
        FsRequest::RemoveFile { path: "/mods/tracks/Track".to_string() }
    );
}
