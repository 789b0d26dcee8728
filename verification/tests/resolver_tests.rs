use mxbmm::model::InstallTarget;
use mxbmm::resolver::category_dir;
use mxbmm::resolver::default_mods_root;
use mxbmm::resolver::mods_root;

#[test]
fn override_wins_over_documents() {
    assert_eq!(
        default_mods_root(Some("/custom/mods".to_string()), Some("/home/u/Documents".to_string())),
        "/custom/mods"
    );
    assert_eq!(default_mods_root(Some("".to_string()), None), "");
}

#[test]
fn documents_directory_is_the_default() {
    assert_eq!(
        default_mods_root(None, Some("/home/u/Documents".to_string())),
        "/home/u/Documents/PiBoSo/MX Bikes/mods"
    );
}

#[test]
fn relative_fallback_without_documents() {
    assert_eq!(default_mods_root(None, None), "./mods");
}

#[test]
fn typed_root_is_trimmed() {
    assert_eq!(mods_root("  /home/u/mods \n"), "/home/u/mods");
    assert_eq!(mods_root(""), "");
}

#[test]
fn category_directory_is_root_and_relative_path() {
    assert_eq!(category_dir("/mods", InstallTarget::Tracks), "/mods/tracks");
    assert_eq!(category_dir("/mods/", InstallTarget::BikesMotocross), "/mods/bikes/motocross");
    assert_eq!(category_dir("", InstallTarget::RiderHelmetPaints), "rider/helmets/paints");
    assert_eq!(category_dir("./mods", InstallTarget::Tyres), "./mods/tyres");
}
