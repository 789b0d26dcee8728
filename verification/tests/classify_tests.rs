use mxbmm::classify::classify;
use mxbmm::classify::extension_is;
use mxbmm::classify::is_pkz_file;
use mxbmm::classify::is_pnt_file;
use mxbmm::classify::is_supported_archive;
use mxbmm::classify::InputKind;

#[test]
fn kinds_are_told_by_extension() {
    assert!(is_supported_archive("/drop/pack.zip"));
    assert!(is_supported_archive("pack.ZIP"));
    assert!(!is_supported_archive("pack.zipx"));
    assert!(!is_supported_archive("zip"));
    assert!(!is_supported_archive(".zip"));
    assert!(is_pkz_file("track.pkz"));
    assert!(is_pkz_file("track.PkZ"));
    assert!(!is_pkz_file("track.pkz.bak"));
    assert!(!is_pkz_file("dir.pkz/track"));
    assert!(is_pnt_file("paint.pnt"));
    assert!(is_pnt_file("PAINT.PNT"));
    assert!(!is_pnt_file("paint"));
    assert!(extension_is("a.tar.GZ", "gz"));
    assert!(!extension_is("a.tar.gz", "tar"));
}

#[test]
fn classification_covers_all_kinds() {
    assert_eq!(classify("/drop/track.pkz"), InputKind::Package);
    assert_eq!(classify("/drop/paint.Pnt"), InputKind::Paint);
    assert_eq!(classify("/drop/pack.zip"), InputKind::Archive);
    assert_eq!(classify("/drop/readme.txt"), InputKind::Unsupported);
    assert_eq!(classify("/drop/noextension"), InputKind::Unsupported);
    assert_eq!(classify(""), InputKind::Unsupported);
    assert_eq!(classify("pack.zip.pkz"), InputKind::Package);
}
