//! What kind of file was dropped, by its extension.

use crate::paths::extension;
use crate::paths::spec_extension;
use crate::text::eq_ignore_ascii_case;
use crate::text::eq_ignore_case;
use crate::text::lower;
use vstd::prelude::*;

verus! {

/// The kinds of input that can be staged, and the one that cannot.
#[derive(Clone, Copy, PartialEq, Eq, Debug, Structural)]
pub enum InputKind {
    /// A single-file package, installed as it is.
    Package,
    /// A single-file paint, installed as it is.
    Paint,
    /// A zip archive, unpacked before it is installed.
    Archive,
    /// Anything else.
    Unsupported,
}

/// The path has the extension `wanted`, ASCII case ignored.
pub open spec fn has_extension(path: Seq<char>, wanted: Seq<char>) -> bool {
    match spec_extension(path) {
        Some(found) => eq_ignore_case(found, wanted),
        None => false,
    }
}

/// The kind of a dropped path. The first match wins: package, then paint,
/// then archive.
pub open spec fn spec_classify(path: Seq<char>) -> InputKind {
    if has_extension(path, "pkz"@) {
        InputKind::Package
    } else if has_extension(path, "pnt"@) {
        InputKind::Paint
    } else if has_extension(path, "zip"@) {
        InputKind::Archive
    } else {
        InputKind::Unsupported
    }
}

/// Tells whether the path has the extension `wanted`, ASCII case ignored.
pub fn extension_is(path: &str, wanted: &str) -> (r: bool)
    ensures
        r == has_extension(path@, wanted@),
{
    match extension(path) {
        Some(found) => eq_ignore_ascii_case(found, wanted),
        None => false,
    }
}

/// Tells whether the path names a zip archive.
pub fn is_supported_archive(path: &str) -> (r: bool)
    ensures
        r == has_extension(path@, "zip"@),
{
    extension_is(path, "zip")
}

/// Tells whether the path names a single-file package.
pub fn is_pkz_file(path: &str) -> (r: bool)
    ensures
        r == has_extension(path@, "pkz"@),
{
    extension_is(path, "pkz")
}

/// Tells whether the path names a single-file paint.
pub fn is_pnt_file(path: &str) -> (r: bool)
    ensures
        r == has_extension(path@, "pnt"@),
{
    extension_is(path, "pnt")
}

/// Classifies a dropped path by its extension.
pub fn classify(path: &str) -> (r: InputKind)
    ensures
        r == spec_classify(path@),
{
    if is_pkz_file(path) {
        InputKind::Package
    } else if is_pnt_file(path) {
        InputKind::Paint
    } else if is_supported_archive(path) {
        InputKind::Archive
    } else {
        InputKind::Unsupported
    }
}

/// A path is of one kind at most: the three extensions differ, so the order
/// in which they are tried decides nothing.
pub proof fn lemma_kinds_exclude_each_other(path: Seq<char>)
    ensures
        !(has_extension(path, "pkz"@) && has_extension(path, "pnt"@)),
        !(has_extension(path, "pkz"@) && has_extension(path, "zip"@)),
        !(has_extension(path, "pnt"@) && has_extension(path, "zip"@)),
        spec_classify(path) == InputKind::Package <==> has_extension(path, "pkz"@),
        spec_classify(path) == InputKind::Paint <==> has_extension(path, "pnt"@),
        spec_classify(path) == InputKind::Archive <==> has_extension(path, "zip"@),
{
    reveal_strlit("pkz");
    reveal_strlit("pnt");
    reveal_strlit("zip");
    assert(lower("pkz"@)[0] == 'p');
    assert(lower("pnt"@)[0] == 'p');
    assert(lower("zip"@)[0] == 'z');
    assert(lower("pkz"@)[1] == 'k');
    assert(lower("pnt"@)[1] == 'n');
}

} // verus!
