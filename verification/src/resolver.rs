//! Where mods are installed: the mods root and the directory of each
//! category below it.

use crate::model::lemma_relative_paths_are_relative;
use crate::model::lemma_relative_paths_differ;
use crate::model::InstallTarget;
use crate::paths::join;
use crate::paths::spec_join;
use crate::text::trim;
use crate::text::trimmed;
use vstd::prelude::*;
use vstd::string::StringExecFns;

verus! {

/// The mods root when nothing overrides it: `mods` below the game's folder
/// in the documents directory, or `./mods` where there is no documents
/// directory.
pub open spec fn spec_fallback_root(documents_dir: Option<Seq<char>>) -> Seq<char> {
    match documents_dir {
        Some(documents) => spec_join(
            spec_join(spec_join(documents, "PiBoSo"@), "MX Bikes"@),
            "mods"@,
        ),
        None => spec_join("."@, "mods"@),
    }
}

/// The mods root at start-up: the override where one is set, else the
/// fallback of [`spec_fallback_root`].
pub open spec fn spec_default_mods_root(
    root_override: Option<Seq<char>>,
    documents_dir: Option<Seq<char>>,
) -> Seq<char> {
    match root_override {
        Some(path) => path,
        None => spec_fallback_root(documents_dir),
    }
}

/// The directory of a category below a mods root.
pub open spec fn spec_category_dir(root: Seq<char>, target: InstallTarget) -> Seq<char> {
    spec_join(root, target.spec_relative_path())
}

/// Below one mods root, no two categories share a directory: an install
/// into one category never lands in another.
pub proof fn lemma_category_dirs_differ(root: Seq<char>, a: InstallTarget, b: InstallTarget)
    ensures
        a != b ==> spec_category_dir(root, a) != spec_category_dir(root, b),
{
    lemma_relative_paths_differ(a, b);
    lemma_relative_paths_are_relative(a);
    lemma_relative_paths_are_relative(b);
    let x = a.spec_relative_path();
    let y = b.spec_relative_path();
    let p = if root.len() == 0 || root.last() == '/' {
        root
    } else {
        root + seq!['/']
    };
    assert(spec_category_dir(root, a) == p + x);
    assert(spec_category_dir(root, b) == p + y);
    if p + x == p + y {
        assert(x =~= (p + x).subrange(p.len() as int, (p + x).len() as int));
        assert(y =~= (p + y).subrange(p.len() as int, (p + y).len() as int));
    }
}

/// Chooses the mods root at start-up from the value of the override
/// variable and the user's documents directory, as far as either is known.
pub fn default_mods_root(root_override: Option<String>, documents_dir: Option<String>) -> (r:
    String)
    ensures
        r@ == spec_default_mods_root(root_override.deep_view(), documents_dir.deep_view()),
{
    match root_override {
        Some(path) => path,
        None => match documents_dir {
            Some(documents) => {
                let vendor = join(documents.as_str(), "PiBoSo");
                let game = join(vendor.as_str(), "MX Bikes");
                join(game.as_str(), "mods")
            },
            None => join(".", "mods"),
        },
    }
}

/// The mods root that the user typed: the text without the white space
/// around it.
pub fn mods_root(input: &str) -> (r: String)
    ensures
        r@ == trimmed(input@),
{
    String::from_str(trim(input))
}

/// The directory of a category below a mods root.
pub fn category_dir(root: &str, target: InstallTarget) -> (r: String)
    ensures
        r@ == spec_category_dir(root@, target),
{
    join(root, target.relative_path())
}

} // verus!
