//! The inventory: which mods are installed in a category, and how one is
//! removed.
//!
//! A category's directory is listed by the host; the scanner keeps the
//! children that are mods and puts them in order. The order is by name,
//! ASCII case ignored; children whose names are equal in that order stay in
//! the order of the listing.

use crate::classify::has_extension;
use crate::classify::is_pkz_file;
use crate::classify::is_pnt_file;
use crate::model::all_install_targets;
use crate::model::lemma_relative_paths_are_relative;
use crate::model::reveal_relative_paths;
use crate::model::spec_all_install_targets;
use crate::model::strs_view;
use crate::model::InstallTarget;
use crate::model::ModEntry;
use crate::model::ModEntryView;
use crate::paths::join;
use crate::paths::spec_join;
use crate::protocol::DirItem;
use crate::protocol::DirItemView;
use crate::protocol::FsRequest;
use crate::protocol::FsRequestView;
use crate::resolver::category_dir;
use crate::resolver::spec_category_dir;
use crate::text::eq_ignore_ascii_case;
use crate::text::eq_ignore_case;
use crate::text::lemma_lex_le_total;
use crate::text::lemma_lex_le_trans;
use crate::text::lower;
use crate::text::name_le;
use crate::text::name_order;
use vstd::prelude::*;
use vstd::seq_lib::to_multiset_insert;

verus! {

/// `name` matches one of the excluded names, ASCII case ignored.
pub open spec fn is_excluded(excluded: Seq<Seq<char>>, name: Seq<char>) -> bool {
    exists|i: int| 0 <= i < excluded.len() && eq_ignore_case(#[trigger] excluded[i], name)
}

/// The entry for a child of `dir`.
pub open spec fn entry_for(dir: Seq<char>, item: DirItemView) -> ModEntryView {
    ModEntryView { name: item.name, path: spec_join(dir, item.name) }
}

/// A child counts as a mod if it is a directory whose name is not excluded,
/// or a file with the extension of a package or of a paint.
pub open spec fn is_listed(dir: Seq<char>, item: DirItemView, excluded: Seq<Seq<char>>) -> bool {
    if item.is_dir {
        !is_excluded(excluded, item.name)
    } else {
        let path = spec_join(dir, item.name);
        has_extension(path, "pkz"@) || has_extension(path, "pnt"@)
    }
}

/// The children that count as mods, in the order of the listing.
pub open spec fn listed_entries(
    dir: Seq<char>,
    items: Seq<DirItemView>,
    excluded: Seq<Seq<char>>,
) -> Seq<ModEntryView>
    decreases items.len(),
{
    if items.len() == 0 {
        Seq::empty()
    } else if is_listed(dir, items.last(), excluded) {
        listed_entries(dir, items.drop_last(), excluded).push(entry_for(dir, items.last()))
    } else {
        listed_entries(dir, items.drop_last(), excluded)
    }
}

/// The place of a new entry in a sorted list: behind every entry that is
/// listed no later than it.
pub open spec fn insert_position(sorted: Seq<ModEntryView>, name: Seq<char>) -> int
    decreases sorted.len(),
{
    if sorted.len() == 0 {
        0
    } else if name_le(sorted.last().name, name) {
        sorted.len() as int
    } else {
        insert_position(sorted.drop_last(), name)
    }
}

/// The entries in the order of their names; entries with equal names keep
/// their order.
pub open spec fn sorted_by_name(entries: Seq<ModEntryView>) -> Seq<ModEntryView>
    decreases entries.len(),
{
    if entries.len() == 0 {
        Seq::empty()
    } else {
        let rest = sorted_by_name(entries.drop_last());
        rest.insert(insert_position(rest, entries.last().name), entries.last())
    }
}

/// Every entry is listed no later than the entries behind it.
pub open spec fn is_sorted(entries: Seq<ModEntryView>) -> bool {
    forall|i: int, j: int|
        0 <= i < j < entries.len() ==> name_le(
            (#[trigger] entries[i]).name,
            (#[trigger] entries[j]).name,
        )
}

/// The mods of a directory: the listed children in the order of their
/// names. A directory that could not be read has none.
pub open spec fn spec_read_mod_entries(
    dir: Seq<char>,
    listing: Option<Seq<DirItemView>>,
    excluded: Seq<Seq<char>>,
) -> Seq<ModEntryView> {
    match listing {
        Some(items) => sorted_by_name(listed_entries(dir, items, excluded)),
        None => Seq::empty(),
    }
}

/// Where a new entry goes: behind an entry that is listed no later than it,
/// and before every entry that is listed later.
pub proof fn lemma_insert_position(sorted: Seq<ModEntryView>, name: Seq<char>)
    ensures
        0 <= insert_position(sorted, name) <= sorted.len(),
        insert_position(sorted, name) > 0 ==> name_le(
            sorted[insert_position(sorted, name) - 1].name,
            name,
        ),
        forall|k: int|
            insert_position(sorted, name) <= k < sorted.len() ==> !name_le(
                (#[trigger] sorted[k]).name,
                name,
            ),
    decreases sorted.len(),
{
    if sorted.len() > 0 && !name_le(sorted.last().name, name) {
        let head = sorted.drop_last();
        lemma_insert_position(head, name);
        assert forall|k: int| insert_position(sorted, name) <= k < sorted.len() implies !name_le(
            (#[trigger] sorted[k]).name,
            name,
        ) by {
            if k < head.len() {
                assert(head[k] == sorted[k]);
            }
        }
    }
}

/// An entry that is put at its place into a sorted list leaves the list
/// sorted.
pub proof fn lemma_insert_keeps_sorted(sorted: Seq<ModEntryView>, entry: ModEntryView)
    requires
        is_sorted(sorted),
    ensures
        is_sorted(sorted.insert(insert_position(sorted, entry.name), entry)),
{
    let p = insert_position(sorted, entry.name);
    let r = sorted.insert(p, entry);
    lemma_insert_position(sorted, entry.name);
    sorted.insert_ensures(p, entry);
    assert forall|i: int, j: int| 0 <= i < j < r.len() implies name_le(
        (#[trigger] r[i]).name,
        (#[trigger] r[j]).name,
    ) by {
        if j < p {
            assert(r[i] == sorted[i] && r[j] == sorted[j]);
        } else if j == p {
            assert(r[i] == sorted[i]);
            if i < p - 1 {
                lemma_lex_le_trans(
                    lower(sorted[i].name),
                    lower(sorted[p - 1].name),
                    lower(entry.name),
                    0,
                );
            }
        } else if i == p {
            assert(r[j] == sorted[j - 1]);
            lemma_lex_le_total(lower(sorted[j - 1].name), lower(entry.name), 0);
        } else if i < p {
            assert(r[i] == sorted[i] && r[j] == sorted[j - 1]);
        } else {
            assert(r[i] == sorted[i - 1] && r[j] == sorted[j - 1]);
        }
    }
}

/// The result of sorting is sorted.
pub proof fn lemma_sorted_by_name_is_sorted(entries: Seq<ModEntryView>)
    ensures
        is_sorted(sorted_by_name(entries)),
    decreases entries.len(),
{
    if entries.len() > 0 {
        lemma_sorted_by_name_is_sorted(entries.drop_last());
        lemma_insert_keeps_sorted(sorted_by_name(entries.drop_last()), entries.last());
    }
}

/// Sorting neither drops nor adds nor doubles an entry.
pub proof fn lemma_sorted_by_name_permutes(entries: Seq<ModEntryView>)
    ensures
        sorted_by_name(entries).to_multiset() == entries.to_multiset(),
        sorted_by_name(entries).len() == entries.len(),
    decreases entries.len(),
{
    broadcast use vstd::seq_lib::group_to_multiset_ensures;

    if entries.len() > 0 {
        let rest = sorted_by_name(entries.drop_last());
        lemma_sorted_by_name_permutes(entries.drop_last());
        lemma_insert_position(rest, entries.last().name);
        to_multiset_insert(rest, insert_position(rest, entries.last().name), entries.last());
        assert(entries.drop_last().push(entries.last()) =~= entries);
        rest.insert_ensures(insert_position(rest, entries.last().name), entries.last());
    } else {
        assert(sorted_by_name(entries) =~= entries);
    }
}

/// Sorting is stable: it leaves entries that are in order already as they
/// are, equal names included.
pub proof fn lemma_sorting_keeps_sorted_input(entries: Seq<ModEntryView>)
    requires
        is_sorted(entries),
    ensures
        sorted_by_name(entries) == entries,
    decreases entries.len(),
{
    if entries.len() > 0 {
        let head = entries.drop_last();
        assert forall|i: int, j: int| 0 <= i < j < head.len() implies name_le(
            (#[trigger] head[i]).name,
            (#[trigger] head[j]).name,
        ) by {
            assert(head[i] == entries[i] && head[j] == entries[j]);
        }
        lemma_sorting_keeps_sorted_input(head);
        if head.len() > 0 {
            assert(head.last() == entries[head.len() - 1]);
            assert(entries.last() == entries[entries.len() - 1]);
            assert(name_le(head.last().name, entries.last().name));
        }
        assert(head.insert(head.len() as int, entries.last()) =~= entries);
    } else {
        assert(sorted_by_name(entries) =~= entries);
    }
}

/// No mod is listed twice: where the directory of one category is a child
/// of the directory of another, the other category excludes that child, so
/// that what is installed in the inner category is not listed among the
/// mods of the outer one.
pub proof fn lemma_nested_category_is_excluded(
    outer: InstallTarget,
    inner: InstallTarget,
    name: Seq<char>,
)
    requires
        inner.spec_relative_path() == spec_join(outer.spec_relative_path(), name),
    ensures
        is_excluded(outer.spec_excluded_subdirs(), name),
        forall|dir: Seq<char>|
            !is_listed(dir, DirItemView { name, is_dir: true }, outer.spec_excluded_subdirs()),
{
    reveal_relative_paths();
    reveal_strlit("bikes/motocross");
    reveal_strlit("bikes/supercross");
    reveal_strlit("bikes/paints");
    reveal_strlit("tyres");
    reveal_strlit("rider/protections");
    lemma_relative_paths_are_relative(inner);
    lemma_relative_paths_are_relative(outer);
    let from = outer.spec_relative_path();
    let to = inner.spec_relative_path();
    let excluded = outer.spec_excluded_subdirs();
    assert(from.last() != '/');
    assert(name.len() == 0 || name[0] != '/');
    assert(to == from + seq!['/'] + name);
    assert(to.len() == from.len() + 1 + name.len());
    assert(to[0] == from[0]);
    assert(to[1] == from[1]);
    assert(to[from.len() as int] == '/');
    if from.len() > 6 {
        assert(to[6] == from[6]);
    }
    assert(outer == InstallTarget::RiderModels || outer == InstallTarget::RiderHelmets || outer
        == InstallTarget::RiderBoots);
    assert(name =~= to.subrange(from.len() as int + 1, to.len() as int));
    if outer == InstallTarget::RiderModels {
        assert(inner == InstallTarget::RiderPaints || inner == InstallTarget::RiderGloves);
        if inner == InstallTarget::RiderPaints {
            assert(name =~= "paints"@);
            assert(eq_ignore_case(excluded[0], name));
        } else {
            assert(name =~= "gloves"@);
            assert(eq_ignore_case(excluded[1], name));
        }
    } else if outer == InstallTarget::RiderHelmets {
        assert(inner == InstallTarget::RiderHelmetPaints);
        assert(name =~= "paints"@);
        assert(eq_ignore_case(excluded[0], name));
    } else {
        assert(inner == InstallTarget::RiderBootPaints);
        assert(name =~= "paints"@);
        assert(eq_ignore_case(excluded[0], name));
    }
}

/// Tells whether `name` matches one of the excluded names.
fn matches_excluded(excluded: &Vec<&str>, name: &str) -> (r: bool)
    ensures
        r == is_excluded(strs_view(excluded@), name@),
{
    let mut i: usize = 0;
    while i < excluded.len()
        invariant
            0 <= i <= excluded.len(),
            forall|k: int| 0 <= k < i ==> !eq_ignore_case(strs_view(excluded@)[k], name@),
        decreases excluded.len() - i,
    {
        if eq_ignore_ascii_case(excluded[i], name) {
            assert(eq_ignore_case(strs_view(excluded@)[i as int], name@));
            return true;
        }
        i = i + 1;
    }
    false
}

/// Finds the place of a new entry in a sorted list.
fn position_for(sorted: &Vec<ModEntry>, name: &str) -> (r: usize)
    ensures
        r as int == insert_position(sorted.deep_view(), name@),
        r <= sorted.len(),
{
    let mut p: usize = sorted.len();
    assert(sorted.deep_view().take(p as int) =~= sorted.deep_view());
    while p > 0
        invariant
            0 <= p <= sorted.len(),
            insert_position(sorted.deep_view(), name@) == insert_position(
                sorted.deep_view().take(p as int),
                name@,
            ),
        decreases p,
    {
        let ghost front = sorted.deep_view().take(p as int);
        assert(front.last() == sorted[p - 1]@);
        assert(front.drop_last() =~= sorted.deep_view().take(p - 1));
        if name_order(sorted[p - 1].name.as_str(), name) {
            return p;
        }
        p = p - 1;
    }
    p
}

/// Lists the mods of a directory: of the children in `listing`, the
/// directories whose names are not in `excluded` and the package and paint
/// files, in the order of their names, ASCII case ignored. A directory that
/// could not be read has no mods.
pub fn read_mod_entries(dir: &str, listing: &Option<Vec<DirItem>>, excluded: &Vec<&str>) -> (r:
    Vec<ModEntry>)
    ensures
        r.deep_view() == spec_read_mod_entries(dir@, listing.deep_view(), strs_view(excluded@)),
{
    let mut out: Vec<ModEntry> = Vec::new();
    match listing {
        None => {
            assert(out.deep_view() =~= Seq::<ModEntryView>::empty());
        },
        Some(items) => {
            assert(out.deep_view() =~= Seq::<ModEntryView>::empty());
            let mut i: usize = 0;
            while i < items.len()
                invariant
                    0 <= i <= items.len(),
                    out.deep_view() == sorted_by_name(
                        listed_entries(
                            dir@,
                            items.deep_view().take(i as int),
                            strs_view(excluded@),
                        ),
                    ),
                decreases items.len() - i,
            {
                let item = &items[i];
                let ghost done = items.deep_view().take(i as int);
                let ghost next = items.deep_view().take(i + 1);
                let ghost kept = listed_entries(dir@, done, strs_view(excluded@));
                proof {
                    assert(next.drop_last() =~= done);
                    assert(next.last() == item@);
                }
                let path = join(dir, item.name.as_str());
                let listed = if item.is_dir {
                    !matches_excluded(excluded, item.name.as_str())
                } else {
                    is_pkz_file(path.as_str()) || is_pnt_file(path.as_str())
                };
                if listed {
                    let p = position_for(&out, item.name.as_str());
                    let entry = ModEntry { name: item.name.clone(), path };
                    let ghost before = out.deep_view();
                    let ghost added = entry@;
                    out.insert(p, entry);
                    proof {
                        assert(kept.push(added).drop_last() =~= kept);
                        assert(kept.push(added).last() == added);
                        before.insert_ensures(p as int, added);
                        assert(out.deep_view() =~= before.insert(p as int, added));
                    }
                }
                i = i + 1;
            }
            assert(items.deep_view().take(items.len() as int) =~= items.deep_view());
        },
    }
    out
}

/// Lists the mods of a category below a mods root, leaving out the
/// subdirectories that are categories of their own.
pub fn scan_category(root: &str, target: InstallTarget, listing: &Option<Vec<DirItem>>) -> (r: Vec<
    ModEntry,
>)
    ensures
        r.deep_view() == spec_read_mod_entries(
            spec_category_dir(root@, target),
            listing.deep_view(),
            target.spec_excluded_subdirs(),
        ),
{
    let dir = category_dir(root, target);
    let excluded = target.excluded_subdirs();
    read_mod_entries(dir.as_str(), listing, &excluded)
}

/// The listing that was made for the category at position `index`; none
/// where the listings stop short of it.
pub open spec fn listing_at(listings: Seq<Option<Seq<DirItemView>>>, index: int) -> Option<
    Seq<DirItemView>,
> {
    if 0 <= index < listings.len() {
        listings[index]
    } else {
        None
    }
}

/// The directories that are listed for a refresh: that of every category, in
/// the order of the categories.
pub fn refresh_requests(root: &str) -> (r: Vec<FsRequest>)
    ensures
        r.len() == spec_all_install_targets().len(),
        forall|i: int|
            0 <= i < r.len() ==> (#[trigger] r[i])@ == (FsRequestView::ListDir {
                path: spec_category_dir(root@, spec_all_install_targets()[i]),
            }),
{
    let targets = all_install_targets();
    let mut out: Vec<FsRequest> = Vec::new();
    let mut i: usize = 0;
    while i < targets.len()
        invariant
            0 <= i <= targets.len(),
            targets@ == spec_all_install_targets(),
            out.len() == i,
            forall|k: int|
                0 <= k < i ==> (#[trigger] out[k])@ == (FsRequestView::ListDir {
                    path: spec_category_dir(root@, spec_all_install_targets()[k]),
                }),
        decreases targets.len() - i,
    {
        out.push(FsRequest::ListDir { path: category_dir(root, targets[i]) });
        i = i + 1;
    }
    out
}

/// Reads the lists of installed mods again: one list for each category, in
/// the order of the categories, from the listing of the category's
/// directory. `listings` holds the answers to [`refresh_requests`] in their
/// order.
pub fn refresh_mod_lists(root: &str, listings: &Vec<Option<Vec<DirItem>>>) -> (r: Vec<Vec<ModEntry>>)
    ensures
        r.len() == spec_all_install_targets().len(),
        forall|i: int|
            0 <= i < r.len() ==> (#[trigger] r[i]).deep_view() == spec_read_mod_entries(
                spec_category_dir(root@, spec_all_install_targets()[i]),
                listing_at(listings.deep_view(), i),
                spec_all_install_targets()[i].spec_excluded_subdirs(),
            ),
{
    let targets = all_install_targets();
    let unread: Option<Vec<DirItem>> = None;
    let mut out: Vec<Vec<ModEntry>> = Vec::new();
    let mut i: usize = 0;
    while i < targets.len()
        invariant
            0 <= i <= targets.len(),
            targets@ == spec_all_install_targets(),
            unread is None,
            out.len() == i,
            forall|k: int|
                0 <= k < i ==> (#[trigger] out[k]).deep_view() == spec_read_mod_entries(
                    spec_category_dir(root@, spec_all_install_targets()[k]),
                    listing_at(listings.deep_view(), k),
                    spec_all_install_targets()[k].spec_excluded_subdirs(),
                ),
        decreases targets.len() - i,
    {
        let listing = if i < listings.len() {
            &listings[i]
        } else {
            &unread
        };
        assert(listing.deep_view() == listing_at(listings.deep_view(), i as int));
        out.push(scan_category(root, targets[i], listing));
        i = i + 1;
    }
    out
}

/// How an installed mod is removed: a directory with all that is in it, a
/// file by itself.
pub open spec fn spec_uninstall_mod(entry: ModEntryView, is_dir: bool) -> FsRequestView {
    if is_dir {
        FsRequestView::RemoveTree { path: entry.path }
    } else {
        FsRequestView::RemoveFile { path: entry.path }
    }
}

/// Says how an installed mod is removed, given whether it is a directory.
/// The removal is final; the caller has asked the user before.
pub fn uninstall_mod(entry: &ModEntry, is_dir: bool) -> (r: FsRequest)
    ensures
        r@ == spec_uninstall_mod(entry@, is_dir),
{
    if is_dir {
        FsRequest::RemoveTree { path: entry.path.clone() }
    } else {
        FsRequest::RemoveFile { path: entry.path.clone() }
    }
}

} // verus!
