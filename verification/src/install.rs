//! The pieces of an install: the name of the installed file, the directory
//! that is copied, the copy itself and the sidecar that records where an
//! install came from.

use crate::model::InstallTarget;
use crate::paths::join;
use crate::paths::lemma_join_then_relative;
use crate::paths::lemma_relative_is_relative;
use crate::paths::parent;
use crate::paths::relative_to;
use crate::paths::spec_join;
use crate::paths::spec_parent;
use crate::paths::spec_relative_to;
use crate::protocol::sole_directory;
use crate::protocol::spec_sole_directory;
use crate::protocol::DirItem;
use crate::protocol::DirItemView;
use crate::protocol::FsRequest;
use crate::protocol::FsRequestView;
use crate::protocol::FsStep;
use crate::protocol::FsStepView;
use crate::protocol::WalkedEntry;
use crate::protocol::WalkedEntryView;
use crate::text::chars_of;
use crate::text::ends_with_ignore_ascii_case;
use crate::text::has_suffix_ignore_case;
use crate::text::lemma_lower_concat;
use crate::text::lower;
use crate::text::trim;
use crate::text::trimmed;
use vstd::prelude::*;
use vstd::string::StrSliceExecFns;
use vstd::string::StringExecFns;

verus! {

/// `name` with `extension` at its end: `name` itself where it ends with the
/// extension already, ASCII case ignored, and the two written one after the
/// other where it does not.
pub open spec fn spec_with_extension(name: Seq<char>, extension: Seq<char>) -> Seq<char> {
    if has_suffix_ignore_case(name, extension) {
        name
    } else {
        name + extension
    }
}

/// Appends `extension` (with its dot) to `name` unless it is there already.
pub fn with_extension_if_missing(name: &str, extension: &str) -> (r: String)
    ensures
        r@ == spec_with_extension(name@, extension@),
{
    if ends_with_ignore_ascii_case(name, extension) {
        String::from_str(name)
    } else {
        String::from_str(name).concat(extension)
    }
}

/// Appending an extension is idempotent: the result ends with the
/// extension, so appending once more changes nothing.
pub proof fn lemma_with_extension_idempotent(name: Seq<char>, extension: Seq<char>)
    ensures
        has_suffix_ignore_case(spec_with_extension(name, extension), extension),
        spec_with_extension(spec_with_extension(name, extension), extension)
            == spec_with_extension(name, extension),
{
    if !has_suffix_ignore_case(name, extension) {
        let whole = name + extension;
        lemma_lower_concat(name, extension);
        assert(lower(whole).subrange(whole.len() - extension.len(), whole.len() as int)
            =~= lower(extension));
    }
}

/// It makes no difference whether the extension was typed: a name gets the
/// same file name with and without it.
pub proof fn lemma_extension_may_be_typed(name: Seq<char>, extension: Seq<char>)
    requires
        !has_suffix_ignore_case(name, extension),
    ensures
        spec_with_extension(name, extension) == name + extension,
        spec_with_extension(name + extension, extension) == name + extension,
{
    lemma_with_extension_idempotent(name, extension);
}

/// The directory whose contents are installed from an unpacked archive: the
/// single top-level directory where the archive has one, else the extraction
/// directory itself.
pub open spec fn spec_pick_source_root(
    extract_dir: Seq<char>,
    listing: Option<Seq<DirItemView>>,
) -> Seq<char> {
    match spec_sole_directory(listing) {
        Some(name) => spec_join(extract_dir, name),
        None => extract_dir,
    }
}

/// Picks the directory to copy from, given the children of the extraction
/// directory.
pub fn pick_source_root(extract_dir: &str, listing: &Option<Vec<DirItem>>) -> (r: String)
    ensures
        r@ == spec_pick_source_root(extract_dir@, listing.deep_view()),
{
    match sole_directory(listing) {
        Some(name) => join(extract_dir, name),
        None => String::from_str(extract_dir),
    }
}

/// The step that makes sure the directory above `target` is there.
pub open spec fn parent_step(target: Seq<char>) -> Seq<FsStepView> {
    match spec_parent(target) {
        Some(dir) => seq![FsStepView::CreateDirAll { path: dir }],
        None => Seq::empty(),
    }
}

/// The steps that bring one walked entry from below `source` to the same
/// place below `destination`. The root of the walk, and an entry that does
/// not lie below `source`, give none. A directory is created; for anything
/// else the directory above it is created, and a regular file is copied.
pub open spec fn copy_steps_for(
    source: Seq<char>,
    destination: Seq<char>,
    entry: WalkedEntryView,
) -> Seq<FsStepView> {
    match spec_relative_to(entry.path, source) {
        Some(rel) => if rel.len() == 0 {
            Seq::empty()
        } else {
            let target = spec_join(destination, rel);
            if entry.is_dir {
                seq![FsStepView::CreateDirAll { path: target }]
            } else if entry.is_file {
                parent_step(target) + seq![FsStepView::CopyFile { from: entry.path, to: target }]
            } else {
                parent_step(target)
            }
        },
        None => Seq::empty(),
    }
}

/// The steps for all walked entries, in the order of the walk.
pub open spec fn copy_plan(
    source: Seq<char>,
    destination: Seq<char>,
    entries: Seq<WalkedEntryView>,
) -> Seq<FsStepView>
    decreases entries.len(),
{
    if entries.len() == 0 {
        Seq::empty()
    } else {
        copy_plan(source, destination, entries.drop_last()) + copy_steps_for(
            source,
            destination,
            entries.last(),
        )
    }
}

/// The copy keeps the relative structure: a regular file that lies at `rel`
/// below the source is copied to `rel` below the destination, and a
/// directory that lies at `rel` below the source is created at `rel` below
/// the destination.
pub proof fn lemma_copy_keeps_relative_place(
    source: Seq<char>,
    destination: Seq<char>,
    entry: WalkedEntryView,
)
    requires
        spec_relative_to(entry.path, source) matches Some(rel) && rel.len() > 0,
        entry.is_dir || entry.is_file,
    ensures
        ({
            let rel = spec_relative_to(entry.path, source)->0;
            let steps = copy_steps_for(source, destination, entry);
            &&& steps.len() > 0
            &&& spec_relative_to(steps.last().target(), destination) == Some(rel)
            &&& entry.is_dir ==> steps.last() is CreateDirAll
            &&& !entry.is_dir ==> steps.last() == (FsStepView::CopyFile {
                from: entry.path,
                to: spec_join(destination, rel),
            })
        }),
{
    let rel = spec_relative_to(entry.path, source)->0;
    lemma_relative_is_relative(entry.path, source);
    lemma_join_then_relative(destination, rel);
}

/// Appends a step to a plan.
pub fn push_step(plan: &mut Vec<FsStep>, step: FsStep)
    ensures
        final(plan).deep_view() == old(plan).deep_view().push(step@),
{
    plan.push(step);
    assert(plan.deep_view() =~= old(plan).deep_view().push(step@));
}

/// Appends the step that creates the directory above `target`, if it has
/// one.
pub fn push_parent_step(plan: &mut Vec<FsStep>, target: &str)
    ensures
        final(plan).deep_view() == old(plan).deep_view() + parent_step(target@),
{
    match parent(target) {
        Some(dir) => {
            push_step(plan, FsStep::CreateDirAll { path: String::from_str(dir) });
            assert(plan.deep_view() =~= old(plan).deep_view() + parent_step(target@));
        },
        None => {
            assert(plan.deep_view() =~= old(plan).deep_view() + parent_step(target@));
        },
    }
}

/// Plans the copy of a directory's contents: every walked entry below
/// `source` is brought to the same relative place below `destination`.
pub fn copy_dir_contents(source: &str, destination: &str, entries: &Vec<WalkedEntry>) -> (r: Vec<
    FsStep,
>)
    ensures
        r.deep_view() == copy_plan(source@, destination@, entries.deep_view()),
{
    let mut plan: Vec<FsStep> = Vec::new();
    assert(plan.deep_view() =~= Seq::<FsStepView>::empty());
    let mut i: usize = 0;
    while i < entries.len()
        invariant
            0 <= i <= entries.len(),
            plan.deep_view() == copy_plan(source@, destination@, entries.deep_view().take(i as int)),
        decreases entries.len() - i,
    {
        let entry = &entries[i];
        let ghost before = plan.deep_view();
        let ghost done = entries.deep_view().take(i as int);
        let ghost next = entries.deep_view().take(i + 1);
        proof {
            assert(next.drop_last() =~= done);
            assert(next.last() == entry@);
        }
        match relative_to(entry.path.as_str(), source) {
            Some(rel) => {
                if chars_of(rel).len() > 0 {
                    let target = join(destination, rel);
                    if entry.is_dir {
                        push_step(&mut plan, FsStep::CreateDirAll { path: target });
                    } else {
                        push_parent_step(&mut plan, target.as_str());
                        if entry.is_file {
                            push_step(
                                &mut plan,
                                FsStep::CopyFile { from: entry.path.clone(), to: target },
                            );
                        }
                    }
                }
            },
            None => {},
        }
        assert(plan.deep_view() =~= before + copy_steps_for(source@, destination@, entry@));
        i = i + 1;
    }
    assert(entries.deep_view().take(entries.len() as int) =~= entries.deep_view());
    plan
}

/// `s` with every line feed replaced by a backslash and the letter `n`.
pub open spec fn escape_newlines(s: Seq<char>) -> Seq<char>
    decreases s.len(),
{
    if s.len() == 0 {
        Seq::empty()
    } else if s.last() == '\n' {
        escape_newlines(s.drop_last()) + seq!['\\', 'n']
    } else {
        escape_newlines(s.drop_last()).push(s.last())
    }
}

/// Escaped text holds no line feed: it fits on one line.
pub proof fn lemma_escaped_is_one_line(s: Seq<char>)
    ensures
        !escape_newlines(s).contains('\n'),
    decreases s.len(),
{
    if s.len() > 0 {
        lemma_escaped_is_one_line(s.drop_last());
        let head = escape_newlines(s.drop_last());
        let whole = escape_newlines(s);
        assert forall|k: int| 0 <= k < whole.len() implies whole[k] != '\n' by {
            if k < head.len() {
                assert(head.contains(head[k]));
            }
        }
    }
}

/// Text without a line feed is escaped to itself.
pub proof fn lemma_escape_keeps_one_line(s: Seq<char>)
    requires
        !s.contains('\n'),
    ensures
        escape_newlines(s) == s,
    decreases s.len(),
{
    if s.len() > 0 {
        assert(s.contains(s.last()));
        assert forall|k: int| 0 <= k < s.drop_last().len() implies s.drop_last()[k] != '\n' by {
            assert(s.contains(s[k]));
        }
        lemma_escape_keeps_one_line(s.drop_last());
        assert(escape_newlines(s) =~= s);
    }
}

/// Escapes the line feeds of `s`.
pub fn escape_line_feeds(s: &str) -> (r: String)
    ensures
        r@ == escape_newlines(s@),
{
    let v = chars_of(s);
    let mut out = String::new();
    let mut from: usize = 0;
    let mut i: usize = 0;
    while i < v.len()
        invariant
            v@ == s@,
            0 <= from <= i <= v.len(),
            out@ + s@.subrange(from as int, i as int) == escape_newlines(s@.take(i as int)),
        decreases v.len() - i,
    {
        let ghost before = s@.take(i as int);
        let ghost after = s@.take(i + 1);
        proof {
            assert(after.drop_last() =~= before);
            assert(after.last() == v@[i as int]);
        }
        if v[i] == '\n' {
            out.append(s.substring_char(from, i));
            proof {
                reveal_strlit("\\n");
                assert("\\n"@ =~= seq!['\\', 'n']);
            }
            out.append("\\n");
            from = i + 1;
            assert(out@ + s@.subrange(from as int, i + 1) =~= escape_newlines(after));
        } else {
            assert(out@ + s@.subrange(from as int, i + 1) =~= (out@ + s@.subrange(
                from as int,
                i as int,
            )).push(v@[i as int]));
        }
        i = i + 1;
    }
    out.append(s.substring_char(from, v.len()));
    assert(s@.take(v.len() as int) =~= s@);
    out
}

/// The name of the sidecar file.
pub open spec fn metadata_file_name() -> Seq<char> {
    "_mxbmm_meta.txt"@
}

/// The text of the sidecar: four `key=value` lines that name the category's
/// directory, the version without the white space around it, the archive
/// that the install came from, and the notes on one line.
pub open spec fn spec_metadata_text(
    install_target: InstallTarget,
    version: Seq<char>,
    notes: Seq<char>,
    archive_path: Seq<char>,
) -> Seq<char> {
    "install_target="@ + install_target.spec_relative_path() + "\n"@ + "version="@ + trimmed(
        version,
    ) + "\n"@ + "archive="@ + archive_path + "\n"@ + "notes="@ + escape_newlines(notes) + "\n"@
}

/// The request that writes the sidecar into `destination`.
pub open spec fn spec_write_metadata_file(
    destination: Seq<char>,
    install_target: InstallTarget,
    version: Seq<char>,
    notes: Seq<char>,
    archive_path: Seq<char>,
) -> FsRequestView {
    FsRequestView::WriteText {
        path: spec_join(destination, metadata_file_name()),
        content: spec_metadata_text(install_target, version, notes, archive_path),
    }
}

/// Composes the sidecar of an archive install and says where it is to be
/// written.
pub fn write_metadata_file(
    destination: &str,
    install_target: InstallTarget,
    version: &str,
    notes: &str,
    archive_path: &str,
) -> (r: FsRequest)
    ensures
        r@ == spec_write_metadata_file(
            destination@,
            install_target,
            version@,
            notes@,
            archive_path@,
        ),
{
    let escaped = escape_line_feeds(notes);
    let mut content = String::from_str("install_target=");
    content.append(install_target.relative_path());
    content.append("\n");
    content.append("version=");
    content.append(trim(version));
    content.append("\n");
    content.append("archive=");
    content.append(archive_path);
    content.append("\n");
    content.append("notes=");
    content.append(escaped.as_str());
    content.append("\n");
    FsRequest::WriteText { path: join(destination, "_mxbmm_meta.txt"), content }
}

} // verus!
