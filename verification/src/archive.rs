//! Unpacking a zip archive that is held in memory.
//!
//! The archive is read by the `zip` crate; what is verified here is what is
//! done with each entry. An entry whose name cannot be confined to the
//! destination is skipped; a name that ends with `/` makes a directory; any
//! other entry makes the directory above it and then the file. The confined
//! path that the reader reports is taken only if it is made of plain
//! components, so that every path that is planned lies below the
//! destination. Nothing is written here: the result is the list of steps
//! for the host.

use crate::install::parent_step;
use crate::install::push_parent_step;
use crate::install::push_step;
use crate::paths::join;
use crate::paths::lemma_join_then_relative;
use crate::paths::skip_leading;
use crate::paths::spec_join;
use crate::paths::spec_relative_to;
use crate::paths::SEPARATOR;
use crate::protocol::FsStep;
use crate::protocol::FsStepView;
use crate::text::chars_of;
use std::io::Cursor;
use std::io::Read;
use vstd::prelude::*;
use vstd::string::StringExecFns;
use zip::read::ZipArchive;
use zip::read::ZipFile;
use zip::result::ZipError;

verus! {

/// `zip::read::ZipArchive`, taken as it is: nothing is known of what is
/// inside but what the functions below say.
#[verifier::external_type_specification]
#[verifier::external_body]
#[verifier::reject_recursive_types(R)]
pub struct ExZipArchive<R>(ZipArchive<R>);

/// `std::io::Cursor`, taken as it is. It only carries the bytes to the
/// archive reader.
#[verifier::external_type_specification]
#[verifier::external_body]
#[verifier::reject_recursive_types(T)]
pub struct ExCursor<T>(Cursor<T>);

/// `zip::result::ZipError`, taken as it is. Every such error is turned into
/// [`ExtractError::Corrupt`].
#[verifier::external_type_specification]
#[verifier::external_body]
pub struct ExZipError(ZipError);

/// An archive that has been opened on bytes in memory.
pub type Archive = ZipArchive<Cursor<Vec<u8>>>;

/// One entry of an open archive, ready to be read: a `zip::read::ZipFile`.
/// It borrows the archive that it was taken from. The type is held in a
/// struct of this crate because its own declaration is bound by
/// `std::io::Read`.
#[verifier::external_body]
pub struct Entry<'a> {
    inner: ZipFile<'a, Cursor<Vec<u8>>>,
}

/// What the `zip` crate reports of one entry that it could open.
pub struct EntryModel {
    /// The name stored for the entry, where it can be decoded.
    pub name: Option<Seq<char>>,
    /// The components of the entry's path once it is confined to the
    /// destination, or nothing where it cannot be confined.
    pub enclosed: Option<Seq<Seq<char>>>,
    /// The entry's contents, or nothing where they cannot be read.
    pub data: Option<Seq<u8>>,
}

/// What `zip::ZipArchive::new` makes of the bytes: the entries of the
/// archive in the order of its central directory, or nothing where it
/// refuses the bytes. An entry that `by_index` cannot open stands as `None`.
/// The name stands for the crate's reading of the zip format; nothing is
/// said here of what it is on given bytes.
pub uninterp spec fn zip_contents(bytes: Seq<u8>) -> Option<Seq<Option<EntryModel>>>;

/// The entries that an open archive holds.
pub uninterp spec fn archive_entries(archive: Archive) -> Seq<Option<EntryModel>>;

/// What an open entry holds: what its name, its confined path and its
/// contents are read as.
pub uninterp spec fn entry_model(entry: Entry<'_>) -> EntryModel;

/// Calls `zip::ZipArchive::new` on a cursor over the bytes. The contract
/// claims that whether the archive opens, and with which entries, depends on
/// the bytes alone: it gives that outcome the name [`zip_contents`].
#[verifier::external_body]
fn open_archive(bytes: Vec<u8>) -> (r: Result<Archive, ZipError>)
    ensures
        (match r {
            Ok(archive) => zip_contents(bytes@) == Some(archive_entries(archive)),
            Err(_) => zip_contents(bytes@) is None,
        }),
{
    ZipArchive::new(Cursor::new(bytes))
}

/// Calls `zip::ZipArchive::len`. The contract claims that it is the number
/// of entries of the archive.
#[verifier::external_body]
fn archive_len(archive: &Archive) -> (n: usize)
    ensures
        n == archive_entries(*archive).len(),
{
    archive.len()
}

/// Calls `zip::ZipArchive::by_index`. The contract claims that the archive
/// keeps its entries, and that for an index below the length the call
/// succeeds exactly where the entry can be opened, and then hands out that
/// entry.
#[verifier::external_body]
fn entry_at<'a>(archive: &'a mut Archive, index: usize) -> (r: Result<Entry<'a>, ZipError>)
    ensures
        archive_entries(*final(archive)) == archive_entries(*old(archive)),
        (index < archive_entries(*old(archive)).len() ==> match r {
            Ok(entry) => archive_entries(*old(archive))[index as int] == Some(entry_model(entry)),
            Err(_) => archive_entries(*old(archive))[index as int] is None,
        }),
{
    archive.by_index(index).map(|inner| Entry { inner })
}

/// Calls `zip::read::ZipFile::name`. The contract claims that the result,
/// the entry's stored name where it can be decoded, is a fixed property of
/// the entry.
#[verifier::external_body]
fn entry_name(entry: &Entry<'_>) -> (r: Option<String>)
    ensures
        r.deep_view() == entry_model(*entry).name,
{
    entry.inner.name().ok().map(|name| name.into_owned())
}

/// Calls `zip::read::ZipFile::enclosed_name` and hands out the components of
/// the path it returns: the entry's path made safe to use below a
/// destination, or nothing where the crate finds that it cannot be. The
/// contract claims that the result is a fixed property of the entry; it
/// claims nothing of what makes a path safe.
#[verifier::external_body]
fn entry_enclosed_name(entry: &Entry<'_>) -> (r: Option<Vec<String>>)
    ensures
        r.deep_view() == entry_model(*entry).enclosed,
{
    entry.inner.enclosed_name().map(
        |path| path.iter().map(|part| part.to_string_lossy().into_owned()).collect(),
    )
}

/// Reads the entry to its end through `zip::read::ZipFile`'s
/// `std::io::Read::read_to_end`, which decompresses and checks it. The entry
/// is used up, so it is read once. The contract claims that the bytes, or
/// the failure to read them, are a fixed property of the entry.
#[verifier::external_body]
fn entry_bytes(entry: Entry<'_>) -> (r: Option<Vec<u8>>)
    ensures
        (match r {
            Some(data) => entry_model(entry).data == Some(data@),
            None => entry_model(entry).data is None,
        }),
{
    let mut entry = entry;
    let mut data = Vec::new();
    entry.inner.read_to_end(&mut data).ok().map(|_| data)
}

/// Why an archive could not be unpacked.
#[derive(Clone, Debug, PartialEq, Eq)]
pub enum ExtractError {
    /// The archive cannot be opened, or one of its entries cannot be read.
    Corrupt,
    /// The archive could not be fetched, or what it holds could not be
    /// written.
    Io { cause: String },
}

/// What an [`ExtractError`] holds, as text.
pub enum ExtractErrorView {
    Corrupt,
    Io { cause: Seq<char> },
}

impl View for ExtractError {
    type V = ExtractErrorView;

    open spec fn view(&self) -> ExtractErrorView {
        match self {
            Self::Corrupt => ExtractErrorView::Corrupt,
            Self::Io { cause } => ExtractErrorView::Io { cause: cause@ },
        }
    }
}

/// What is done with one entry of an archive.
#[derive(Clone, Debug, PartialEq, Eq)]
pub enum EntryPlan {
    /// The entry is left out.
    Skip,
    /// A directory is created at the path.
    Directory { path: String },
    /// The entry's contents are written to the path.
    File { path: String },
}

/// What an [`EntryPlan`] holds, as text.
pub enum EntryPlanView {
    Skip,
    Directory { path: Seq<char> },
    File { path: Seq<char> },
}

impl View for EntryPlan {
    type V = EntryPlanView;

    open spec fn view(&self) -> EntryPlanView {
        match self {
            Self::Skip => EntryPlanView::Skip,
            Self::Directory { path } => EntryPlanView::Directory { path: path@ },
            Self::File { path } => EntryPlanView::File { path: path@ },
        }
    }
}

/// Components written one after the other, with a separator between them.
pub open spec fn joined(parts: Seq<Seq<char>>) -> Seq<char>
    decreases parts.len(),
{
    if parts.len() == 0 {
        Seq::empty()
    } else {
        spec_join(joined(parts.drop_last()), parts.last())
    }
}

/// A component that names a child and nothing else: it is not empty, holds
/// no separator, and is neither `.` nor `..`.
pub open spec fn is_plain(part: Seq<char>) -> bool {
    part.len() > 0 && !part.contains(SEPARATOR) && part != seq!['.'] && part != seq!['.', '.']
}

/// Every component is plain.
pub open spec fn all_plain(parts: Seq<Seq<char>>) -> bool {
    forall|i: int| 0 <= i < parts.len() ==> is_plain(#[trigger] parts[i])
}

/// What is done with an entry, given its stored name and its confined path:
/// nothing where the path cannot be confined, where one of its components
/// is not plain, or where the name is not known; a directory where the name
/// ends with the separator; a file otherwise. The path is the confined path
/// below `destination`.
pub open spec fn spec_plan_entry(
    name: Option<Seq<char>>,
    enclosed: Option<Seq<Seq<char>>>,
    destination: Seq<char>,
) -> EntryPlanView {
    match (enclosed, name) {
        (Some(parts), Some(name)) => if !all_plain(parts) {
            EntryPlanView::Skip
        } else {
            let path = spec_join(destination, joined(parts));
            if name.len() > 0 && name.last() == SEPARATOR {
                EntryPlanView::Directory { path }
            } else {
                EntryPlanView::File { path }
            }
        },
        _ => EntryPlanView::Skip,
    }
}

/// The steps that unpack one entry, or the error that ends the unpacking.
/// An entry that cannot be opened, and a file whose contents cannot be read,
/// make the archive corrupt.
pub open spec fn entry_steps(entry: Option<EntryModel>, destination: Seq<char>) -> Result<
    Seq<FsStepView>,
    ExtractErrorView,
> {
    match entry {
        None => Err(ExtractErrorView::Corrupt),
        Some(model) => match spec_plan_entry(model.name, model.enclosed, destination) {
            EntryPlanView::Skip => Ok(Seq::empty()),
            EntryPlanView::Directory { path } => Ok(seq![FsStepView::CreateDirAll { path }]),
            EntryPlanView::File { path } => match model.data {
                Some(data) => Ok(parent_step(path) + seq![FsStepView::WriteFile { path, data }]),
                None => Err(ExtractErrorView::Corrupt),
            },
        },
    }
}

/// The steps that unpack the entries in order; the first entry that fails
/// ends the unpacking with its error.
pub open spec fn extraction_plan(entries: Seq<Option<EntryModel>>, destination: Seq<char>) -> Result<
    Seq<FsStepView>,
    ExtractErrorView,
>
    decreases entries.len(),
{
    if entries.len() == 0 {
        Ok(Seq::empty())
    } else {
        match extraction_plan(entries.drop_last(), destination) {
            Err(error) => Err(error),
            Ok(steps) => match entry_steps(entries.last(), destination) {
                Err(error) => Err(error),
                Ok(more) => Ok(steps + more),
            },
        }
    }
}

/// The steps that unpack the archive held in `bytes` into `destination`.
/// Bytes that are no zip archive are corrupt.
pub open spec fn spec_extract_zip_archive(bytes: Seq<u8>, destination: Seq<char>) -> Result<
    Seq<FsStepView>,
    ExtractErrorView,
> {
    match zip_contents(bytes) {
        None => Err(ExtractErrorView::Corrupt),
        Some(entries) => extraction_plan(entries, destination),
    }
}

/// The view of the result of an extraction.
pub open spec fn extract_view(r: Result<Vec<FsStep>, ExtractError>) -> Result<
    Seq<FsStepView>,
    ExtractErrorView,
> {
    match r {
        Ok(steps) => Ok(steps.deep_view()),
        Err(error) => Err(error@),
    }
}

/// Writes the components of a confined path one after the other.
pub fn join_components(parts: &Vec<String>) -> (r: String)
    ensures
        r@ == joined(parts.deep_view()),
{
    let mut out = String::new();
    let mut i: usize = 0;
    while i < parts.len()
        invariant
            0 <= i <= parts.len(),
            out@ == joined(parts.deep_view().take(i as int)),
        decreases parts.len() - i,
    {
        proof {
            let next = parts.deep_view().take(i + 1);
            assert(next.drop_last() =~= parts.deep_view().take(i as int));
            assert(next.last() == parts[i as int]@);
        }
        out = join(out.as_str(), parts[i].as_str());
        i = i + 1;
    }
    assert(parts.deep_view().take(parts.len() as int) =~= parts.deep_view());
    out
}

/// Tells whether a component is plain.
fn is_plain_component(part: &str) -> (r: bool)
    ensures
        r == is_plain(part@),
{
    let text = chars_of(part);
    if text.len() == 0 {
        return false;
    }
    if text.len() == 1 && text[0] == '.' {
        assert(part@ =~= seq!['.']);
        return false;
    }
    if text.len() == 2 && text[0] == '.' && text[1] == '.' {
        assert(part@ =~= seq!['.', '.']);
        return false;
    }
    proof {
        let one = seq!['.'];
        let two = seq!['.', '.'];
        assert(one.len() == 1 && one[0] == '.');
        assert(two.len() == 2 && two[0] == '.' && two[1] == '.');
        assert(part@ != one);
        assert(part@ != two);
    }
    let mut i: usize = 0;
    while i < text.len()
        invariant
            text@ == part@,
            0 <= i <= text.len(),
            forall|k: int| 0 <= k < i ==> text@[k] != SEPARATOR,
        decreases text.len() - i,
    {
        if text[i] == SEPARATOR {
            assert(part@.contains(SEPARATOR));
            return false;
        }
        i = i + 1;
    }
    true
}

/// Tells whether every component is plain.
fn are_plain(parts: &Vec<String>) -> (r: bool)
    ensures
        r == all_plain(parts.deep_view()),
{
    let mut i: usize = 0;
    while i < parts.len()
        invariant
            0 <= i <= parts.len(),
            forall|k: int| 0 <= k < i ==> is_plain(#[trigger] parts.deep_view()[k]),
        decreases parts.len() - i,
    {
        if !is_plain_component(parts[i].as_str()) {
            assert(!is_plain(parts.deep_view()[i as int]));
            return false;
        }
        i = i + 1;
    }
    true
}

/// Decides what is done with one entry of an archive, given its stored name
/// and the components of its confined path as the archive reader reports
/// them. A path with a component that is not plain is not taken on trust:
/// the entry is skipped.
pub fn plan_entry(name: &Option<String>, enclosed: &Option<Vec<String>>, destination: &str) -> (r:
    EntryPlan)
    ensures
        r@ == spec_plan_entry(name.deep_view(), enclosed.deep_view(), destination@),
{
    match enclosed {
        Some(parts) => match name {
            Some(name) => {
                if !are_plain(parts) {
                    return EntryPlan::Skip;
                }
                let relative = join_components(parts);
                let path = join(destination, relative.as_str());
                let text = chars_of(name.as_str());
                if text.len() > 0 && text[text.len() - 1] == SEPARATOR {
                    EntryPlan::Directory { path }
                } else {
                    EntryPlan::File { path }
                }
            },
            None => EntryPlan::Skip,
        },
        None => EntryPlan::Skip,
    }
}

/// Plain components written one after the other make a relative path that
/// ends with its last component.
pub proof fn lemma_joined_plain(parts: Seq<Seq<char>>)
    requires
        all_plain(parts),
        parts.len() > 0,
    ensures
        joined(parts).len() > 0,
        joined(parts)[0] != SEPARATOR,
        joined(parts).last() != SEPARATOR,
        parts.len() == 1 ==> joined(parts) == parts[0],
        parts.len() > 1 ==> joined(parts) == joined(parts.drop_last()) + seq![SEPARATOR]
            + parts.last(),
    decreases parts.len(),
{
    let last = parts.last();
    assert(is_plain(last));
    assert(last.contains(last[0]));
    assert(last.contains(last.last()));
    if parts.len() == 1 {
        assert(parts.drop_last().len() == 0);
        assert(joined(parts.drop_last()) =~= Seq::<char>::empty());
        assert(joined(parts) =~= parts[0]);
    } else {
        let head = parts.drop_last();
        assert forall|i: int| 0 <= i < head.len() implies is_plain(#[trigger] head[i]) by {
            assert(head[i] == parts[i]);
        }
        lemma_joined_plain(head);
    }
}

/// No entry is written outside the destination: the path of a planned
/// directory or file is the destination itself, or lies below it at a
/// relative path that is made of plain components only, so that no `..`
/// leads out again.
pub proof fn lemma_planned_path_is_confined(
    name: Option<Seq<char>>,
    enclosed: Option<Seq<Seq<char>>>,
    destination: Seq<char>,
)
    ensures
        (match spec_plan_entry(name, enclosed, destination) {
            EntryPlanView::Skip => true,
            EntryPlanView::Directory { path } | EntryPlanView::File { path } => {
                &&& enclosed matches Some(parts)
                &&& all_plain(parts)
                &&& path == spec_join(destination, joined(parts))
                &&& parts.len() > 0 ==> spec_relative_to(path, destination) == Some(joined(parts))
                &&& parts.len() == 0 ==> spec_relative_to(path, destination) == Some(
                    Seq::<char>::empty(),
                )
            },
        }),
{
    if let (Some(parts), Some(_)) = (enclosed, name) {
        if all_plain(parts) {
            let path = spec_join(destination, joined(parts));
            if parts.len() > 0 {
                lemma_joined_plain(parts);
                lemma_join_then_relative(destination, joined(parts));
            } else {
                assert(joined(parts) =~= Seq::<char>::empty());
                assert(path.subrange(0, destination.len() as int) =~= destination);
                if destination.len() == 0 || destination.last() == SEPARATOR {
                    assert(path =~= destination);
                    assert(skip_leading(path, SEPARATOR, destination.len() as int)
                        == destination.len());
                } else {
                    assert(path =~= destination + seq![SEPARATOR]);
                    assert(skip_leading(path, SEPARATOR, destination.len() as int + 1)
                        == destination.len() + 1);
                    assert(skip_leading(path, SEPARATOR, destination.len() as int)
                        == destination.len() + 1);
                }
                assert(path.subrange(
                    skip_leading(path, SEPARATOR, destination.len() as int),
                    path.len() as int,
                ) =~= Seq::<char>::empty());
            }
        }
    }
}

/// Plans the unpacking of the zip archive held in `bytes` into
/// `destination`: for each entry in turn, the steps that create its
/// directory or write its file. Fails with `Corrupt` where the bytes are no
/// zip archive or an entry cannot be read; then nothing is to be written.
pub fn extract_zip_archive(bytes: Vec<u8>, destination: &str) -> (r: Result<
    Vec<FsStep>,
    ExtractError,
>)
    ensures
        extract_view(r) == spec_extract_zip_archive(bytes@, destination@),
{
    let ghost source = bytes@;
    let mut archive = match open_archive(bytes) {
        Ok(archive) => archive,
        Err(_) => {
            return Err(ExtractError::Corrupt);
        },
    };
    let ghost entries = archive_entries(archive);
    let count = archive_len(&archive);
    let mut plan: Vec<FsStep> = Vec::new();
    assert(plan.deep_view() =~= Seq::<FsStepView>::empty());
    let mut index: usize = 0;
    while index < count
        invariant
            0 <= index <= count,
            count == entries.len(),
            archive_entries(archive) == entries,
            zip_contents(source) == Some(entries),
            source == bytes@,
            extraction_plan(entries.take(index as int), destination@) == Ok::<
                Seq<FsStepView>,
                ExtractErrorView,
            >(plan.deep_view()),
        decreases count - index,
    {
        let ghost before = plan.deep_view();
        let ghost next = entries.take(index + 1);
        proof {
            assert(next.drop_last() =~= entries.take(index as int));
            assert(next.last() == entries[index as int]);
        }
        let entry = match entry_at(&mut archive, index) {
            Ok(entry) => entry,
            Err(_) => {
                proof {
                    assert(entry_steps(next.last(), destination@) is Err);
                    assert(extraction_plan(next, destination@) == Err::<
                        Seq<FsStepView>,
                        ExtractErrorView,
                    >(ExtractErrorView::Corrupt));
                    lemma_first_failure_ends(entries, destination@, index + 1);
                }
                return Err(ExtractError::Corrupt);
            },
        };
        let ghost model = entry_model(entry);
        assert(next.last() == Some(model));
        let enclosed = entry_enclosed_name(&entry);
        let name = entry_name(&entry);
        match plan_entry(&name, &enclosed, destination) {
            EntryPlan::Skip => {
                assert(plan.deep_view() =~= before + Seq::<FsStepView>::empty());
            },
            EntryPlan::Directory { path } => {
                push_step(&mut plan, FsStep::CreateDirAll { path });
                assert(plan.deep_view() =~= before + seq![FsStepView::CreateDirAll { path: path@ }]);
            },
            EntryPlan::File { path } => {
                let data = match entry_bytes(entry) {
                    Some(data) => data,
                    None => {
                        proof {
                            assert(entry_steps(next.last(), destination@) is Err);
                            assert(extraction_plan(next, destination@) == Err::<
                                Seq<FsStepView>,
                                ExtractErrorView,
                            >(ExtractErrorView::Corrupt));
                            lemma_first_failure_ends(entries, destination@, index + 1);
                        }
                        return Err(ExtractError::Corrupt);
                    },
                };
                let ghost written = FsStepView::WriteFile { path: path@, data: data@ };
                push_parent_step(&mut plan, path.as_str());
                push_step(&mut plan, FsStep::WriteFile { path, data });
                assert(plan.deep_view() =~= before + (parent_step(path@) + seq![written]));
            },
        }
        index = index + 1;
    }
    assert(entries.take(count as int) =~= entries);
    Ok(plan)
}

/// Once the entries up to `upto` fail, all the entries fail with the same
/// error.
pub proof fn lemma_first_failure_ends(
    entries: Seq<Option<EntryModel>>,
    destination: Seq<char>,
    upto: int,
)
    requires
        0 <= upto <= entries.len(),
        extraction_plan(entries.take(upto), destination) is Err,
    ensures
        extraction_plan(entries, destination) == extraction_plan(entries.take(upto), destination),
    decreases entries.len() - upto,
{
    if upto < entries.len() {
        let next = entries.take(upto + 1);
        assert(next.drop_last() =~= entries.take(upto));
        lemma_first_failure_ends(entries, destination, upto + 1);
    } else {
        assert(entries.take(upto) =~= entries);
    }
}

} // verus!
