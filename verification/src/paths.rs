//! Paths as text with `/` between components.
//!
//! The library never touches a file system; a path is the text that names a
//! place. A run of separators counts as one, and separators at the end of a
//! path are ignored when its last component is looked for.

use crate::text::chars_of;
use crate::text::has_prefix;
use vstd::prelude::*;
use vstd::string::StrSliceExecFns;
use vstd::string::StringExecFns;

verus! {

/// The character between the components of a path.
pub const SEPARATOR: char = '/';

/// The view of an optional string slice.
pub open spec fn opt_view(o: Option<&str>) -> Option<Seq<char>> {
    match o {
        Some(s) => Some(s@),
        None => None,
    }
}

/// The position of the last `c` before position `j`, or -1.
pub open spec fn last_index_of(s: Seq<char>, c: char, j: int) -> int
    decreases j,
{
    if j <= 0 || j > s.len() {
        -1
    } else if s[j - 1] == c {
        j - 1
    } else {
        last_index_of(s, c, j - 1)
    }
}

/// The end of `s.subrange(0, j)` once the run of `c` at its end is dropped.
pub open spec fn drop_trailing(s: Seq<char>, c: char, j: int) -> int
    decreases j,
{
    if 0 < j <= s.len() && s[j - 1] == c {
        drop_trailing(s, c, j - 1)
    } else {
        j
    }
}

/// The first position at or after `i` that does not hold `c`.
pub open spec fn skip_leading(s: Seq<char>, c: char, i: int) -> int
    decreases s.len() - i,
{
    if 0 <= i < s.len() && s[i] == c {
        skip_leading(s, c, i + 1)
    } else {
        i
    }
}

/// The last component of a path: what stands between the last separator and
/// the end, separators at the end left aside.
pub open spec fn final_component(p: Seq<char>) -> Seq<char> {
    let end = drop_trailing(p, SEPARATOR, p.len() as int);
    p.subrange(last_index_of(p, SEPARATOR, end) + 1, end)
}

/// The file name of a path: its last component, unless that is empty, `.`
/// or `..`.
pub open spec fn spec_file_name(p: Seq<char>) -> Option<Seq<char>> {
    let c = final_component(p);
    if c.len() == 0 || c == seq!['.'] || c == seq!['.', '.'] {
        None
    } else {
        Some(c)
    }
}

/// The extension of a path: what follows the last dot of its file name.
/// A file name without a dot, or whose only dot is its first character, has
/// none.
pub open spec fn spec_extension(p: Seq<char>) -> Option<Seq<char>> {
    match spec_file_name(p) {
        None => None,
        Some(name) => {
            let dot = last_index_of(name, '.', name.len() as int);
            if dot <= 0 {
                None
            } else {
                Some(name.subrange(dot + 1, name.len() as int))
            }
        },
    }
}

/// The stem of a path: its file name without the extension and its dot.
pub open spec fn spec_file_stem(p: Seq<char>) -> Option<Seq<char>> {
    match spec_file_name(p) {
        None => None,
        Some(name) => {
            let dot = last_index_of(name, '.', name.len() as int);
            if dot <= 0 {
                Some(name)
            } else {
                Some(name.subrange(0, dot))
            }
        },
    }
}

/// `rel` placed under `base`. An absolute `rel` stands for itself; otherwise
/// the two are written one after the other, with one separator between them
/// unless `base` is empty or brings its own.
pub open spec fn spec_join(base: Seq<char>, rel: Seq<char>) -> Seq<char> {
    if rel.len() > 0 && rel[0] == SEPARATOR {
        rel
    } else if base.len() == 0 || base.last() == SEPARATOR {
        base + rel
    } else {
        base + seq![SEPARATOR] + rel
    }
}

/// The path without its last component. The root and the empty path have no
/// parent; a single relative component has the empty path as its parent.
pub open spec fn spec_parent(p: Seq<char>) -> Option<Seq<char>> {
    let end = drop_trailing(p, SEPARATOR, p.len() as int);
    if end <= 0 {
        None
    } else {
        let cut = last_index_of(p, SEPARATOR, end);
        if cut < 0 {
            Some(Seq::empty())
        } else {
            let head = drop_trailing(p, SEPARATOR, cut);
            if head <= 0 {
                Some(p.subrange(0, 1))
            } else {
                Some(p.subrange(0, head))
            }
        }
    }
}

/// What `path` adds to `base`, when `path` lies at or below `base`: the text
/// after `base` and after the separators that follow it.
pub open spec fn spec_relative_to(path: Seq<char>, base: Seq<char>) -> Option<Seq<char>> {
    if !has_prefix(path, base) {
        None
    } else if base.len() == 0 || base.last() == SEPARATOR || path.len() == base.len()
        || path[base.len() as int] == SEPARATOR {
        Some(path.subrange(skip_leading(path, SEPARATOR, base.len() as int), path.len() as int))
    } else {
        None
    }
}

/// Where the last `c` before `j` is: at a position that holds `c`, with no
/// `c` between it and `j`.
pub proof fn lemma_last_index_of(s: Seq<char>, c: char, j: int)
    requires
        0 <= j <= s.len(),
    ensures
        -1 <= last_index_of(s, c, j) < j,
        last_index_of(s, c, j) >= 0 ==> s[last_index_of(s, c, j)] == c,
        forall|k: int| last_index_of(s, c, j) < k < j ==> #[trigger] s[k] != c,
    decreases j,
{
    if j > 0 && s[j - 1] != c {
        lemma_last_index_of(s, c, j - 1);
    }
}

/// What `drop_trailing` drops: a run of `c` that ends at `j`, and all of
/// it.
pub proof fn lemma_drop_trailing(s: Seq<char>, c: char, j: int)
    requires
        0 <= j <= s.len(),
    ensures
        0 <= drop_trailing(s, c, j) <= j,
        forall|k: int| drop_trailing(s, c, j) <= k < j ==> #[trigger] s[k] == c,
        drop_trailing(s, c, j) > 0 ==> s[drop_trailing(s, c, j) - 1] != c,
    decreases j,
{
    if 0 < j && s[j - 1] == c {
        lemma_drop_trailing(s, c, j - 1);
    }
}

/// What `skip_leading` skips: a run of `c` that begins at `i`, and all of
/// it.
pub proof fn lemma_skip_leading(s: Seq<char>, c: char, i: int)
    requires
        0 <= i <= s.len(),
    ensures
        i <= skip_leading(s, c, i) <= s.len(),
        forall|k: int| i <= k < skip_leading(s, c, i) ==> #[trigger] s[k] == c,
        skip_leading(s, c, i) < s.len() ==> s[skip_leading(s, c, i)] != c,
    decreases s.len() - i,
{
    if i < s.len() && s[i] == c {
        lemma_skip_leading(s, c, i + 1);
    }
}

/// A file name holds no separator and is not empty.
pub proof fn lemma_file_name_is_component(p: Seq<char>)
    ensures
        spec_file_name(p) matches Some(name) ==> name.len() > 0 && !name.contains(SEPARATOR),
{
    let end = drop_trailing(p, SEPARATOR, p.len() as int);
    lemma_drop_trailing(p, SEPARATOR, p.len() as int);
    lemma_last_index_of(p, SEPARATOR, end);
    let start = last_index_of(p, SEPARATOR, end) + 1;
    let c = final_component(p);
    assert forall|k: int| 0 <= k < c.len() implies c[k] != SEPARATOR by {
        assert(c[k] == p[start + k]);
    }
}

/// A file name with an extension is its stem, a dot and the extension.
pub proof fn lemma_stem_dot_extension(p: Seq<char>)
    ensures
        (match (spec_file_name(p), spec_file_stem(p), spec_extension(p)) {
            (Some(name), Some(stem), Some(ext)) => name == stem + seq!['.'] + ext && stem.len() > 0,
            (Some(name), Some(stem), None) => name == stem,
            (None, None, None) => true,
            _ => false,
        }),
{
    if let Some(name) = spec_file_name(p) {
        let dot = last_index_of(name, '.', name.len() as int);
        lemma_last_index_of(name, '.', name.len() as int);
        if dot > 0 {
            assert(name =~= name.subrange(0, dot) + seq!['.'] + name.subrange(
                dot + 1,
                name.len() as int,
            ));
        }
    }
}

/// What is placed under a base lies below it, at the place it was given:
/// taking the base away again gives back the relative path.
pub proof fn lemma_join_then_relative(base: Seq<char>, rel: Seq<char>)
    requires
        rel.len() > 0,
        rel[0] != SEPARATOR,
    ensures
        spec_relative_to(spec_join(base, rel), base) == Some(rel),
{
    let whole = spec_join(base, rel);
    let from = skip_leading(whole, SEPARATOR, base.len() as int);
    assert(whole.subrange(0, base.len() as int) =~= base);
    if base.len() == 0 || base.last() == SEPARATOR {
        assert(whole[base.len() as int] == rel[0]);
        assert(from == base.len());
    } else {
        assert(whole[base.len() as int] == SEPARATOR);
        assert(whole[base.len() as int + 1] == rel[0]);
        assert(skip_leading(whole, SEPARATOR, base.len() as int + 1) == base.len() + 1);
        assert(from == base.len() + 1);
    }
    assert(whole.subrange(from, whole.len() as int) =~= rel);
}

/// What `relative_to` hands out never begins with a separator.
pub proof fn lemma_relative_is_relative(path: Seq<char>, base: Seq<char>)
    ensures
        spec_relative_to(path, base) matches Some(rel) ==> rel.len() == 0 || rel[0] != SEPARATOR,
{
    if has_prefix(path, base) {
        lemma_skip_leading(path, SEPARATOR, base.len() as int);
    }
}

/// The position of the last `c` before the end of `v`, if there is one.
fn find_last(v: &Vec<char>, c: char, end: usize) -> (r: Option<usize>)
    requires
        end <= v.len(),
    ensures
        (match r {
            Some(k) => k < end && k as int == last_index_of(v@, c, end as int),
            None => last_index_of(v@, c, end as int) == -1,
        }),
{
    let mut j: usize = end;
    while j > 0
        invariant
            0 <= j <= end <= v.len(),
            last_index_of(v@, c, end as int) == last_index_of(v@, c, j as int),
        decreases j,
    {
        if v[j - 1] == c {
            return Some(j - 1);
        }
        j = j - 1;
    }
    None
}

/// Computes [`drop_trailing`].
fn trailing_end(v: &Vec<char>, c: char, from: usize) -> (r: usize)
    requires
        from <= v.len(),
    ensures
        r as int == drop_trailing(v@, c, from as int),
        r <= from,
{
    let mut j: usize = from;
    while j > 0 && v[j - 1] == c
        invariant
            0 <= j <= from <= v.len(),
            drop_trailing(v@, c, from as int) == drop_trailing(v@, c, j as int),
        decreases j,
    {
        j = j - 1;
    }
    j
}

/// Computes [`skip_leading`].
fn leading_end(v: &Vec<char>, c: char, from: usize) -> (r: usize)
    requires
        from <= v.len(),
    ensures
        r as int == skip_leading(v@, c, from as int),
        from <= r <= v.len(),
{
    let mut i: usize = from;
    while i < v.len() && v[i] == c
        invariant
            from <= i <= v.len(),
            skip_leading(v@, c, from as int) == skip_leading(v@, c, i as int),
        decreases v.len() - i,
    {
        i = i + 1;
    }
    i
}

/// The file name of a path.
pub fn file_name(path: &str) -> (r: Option<&str>)
    ensures
        opt_view(r) == spec_file_name(path@),
{
    let v = chars_of(path);
    let end = trailing_end(&v, SEPARATOR, v.len());
    let start: usize = match find_last(&v, SEPARATOR, end) {
        Some(k) => k + 1,
        None => 0,
    };
    proof {
        lemma_drop_trailing(v@, SEPARATOR, v.len() as int);
        lemma_last_index_of(v@, SEPARATOR, end as int);
    }
    let len: usize = end - start;
    if len == 0 {
        return None;
    }
    if len == 1 && v[start] == '.' {
        assert(final_component(path@) =~= seq!['.']);
        return None;
    }
    if len == 2 && v[start] == '.' && v[start + 1] == '.' {
        assert(final_component(path@) =~= seq!['.', '.']);
        return None;
    }
    proof {
        let c = final_component(path@);
        let one = seq!['.'];
        let two = seq!['.', '.'];
        assert(c.len() == len);
        assert(c[0] == v@[start as int]);
        assert(one.len() == 1 && one[0] == '.');
        assert(two.len() == 2 && two[0] == '.' && two[1] == '.');
        if len == 2 {
            assert(c[1] == v@[start + 1]);
        }
        assert(c != one);
        assert(c != two);
    }
    Some(path.substring_char(start, end))
}

/// The extension of a path, without its dot.
pub fn extension(path: &str) -> (r: Option<&str>)
    ensures
        opt_view(r) == spec_extension(path@),
{
    match file_name(path) {
        None => None,
        Some(name) => {
            let v = chars_of(name);
            match find_last(&v, '.', v.len()) {
                None => None,
                Some(dot) => {
                    if dot == 0 {
                        None
                    } else {
                        Some(name.substring_char(dot + 1, v.len()))
                    }
                },
            }
        },
    }
}

/// The stem of a path: its file name without the extension.
pub fn file_stem(path: &str) -> (r: Option<&str>)
    ensures
        opt_view(r) == spec_file_stem(path@),
{
    match file_name(path) {
        None => None,
        Some(name) => {
            let v = chars_of(name);
            match find_last(&v, '.', v.len()) {
                None => Some(name),
                Some(dot) => {
                    if dot == 0 {
                        Some(name)
                    } else {
                        Some(name.substring_char(0, dot))
                    }
                },
            }
        },
    }
}

/// Places `rel` under `base`.
pub fn join(base: &str, rel: &str) -> (r: String)
    ensures
        r@ == spec_join(base@, rel@),
{
    let b = chars_of(base);
    let t = chars_of(rel);
    if t.len() > 0 && t[0] == SEPARATOR {
        String::from_str(rel)
    } else if b.len() == 0 || b[b.len() - 1] == SEPARATOR {
        String::from_str(base).concat(rel)
    } else {
        proof {
            reveal_strlit("/");
            assert("/"@ =~= seq![SEPARATOR]);
        }
        String::from_str(base).concat("/").concat(rel)
    }
}

/// The path without its last component.
pub fn parent(path: &str) -> (r: Option<&str>)
    ensures
        opt_view(r) == spec_parent(path@),
{
    let v = chars_of(path);
    let end = trailing_end(&v, SEPARATOR, v.len());
    if end == 0 {
        return None;
    }
    match find_last(&v, SEPARATOR, end) {
        None => {
            let empty = path.substring_char(0, 0);
            assert(empty@ =~= Seq::<char>::empty());
            Some(empty)
        },
        Some(cut) => {
            let head = trailing_end(&v, SEPARATOR, cut);
            if head == 0 {
                Some(path.substring_char(0, 1))
            } else {
                Some(path.substring_char(0, head))
            }
        },
    }
}

/// What `path` adds to `base`, when it lies at or below it.
pub fn relative_to<'a>(path: &'a str, base: &str) -> (r: Option<&'a str>)
    ensures
        opt_view(r) == spec_relative_to(path@, base@),
{
    let p = chars_of(path);
    let b = chars_of(base);
    if b.len() > p.len() {
        return None;
    }
    let mut i: usize = 0;
    while i < b.len()
        invariant
            p@ == path@,
            b@ == base@,
            b.len() <= p.len(),
            0 <= i <= b.len(),
            forall|k: int| 0 <= k < i ==> p@[k] == b@[k],
        decreases b.len() - i,
    {
        if p[i] != b[i] {
            assert(path@.subrange(0, base@.len() as int)[i as int] != base@[i as int]);
            return None;
        }
        i = i + 1;
    }
    assert(path@.subrange(0, base@.len() as int) =~= base@);
    if b.len() == 0 || b[b.len() - 1] == SEPARATOR || p.len() == b.len() || p[b.len()]
        == SEPARATOR {
        let from = leading_end(&p, SEPARATOR, b.len());
        Some(path.substring_char(from, p.len()))
    } else {
        None
    }
}

} // verus!
