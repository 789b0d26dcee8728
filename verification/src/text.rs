//! Text as sequences of characters: ASCII case folding, trimming and the
//! order in which names are listed.
//!
//! Every contract in this crate speaks of a string through its view, a
//! `Seq<char>`. The spec functions here give the vocabulary; the executable
//! functions compute them on `&str`.

use vstd::prelude::*;
use vstd::string::StrSliceExecFns;

verus! {

/// The ASCII lower-case form of a character; every other character is kept.
pub open spec fn ascii_lower(c: char) -> char {
    if 'A' <= c && c <= 'Z' {
        ((c as u8) + 32) as char
    } else {
        c
    }
}

/// A text with every ASCII capital replaced by its small letter.
pub open spec fn lower(s: Seq<char>) -> Seq<char> {
    Seq::new(s.len(), |i: int| ascii_lower(s[i]))
}

/// Two texts are equal when ASCII case is ignored.
pub open spec fn eq_ignore_case(a: Seq<char>, b: Seq<char>) -> bool {
    lower(a) == lower(b)
}

/// `s` ends with `suffix`, character for character.
pub open spec fn has_suffix(s: Seq<char>, suffix: Seq<char>) -> bool {
    suffix.len() <= s.len() && s.subrange(s.len() - suffix.len(), s.len() as int) == suffix
}

/// `s` begins with `prefix`, character for character.
pub open spec fn has_prefix(s: Seq<char>, prefix: Seq<char>) -> bool {
    prefix.len() <= s.len() && s.subrange(0, prefix.len() as int) == prefix
}

/// `s` ends with `suffix` when ASCII case is ignored on both sides.
pub open spec fn has_suffix_ignore_case(s: Seq<char>, suffix: Seq<char>) -> bool {
    has_suffix(lower(s), lower(suffix))
}

/// The characters that trimming removes: Unicode white space.
pub open spec fn is_space(c: char) -> bool {
    let n = c as u32;
    ||| 0x09 <= n <= 0x0d
    ||| n == 0x20
    ||| n == 0x85
    ||| n == 0xa0
    ||| n == 0x1680
    ||| 0x2000 <= n <= 0x200a
    ||| n == 0x2028
    ||| n == 0x2029
    ||| n == 0x202f
    ||| n == 0x205f
    ||| n == 0x3000
}

/// The first position at or after `i` that holds no white space, or the
/// length of `s` when there is none.
pub open spec fn skip_spaces(s: Seq<char>, i: int) -> int
    decreases s.len() - i,
{
    if 0 <= i < s.len() && is_space(s[i]) {
        skip_spaces(s, i + 1)
    } else {
        i
    }
}

/// The end of the text that is left of `s.subrange(0, j)` once the white
/// space at its end is dropped.
pub open spec fn drop_spaces(s: Seq<char>, j: int) -> int
    decreases j,
{
    if 0 < j <= s.len() && is_space(s[j - 1]) {
        drop_spaces(s, j - 1)
    } else {
        j
    }
}

/// `s` without the white space at its two ends.
pub open spec fn trimmed(s: Seq<char>) -> Seq<char> {
    let start = skip_spaces(s, 0);
    if start >= s.len() {
        Seq::empty()
    } else {
        s.subrange(start, drop_spaces(s, s.len() as int))
    }
}

/// Every character of `s` is white space.
pub open spec fn is_blank(s: Seq<char>) -> bool {
    forall|i: int| 0 <= i < s.len() ==> is_space(#[trigger] s[i])
}

/// Lexicographic order of two texts from position `i` on, by code point.
pub open spec fn lex_le_from(a: Seq<char>, b: Seq<char>, i: int) -> bool
    decreases a.len() - i,
{
    if i < 0 || i >= a.len() {
        true
    } else if i >= b.len() {
        false
    } else if (a[i] as u32) < (b[i] as u32) {
        true
    } else if (a[i] as u32) > (b[i] as u32) {
        false
    } else {
        lex_le_from(a, b, i + 1)
    }
}

/// Lexicographic order by code point: the order of `str`.
pub open spec fn lex_le(a: Seq<char>, b: Seq<char>) -> bool {
    lex_le_from(a, b, 0)
}

/// The order in which names are listed: lexicographic on the ASCII
/// lower-case forms.
pub open spec fn name_le(a: Seq<char>, b: Seq<char>) -> bool {
    lex_le(lower(a), lower(b))
}

/// What `skip_spaces` skips: a run of white space that begins at `i`, and
/// all of it.
pub proof fn lemma_skip_spaces_bounds(s: Seq<char>, i: int)
    requires
        0 <= i <= s.len(),
    ensures
        i <= skip_spaces(s, i) <= s.len(),
        forall|k: int| i <= k < skip_spaces(s, i) ==> is_space(#[trigger] s[k]),
        skip_spaces(s, i) < s.len() ==> !is_space(s[skip_spaces(s, i)]),
    decreases s.len() - i,
{
    if i < s.len() && is_space(s[i]) {
        lemma_skip_spaces_bounds(s, i + 1);
    }
}

/// What `drop_spaces` drops: a run of white space that ends at `j`, and
/// all of it.
pub proof fn lemma_drop_spaces_bounds(s: Seq<char>, j: int)
    requires
        0 <= j <= s.len(),
    ensures
        0 <= drop_spaces(s, j) <= j,
        forall|k: int| drop_spaces(s, j) <= k < j ==> is_space(#[trigger] s[k]),
        drop_spaces(s, j) > 0 ==> !is_space(s[drop_spaces(s, j) - 1]),
    decreases j,
{
    if 0 < j && is_space(s[j - 1]) {
        lemma_drop_spaces_bounds(s, j - 1);
    }
}

/// Trimming leaves nothing exactly when the text is blank; otherwise it
/// leaves a stretch of the text whose first and last characters are no white
/// space, with only white space before and after it.
pub proof fn lemma_trimmed(s: Seq<char>)
    ensures
        trimmed(s).len() == 0 <==> is_blank(s),
        (trimmed(s).len() > 0 ==> {
            &&& skip_spaces(s, 0) < drop_spaces(s, s.len() as int) <= s.len()
            &&& !is_space(trimmed(s).first())
            &&& !is_space(trimmed(s).last())
        }),
{
    let start = skip_spaces(s, 0);
    let end = drop_spaces(s, s.len() as int);
    lemma_skip_spaces_bounds(s, 0);
    lemma_drop_spaces_bounds(s, s.len() as int);
    if start < s.len() {
        assert(!is_space(s[start]));
        if end <= start {
            assert(is_space(s[start]));
        }
        assert(trimmed(s).len() == end - start);
        assert(trimmed(s).first() == s[start]);
        assert(trimmed(s).last() == s[end - 1]);
    }
}

/// Trimming twice is trimming once.
pub proof fn lemma_trimmed_idempotent(s: Seq<char>)
    ensures
        trimmed(trimmed(s)) == trimmed(s),
{
    let t = trimmed(s);
    lemma_trimmed(s);
    if t.len() > 0 {
        assert(skip_spaces(t, 0) == 0);
        assert(drop_spaces(t, t.len() as int) == t.len());
        assert(t.subrange(0, t.len() as int) =~= t);
    } else {
        assert(skip_spaces(t, 0) == 0);
    }
}

/// Lowering goes character by character: it can be done piece by piece.
pub proof fn lemma_lower_concat(a: Seq<char>, b: Seq<char>)
    ensures
        lower(a + b) == lower(a) + lower(b),
{
    assert(lower(a + b) =~= lower(a) + lower(b));
}

/// The order of texts is reflexive.
pub proof fn lemma_lex_le_refl(a: Seq<char>, i: int)
    ensures
        lex_le_from(a, a, i),
    decreases a.len() - i,
{
    if 0 <= i < a.len() {
        lemma_lex_le_refl(a, i + 1);
    }
}

/// Of two texts one comes no later than the other.
pub proof fn lemma_lex_le_total(a: Seq<char>, b: Seq<char>, i: int)
    requires
        0 <= i,
    ensures
        lex_le_from(a, b, i) || lex_le_from(b, a, i),
    decreases a.len() - i,
{
    if i < a.len() && i < b.len() && a[i] as u32 == b[i] as u32 {
        lemma_lex_le_total(a, b, i + 1);
    }
}

/// The order of texts is transitive.
pub proof fn lemma_lex_le_trans(a: Seq<char>, b: Seq<char>, c: Seq<char>, i: int)
    requires
        0 <= i,
        lex_le_from(a, b, i),
        lex_le_from(b, c, i),
    ensures
        lex_le_from(a, c, i),
    decreases a.len() - i,
{
    if i < a.len() {
        if a[i] as u32 == b[i] as u32 && b[i] as u32 == c[i] as u32 {
            lemma_lex_le_trans(a, b, c, i + 1);
        }
    }
}

/// Computes [`ascii_lower`].
pub fn to_ascii_lower(c: char) -> (r: char)
    ensures
        r == ascii_lower(c),
{
    if 'A' <= c && c <= 'Z' {
        ((c as u8) + 32) as char
    } else {
        c
    }
}

/// Tells whether a character is white space.
pub fn is_whitespace(c: char) -> (r: bool)
    ensures
        r == is_space(c),
{
    let n: u32 = c as u32;
    (0x09 <= n && n <= 0x0d) || n == 0x20 || n == 0x85 || n == 0xa0 || n == 0x1680 || (0x2000 <= n
        && n <= 0x200a) || n == 0x2028 || n == 0x2029 || n == 0x202f || n == 0x205f || n == 0x3000
}

/// The characters of a string slice.
pub fn chars_of(s: &str) -> (r: Vec<char>)
    ensures
        r@ == s@,
{
    broadcast use vstd::string::group_string_axioms;

    let mut out: Vec<char> = Vec::new();
    for c in it: s.chars()
        invariant
            it.seq() == s@,
            out@ == s@.take(it.index()),
    {
        out.push(c);
    }
    assert(out@ =~= s@);
    out
}

/// Compares two strings, ignoring ASCII case.
pub fn eq_ignore_ascii_case(a: &str, b: &str) -> (r: bool)
    ensures
        r == eq_ignore_case(a@, b@),
{
    let x = chars_of(a);
    let y = chars_of(b);
    if x.len() != y.len() {
        assert(lower(a@).len() != lower(b@).len());
        return false;
    }
    let mut i: usize = 0;
    while i < x.len()
        invariant
            x@ == a@,
            y@ == b@,
            x.len() == y.len(),
            0 <= i <= x.len(),
            forall|k: int| 0 <= k < i ==> ascii_lower(x@[k]) == ascii_lower(y@[k]),
        decreases x.len() - i,
    {
        if to_ascii_lower(x[i]) != to_ascii_lower(y[i]) {
            assert(lower(a@)[i as int] != lower(b@)[i as int]);
            return false;
        }
        i = i + 1;
    }
    assert(lower(a@) =~= lower(b@));
    true
}

/// Compares two strings, character for character.
pub fn same_text(a: &str, b: &str) -> (r: bool)
    ensures
        r == (a@ == b@),
{
    let x = chars_of(a);
    let y = chars_of(b);
    if x.len() != y.len() {
        return false;
    }
    let mut i: usize = 0;
    while i < x.len()
        invariant
            x@ == a@,
            y@ == b@,
            x.len() == y.len(),
            0 <= i <= x.len(),
            forall|k: int| 0 <= k < i ==> x@[k] == y@[k],
        decreases x.len() - i,
    {
        if x[i] != y[i] {
            return false;
        }
        i = i + 1;
    }
    assert(a@ =~= b@);
    true
}

/// Tells whether `s` ends with `suffix` when ASCII case is ignored.
pub fn ends_with_ignore_ascii_case(s: &str, suffix: &str) -> (r: bool)
    ensures
        r == has_suffix_ignore_case(s@, suffix@),
{
    let x = chars_of(s);
    let y = chars_of(suffix);
    if y.len() > x.len() {
        return false;
    }
    let off: usize = x.len() - y.len();
    let ghost tail = lower(s@).subrange(off as int, x.len() as int);
    let mut i: usize = 0;
    while i < y.len()
        invariant
            x@ == s@,
            y@ == suffix@,
            off + y.len() == x.len(),
            0 <= i <= y.len(),
            tail == lower(s@).subrange(off as int, x.len() as int),
            forall|k: int| 0 <= k < i ==> ascii_lower(x@[off + k]) == ascii_lower(y@[k]),
        decreases y.len() - i,
    {
        if to_ascii_lower(x[off + i]) != to_ascii_lower(y[i]) {
            assert(tail[i as int] != lower(suffix@)[i as int]);
            return false;
        }
        i = i + 1;
    }
    assert(tail =~= lower(suffix@));
    true
}

/// The string without the white space at its two ends.
pub fn trim(s: &str) -> (r: &str)
    ensures
        r@ == trimmed(s@),
{
    let v = chars_of(s);
    let n: usize = v.len();
    let mut start: usize = 0;
    while start < n && is_whitespace(v[start])
        invariant
            v@ == s@,
            n == v.len(),
            0 <= start <= n,
            skip_spaces(s@, 0) == skip_spaces(s@, start as int),
        decreases n - start,
    {
        start = start + 1;
    }
    if start >= n {
        let empty = s.substring_char(0, 0);
        assert(empty@ =~= Seq::<char>::empty());
        return empty;
    }
    let mut end: usize = n;
    while end > 0 && is_whitespace(v[end - 1])
        invariant
            v@ == s@,
            n == v.len(),
            0 <= end <= n,
            drop_spaces(s@, n as int) == drop_spaces(s@, end as int),
        decreases end,
    {
        end = end - 1;
    }
    proof {
        lemma_trimmed(s@);
    }
    s.substring_char(start, end)
}

/// Tells whether `a` is listed no later than `b`: compares the ASCII
/// lower-case forms, code point by code point.
pub fn name_order(a: &str, b: &str) -> (r: bool)
    ensures
        r == name_le(a@, b@),
{
    let x = chars_of(a);
    let y = chars_of(b);
    let mut i: usize = 0;
    while i < x.len()
        invariant
            x@ == a@,
            y@ == b@,
            0 <= i <= x.len(),
            name_le(a@, b@) == lex_le_from(lower(a@), lower(b@), i as int),
        decreases x.len() - i,
    {
        if i >= y.len() {
            return false;
        }
        let p: u32 = to_ascii_lower(x[i]) as u32;
        let q: u32 = to_ascii_lower(y[i]) as u32;
        if p < q {
            return true;
        }
        if p > q {
            return false;
        }
        i = i + 1;
    }
    true
}

} // verus!
