//! The name of the temporary directory into which an archive is unpacked.
//!
//! The name is made of the process id, the time in nanoseconds and the
//! number of the attempt. The first attempt whose name is free is taken;
//! after a thousand attempts the search is given up.

use crate::paths::join;
use crate::paths::spec_join;
use crate::text::same_text;
use vstd::prelude::*;
use vstd::string::StringExecFns;

verus! {

/// The number of names that are tried.
pub const MAX_ATTEMPTS: u32 = 1000;

/// The decimal digit of a number below ten.
pub open spec fn digit(d: nat) -> char {
    if d == 0 {
        '0'
    } else if d == 1 {
        '1'
    } else if d == 2 {
        '2'
    } else if d == 3 {
        '3'
    } else if d == 4 {
        '4'
    } else if d == 5 {
        '5'
    } else if d == 6 {
        '6'
    } else if d == 7 {
        '7'
    } else if d == 8 {
        '8'
    } else {
        '9'
    }
}

/// A number written in decimal, without leading zeros.
pub open spec fn decimal(n: nat) -> Seq<char>
    decreases n,
{
    if n < 10 {
        seq![digit(n)]
    } else {
        decimal(n / 10).push(digit(n % 10))
    }
}

/// The name of the directory for one attempt.
pub open spec fn temp_dir_name(pid: nat, now_nanos: nat, attempt: nat) -> Seq<char> {
    "extract-"@ + decimal(pid) + "-"@ + decimal(now_nanos) + "-"@ + decimal(attempt)
}

/// The first attempt from `from` on whose name is not taken, if there is one
/// below the limit.
pub open spec fn first_free_attempt(
    pid: nat,
    now_nanos: nat,
    taken: Seq<Seq<char>>,
    from: nat,
) -> Option<nat>
    decreases MAX_ATTEMPTS - from,
{
    if from >= MAX_ATTEMPTS {
        None
    } else if !taken.contains(temp_dir_name(pid, now_nanos, from)) {
        Some(from)
    } else {
        first_free_attempt(pid, now_nanos, taken, from + 1)
    }
}

/// The directory to unpack into: below `base`, under the name of the first
/// free attempt. There is none where all names are taken.
pub open spec fn spec_create_temp_extract_dir(
    base: Seq<char>,
    pid: nat,
    now_nanos: nat,
    taken: Seq<Seq<char>>,
) -> Option<Seq<char>> {
    match first_free_attempt(pid, now_nanos, taken, 0) {
        Some(attempt) => Some(spec_join(base, temp_dir_name(pid, now_nanos, attempt))),
        None => None,
    }
}

/// The search has used up its attempts: every name that it may give out is
/// taken.
#[derive(Clone, Copy, PartialEq, Eq, Debug, Structural)]
pub struct AttemptsExhausted;

/// The digit of a number below ten, as a string.
fn digit_str(d: u8) -> (r: &'static str)
    requires
        d < 10,
    ensures
        r@ == seq![digit(d as nat)],
{
    proof {
        reveal_strlit("0");
        reveal_strlit("1");
        reveal_strlit("2");
        reveal_strlit("3");
        reveal_strlit("4");
        reveal_strlit("5");
        reveal_strlit("6");
        reveal_strlit("7");
        reveal_strlit("8");
        reveal_strlit("9");
    }
    let r = if d == 0 {
        "0"
    } else if d == 1 {
        "1"
    } else if d == 2 {
        "2"
    } else if d == 3 {
        "3"
    } else if d == 4 {
        "4"
    } else if d == 5 {
        "5"
    } else if d == 6 {
        "6"
    } else if d == 7 {
        "7"
    } else if d == 8 {
        "8"
    } else {
        "9"
    };
    assert(r@ =~= seq![digit(d as nat)]);
    r
}

/// Writes a number in decimal.
pub fn decimal_string(n: u128) -> (r: String)
    ensures
        r@ == decimal(n as nat),
    decreases n,
{
    if n < 10 {
        String::from_str(digit_str(n as u8))
    } else {
        let head = decimal_string(n / 10);
        let r = head.concat(digit_str((n % 10) as u8));
        assert(r@ =~= decimal((n / 10) as nat).push(digit((n % 10) as nat)));
        r
    }
}

/// The name of the directory for one attempt.
pub fn temp_dir_name_for(pid: u32, now_nanos: u128, attempt: u32) -> (r: String)
    ensures
        r@ == temp_dir_name(pid as nat, now_nanos as nat, attempt as nat),
{
    let mut name = String::from_str("extract-");
    name.append(decimal_string(pid as u128).as_str());
    name.append("-");
    name.append(decimal_string(now_nanos).as_str());
    name.append("-");
    name.append(decimal_string(attempt as u128).as_str());
    name
}

/// Tells whether `name` is among `taken`.
fn is_taken(taken: &Vec<String>, name: &str) -> (r: bool)
    ensures
        r == taken.deep_view().contains(name@),
{
    let mut i: usize = 0;
    while i < taken.len()
        invariant
            0 <= i <= taken.len(),
            forall|k: int| 0 <= k < i ==> taken.deep_view()[k] != name@,
        decreases taken.len() - i,
    {
        if same_text(taken[i].as_str(), name) {
            assert(taken.deep_view()[i as int] == name@);
            return true;
        }
        i = i + 1;
    }
    false
}

/// What the first free attempt is: below the limit, free, and later than
/// every attempt whose name is taken.
pub proof fn lemma_first_free_attempt(pid: nat, now_nanos: nat, taken: Seq<Seq<char>>, from: nat)
    ensures
        (match first_free_attempt(pid, now_nanos, taken, from) {
            Some(attempt) => {
                &&& from <= attempt < MAX_ATTEMPTS
                &&& !taken.contains(temp_dir_name(pid, now_nanos, attempt))
                &&& forall|other: nat|
                    from <= other < attempt ==> taken.contains(
                        #[trigger] temp_dir_name(pid, now_nanos, other),
                    )
            },
            None => forall|other: nat|
                from <= other < MAX_ATTEMPTS ==> taken.contains(
                    #[trigger] temp_dir_name(pid, now_nanos, other),
                ),
        }),
    decreases MAX_ATTEMPTS - from,
{
    if from < MAX_ATTEMPTS && taken.contains(temp_dir_name(pid, now_nanos, from)) {
        lemma_first_free_attempt(pid, now_nanos, taken, from + 1);
    }
}

/// A number of two digits or more is written with two characters or more.
pub proof fn lemma_decimal_len(n: nat)
    ensures
        decimal(n).len() >= 1,
        n >= 10 ==> decimal(n).len() >= 2,
    decreases n,
{
    if n >= 10 {
        lemma_decimal_len(n / 10);
    }
}

/// Different numbers are written differently.
pub proof fn lemma_decimal_differs(a: nat, b: nat)
    ensures
        decimal(a) == decimal(b) ==> a == b,
    decreases a,
{
    lemma_decimal_len(a);
    lemma_decimal_len(b);
    if decimal(a) == decimal(b) {
        if a >= 10 {
            assert(b >= 10);
            let x = decimal(a / 10);
            let y = decimal(b / 10);
            assert(decimal(a).last() == digit(a % 10));
            assert(decimal(b).last() == digit(b % 10));
            assert(x =~= decimal(a).drop_last());
            assert(y =~= decimal(b).drop_last());
            lemma_decimal_differs(a / 10, b / 10);
        } else {
            assert(b < 10);
            assert(decimal(a)[0] == digit(a));
            assert(decimal(b)[0] == digit(b));
        }
    }
}

/// The names for one process and time are free of collisions: different
/// attempts have different names.
pub proof fn lemma_temp_dir_names_differ(pid: nat, now_nanos: nat, a: nat, b: nat)
    ensures
        a != b ==> temp_dir_name(pid, now_nanos, a) != temp_dir_name(pid, now_nanos, b),
{
    let head = "extract-"@ + decimal(pid) + "-"@ + decimal(now_nanos) + "-"@;
    let x = temp_dir_name(pid, now_nanos, a);
    let y = temp_dir_name(pid, now_nanos, b);
    if x == y {
        assert(decimal(a) =~= x.subrange(head.len() as int, x.len() as int));
        assert(decimal(b) =~= y.subrange(head.len() as int, y.len() as int));
        lemma_decimal_differs(a, b);
    }
}

/// Chooses the directory into which an archive is unpacked: below `base`,
/// under the first of the thousand names for this process and time that is
/// not among `taken`, the names that exist in `base`. Fails where all of
/// them are taken.
pub fn create_temp_extract_dir(base: &str, pid: u32, now_nanos: u128, taken: &Vec<String>) -> (r:
    Result<String, AttemptsExhausted>)
    ensures
        (match r {
            Ok(dir) => spec_create_temp_extract_dir(
                base@,
                pid as nat,
                now_nanos as nat,
                taken.deep_view(),
            ) == Some(dir@),
            Err(_) => spec_create_temp_extract_dir(
                base@,
                pid as nat,
                now_nanos as nat,
                taken.deep_view(),
            ) is None,
        }),
{
    let mut attempt: u32 = 0;
    while attempt < MAX_ATTEMPTS
        invariant
            0 <= attempt <= MAX_ATTEMPTS,
            first_free_attempt(pid as nat, now_nanos as nat, taken.deep_view(), 0)
                == first_free_attempt(
                pid as nat,
                now_nanos as nat,
                taken.deep_view(),
                attempt as nat,
            ),
        decreases MAX_ATTEMPTS - attempt,
    {
        let name = temp_dir_name_for(pid, now_nanos, attempt);
        if !is_taken(taken, name.as_str()) {
            return Ok(join(base, name.as_str()));
        }
        attempt = attempt + 1;
    }
    Err(AttemptsExhausted)
}

} // verus!
