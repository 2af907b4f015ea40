//! Verified string helpers: decimal rendering of integers, substring
//! search, and the one lowercase conversion the library takes on trust.

use vstd::prelude::*;

verus! {

/// The decimal digit character for `d`.
pub open spec fn spec_digit_char(d: int) -> char {
    if d == 0 {
        '0'
    } else if d == 1 {
        '1'
    } else if d == 2 {
        '2'
    } else if d == 3 {
        '3'
    } else if d == 4 {
        '4'
    } else if d == 5 {
        '5'
    } else if d == 6 {
        '6'
    } else if d == 7 {
        '7'
    } else if d == 8 {
        '8'
    } else {
        '9'
    }
}

/// The decimal rendering of a natural number, most significant digit first.
pub open spec fn spec_dec_digits(n: nat) -> Seq<char>
    decreases n,
{
    if n < 10 {
        seq![spec_digit_char(n as int)]
    } else {
        spec_dec_digits(n / 10).push(spec_digit_char((n % 10) as int))
    }
}

/// The decimal rendering of a signed number: a minus sign, if negative,
/// followed by the digits of its magnitude.
pub open spec fn spec_dec_int(n: int) -> Seq<char> {
    if n < 0 {
        seq!['-'] + spec_dec_digits((-n) as nat)
    } else {
        spec_dec_digits(n as nat)
    }
}

/// A one-character string holding the decimal digit for `d`.
fn digit_str(d: u64) -> (r: String)
    requires
        d < 10,
    ensures
        r@ == seq![spec_digit_char(d as int)],
{
    proof {
        reveal_strlit("0");
        reveal_strlit("1");
        reveal_strlit("2");
        reveal_strlit("3");
        reveal_strlit("4");
        reveal_strlit("5");
        reveal_strlit("6");
        reveal_strlit("7");
        reveal_strlit("8");
        reveal_strlit("9");
    }
    let r = if d == 0 {
        String::from_str("0")
    } else if d == 1 {
        String::from_str("1")
    } else if d == 2 {
        String::from_str("2")
    } else if d == 3 {
        String::from_str("3")
    } else if d == 4 {
        String::from_str("4")
    } else if d == 5 {
        String::from_str("5")
    } else if d == 6 {
        String::from_str("6")
    } else if d == 7 {
        String::from_str("7")
    } else if d == 8 {
        String::from_str("8")
    } else {
        String::from_str("9")
    };
    assert(r@ =~= seq![spec_digit_char(d as int)]);
    r
}

/// Renders `n` in decimal.
pub fn u64_to_string(n: u64) -> (r: String)
    ensures
        r@ == spec_dec_digits(n as nat),
    decreases n,
{
    if n < 10 {
        digit_str(n)
    } else {
        let mut r = u64_to_string(n / 10);
        let d = digit_str(n % 10);
        r.append(d.as_str());
        proof {
            assert(r@ =~= spec_dec_digits(n as nat));
        }
        r
    }
}

/// Renders `n` in decimal, with a leading minus sign when negative.
pub fn i64_to_string(n: i64) -> (r: String)
    ensures
        r@ == spec_dec_int(n as int),
{
    if n >= 0 {
        u64_to_string(n as u64)
    } else {
        proof {
            reveal_strlit("-");
        }
        let mut r = String::from_str("-");
        // The magnitude of i64::MIN does not fit in i64, so it is named
        // directly; every other magnitude negates without overflow.
        let mag: u64 = if n == i64::MIN {
            9223372036854775808u64
        } else {
            (-n) as u64
        };
        let d = u64_to_string(mag);
        r.append(d.as_str());
        proof {
            assert(r@ =~= spec_dec_int(n as int));
        }
        r
    }
}

/// Renders an `i32` row identifier in decimal.
pub fn i32_to_string(n: i32) -> (r: String)
    ensures
        r@ == spec_dec_int(n as int),
{
    i64_to_string(n as i64)
}

/// `needle` occurs in `haystack` starting at position `i`.
pub open spec fn spec_match_at(haystack: Seq<char>, needle: Seq<char>, i: int) -> bool {
    haystack.subrange(i, i + needle.len()) == needle
}

/// `needle` occurs somewhere in `haystack`.
pub open spec fn spec_contains(haystack: Seq<char>, needle: Seq<char>) -> bool {
    exists|i: int| 0 <= i <= haystack.len() - needle.len() && spec_match_at(haystack, needle, i)
}

/// Whether `needle` occurs in `haystack` starting at character `i`.
fn match_at(haystack: &str, needle: &str, i: usize, hl: usize, nl: usize) -> (r: bool)
    requires
        hl == haystack@.len(),
        nl == needle@.len(),
        i + nl <= hl,
    ensures
        r == spec_match_at(haystack@, needle@, i as int),
{
    let mut j: usize = 0;
    while j < nl
        invariant
            hl == haystack@.len(),
            nl == needle@.len(),
            i + nl <= hl,
            0 <= j <= nl,
            forall|k: int| 0 <= k < j ==> haystack@[i + k] == needle@[k],
        decreases nl - j,
    {
        if haystack.get_char(i + j) != needle.get_char(j) {
            assert(haystack@.subrange(i as int, i + needle@.len())[j as int] != needle@[j as int]);
            return false;
        }
        j += 1;
    }
    proof {
        assert(haystack@.subrange(i as int, i + needle@.len()) =~= needle@);
    }
    true
}

/// Character-exact substring search.
pub fn str_contains(haystack: &str, needle: &str) -> (r: bool)
    ensures
        r == spec_contains(haystack@, needle@),
{
    let hl = haystack.unicode_len();
    let nl = needle.unicode_len();
    if nl > hl {
        return false;
    }
    if nl == 0 {
        proof {
            assert(haystack@.subrange(0, 0) =~= needle@);
            assert(spec_match_at(haystack@, needle@, 0));
        }
        return true;
    }
    let mut i: usize = 0;
    loop
        invariant
            hl == haystack@.len(),
            nl == needle@.len(),
            1 <= nl <= hl,
            0 <= i <= hl - nl + 1,
            forall|k: int| 0 <= k < i ==> !spec_match_at(haystack@, needle@, k),
        decreases hl - nl + 1 - i,
    {
        if i > hl - nl {
            return false;
        }
        if match_at(haystack, needle, i, hl, nl) {
            return true;
        }
        i += 1;
    }
}

/// Whether two string slices hold the same characters.
pub fn str_eq(a: &str, b: &str) -> (r: bool)
    ensures
        r == (a@ == b@),
{
    let la = a.unicode_len();
    let lb = b.unicode_len();
    if la != lb {
        return false;
    }
    let mut i: usize = 0;
    while i < la
        invariant
            la == a@.len(),
            lb == b@.len(),
            la == lb,
            0 <= i <= la,
            forall|k: int| 0 <= k < i ==> a@[k] == b@[k],
        decreases la - i,
    {
        if a.get_char(i) != b.get_char(i) {
            return false;
        }
        i += 1;
    }
    proof {
        assert(a@ =~= b@);
    }
    true
}

/// `c` is a decimal digit.
pub open spec fn spec_is_digit(c: char) -> bool {
    c == '0' || c == '1' || c == '2' || c == '3' || c == '4' || c == '5' || c == '6' || c == '7'
        || c == '8' || c == '9'
}

/// The value of the digit `c`.
pub open spec fn spec_digit_value(c: char) -> int {
    if c == '0' {
        0
    } else if c == '1' {
        1
    } else if c == '2' {
        2
    } else if c == '3' {
        3
    } else if c == '4' {
        4
    } else if c == '5' {
        5
    } else if c == '6' {
        6
    } else if c == '7' {
        7
    } else if c == '8' {
        8
    } else {
        9
    }
}

/// Every character of `s` is a decimal digit.
pub open spec fn spec_all_digits(s: Seq<char>) -> bool {
    forall|i: int| 0 <= i < s.len() ==> spec_is_digit(#[trigger] s[i])
}

/// The number the digits of `s` denote.
pub open spec fn spec_dec_value(s: Seq<char>) -> int
    decreases s.len(),
{
    if s.len() == 0 {
        0
    } else {
        spec_dec_value(s.drop_last()) * 10 + spec_digit_value(s.last())
    }
}

/// The value of one digit character.
fn digit_value(c: char) -> (v: u64)
    requires
        spec_is_digit(c),
    ensures
        v == spec_digit_value(c),
        v < 10,
{
    match c {
        '0' => 0,
        '1' => 1,
        '2' => 2,
        '3' => 3,
        '4' => 4,
        '5' => 5,
        '6' => 6,
        '7' => 7,
        '8' => 8,
        _ => 9,
    }
}

/// Reads a decimal number out of `s`: the value when `s` is one or more
/// digits denoting at most `u64::MAX`, nothing otherwise.
pub fn parse_u64(s: &str) -> (r: Option<u64>)
    ensures
        match r {
            Some(n) => s@.len() > 0 && spec_all_digits(s@) && n == spec_dec_value(s@),
            None => s@.len() == 0 || !spec_all_digits(s@) || spec_dec_value(s@) > u64::MAX,
        },
{
    let len = s.unicode_len();
    if len == 0 {
        return None;
    }
    let mut v: u64 = 0;
    let mut i: usize = 0;
    proof {
        assert(s@.take(0) =~= Seq::<char>::empty());
    }
    while i < len
        invariant
            len == s@.len(),
            0 <= i <= len,
            spec_all_digits(s@.take(i as int)),
            v == spec_dec_value(s@.take(i as int)),
        decreases len - i,
    {
        let c = s.get_char(i);
        let is_digit = match c {
            '0' | '1' | '2' | '3' | '4' | '5' | '6' | '7' | '8' | '9' => true,
            _ => false,
        };
        if !is_digit {
            return None;
        }
        let d = digit_value(c);
        let shifted = match v.checked_mul(10) {
            Some(x) => x,
            None => {
                proof {
                    lemma_dec_value_grows(s@, i as int);
                }
                return None;
            },
        };
        let next = match shifted.checked_add(d) {
            Some(x) => x,
            None => {
                proof {
                    lemma_dec_value_grows(s@, i as int);
                }
                return None;
            },
        };
        v = next;
        proof {
            let t = s@.take(i + 1);
            assert(t.drop_last() =~= s@.take(i as int));
            assert(t.last() == s@[i as int]);
        }
        i += 1;
    }
    proof {
        assert(s@.take(len as int) =~= s@);
    }
    Some(v)
}

/// Once a prefix already denotes more than fits before the remaining
/// digits, the whole string does too.
proof fn lemma_dec_value_grows(s: Seq<char>, i: int)
    requires
        0 <= i < s.len(),
        spec_dec_value(s.take(i)) * 10 + spec_digit_value(s[i]) > u64::MAX,
        spec_all_digits(s.take(i)),
    ensures
        spec_dec_value(s) > u64::MAX,
{
    assert(s.take(i + 1).drop_last() =~= s.take(i));
    assert(s.take(i + 1).last() == s[i]);
    assert(spec_dec_value(s.take(i + 1)) > u64::MAX);
    lemma_dec_value_monotone(s, i + 1);
}

/// Extending a digit string never shrinks its value.
proof fn lemma_dec_value_monotone(s: Seq<char>, i: int)
    requires
        0 <= i <= s.len(),
        spec_dec_value(s.take(i)) >= 0,
    ensures
        spec_dec_value(s) >= spec_dec_value(s.take(i)),
        spec_dec_value(s) >= 0,
    decreases s.len() - i,
{
    if i == s.len() {
        assert(s.take(i) =~= s);
    } else {
        assert(s.take(i + 1).drop_last() =~= s.take(i));
        assert(s.take(i + 1).last() == s[i]);
        assert(spec_dec_value(s.take(i + 1)) == spec_dec_value(s.take(i)) * 10
            + spec_digit_value(s[i]));
        assert(spec_digit_value(s[i]) >= 0);
        lemma_dec_value_monotone(s, i + 1);
    }
}

/// The number in a task branch's name: branches named by the task id
/// followed by the task suffix carry the id; every other name carries
/// nothing.
pub fn task_iid_from_branch(s: &str) -> (r: Option<u64>)
    ensures
        match r {
            Some(n) => s@.len() > 5 && s@.subrange(s@.len() - 5, s@.len() as int) == "-task"@
                && spec_all_digits(s@.take(s@.len() - 5)) && n == spec_dec_value(
                s@.take(s@.len() - 5),
            ),
            None => s@.len() <= 5 || s@.subrange(s@.len() - 5, s@.len() as int) != "-task"@
                || !spec_all_digits(s@.take(s@.len() - 5)) || spec_dec_value(
                s@.take(s@.len() - 5),
            ) > u64::MAX,
        },
{
    let len = s.unicode_len();
    if len <= 5 {
        return None;
    }
    let suffix = s.substring_char(len - 5, len);
    if !str_eq(suffix, "-task") {
        return None;
    }
    let prefix = s.substring_char(0, len - 5);
    proof {
        assert(prefix@ =~= s@.take(s@.len() - 5));
    }
    parse_u64(prefix)
}

/// The lowercase form of a sequence of characters, as `str::to_lowercase`
/// computes it.
pub uninterp spec fn lower_of(s: Seq<char>) -> Seq<char>;

/// Relies on str::to_lowercase: the result is a function of the characters
/// alone, and an empty string stays empty.
#[verifier::external_body]
pub fn lowercase(s: &str) -> (r: String)
    ensures
        r@ == lower_of(s@),
        s@.len() == 0 ==> r@.len() == 0,
{
    s.to_lowercase()
}

} // verus!
