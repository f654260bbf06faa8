//! Character-level scanning shared by the metadata parsers:
//! ASCII-case-insensitive comparison, whitespace trimming, and splitting
//! a header value at separators that stand outside `<...>` brackets and
//! outside double quotes.

use vstd::prelude::*;

verus! {

use vstd::string::StrSliceExecFns;
use vstd::string::StringExecFns;

/// ASCII lowercase of one character; every other character is kept.
pub open spec fn lower_char(c: char) -> char {
    if 'A' <= c && c <= 'Z' {
        (((c as u8) + 32) as char)
    } else {
        c
    }
}

pub open spec fn lower(s: Seq<char>) -> Seq<char> {
    s.map_values(|c: char| lower_char(c))
}

/// Case-insensitive equality, the comparison every header name uses.
pub open spec fn eq_ignore_case(a: Seq<char>, b: Seq<char>) -> bool {
    lower(a) == lower(b)
}

fn lower_char_exec(c: char) -> (r: char)
    ensures
        r == lower_char(c),
{
    if 'A' <= c && c <= 'Z' {
        (((c as u8) + 32) as char)
    } else {
        c
    }
}

pub fn str_eq_ignore_case(a: &str, b: &str) -> (r: bool)
    ensures
        r == eq_ignore_case(a@, b@),
{
    let na = a.unicode_len();
    let nb = b.unicode_len();
    if na != nb {
        assert(lower(a@).len() != lower(b@).len());
        return false;
    }
    let mut i: usize = 0;
    while i < na
        invariant
            0 <= i <= na,
            na == a@.len(),
            na == b@.len(),
            forall|j: int| 0 <= j < i ==> lower(a@)[j] == lower(b@)[j],
        decreases na - i,
    {
        let ca = lower_char_exec(a.get_char(i));
        let cb = lower_char_exec(b.get_char(i));
        if ca != cb {
            assert(lower(a@)[i as int] != lower(b@)[i as int]);
            return false;
        }
        i = i + 1;
    }
    proof {
        assert(lower(a@) =~= lower(b@));
    }
    true
}

/// The optional whitespace allowed around header-value parts.
pub open spec fn is_ws(c: char) -> bool {
    c == ' ' || c == '\t'
}

fn is_ws_exec(c: char) -> (r: bool)
    ensures
        r == is_ws(c),
{
    c == ' ' || c == '\t'
}

/// First position at or after `i` holding `c`; the length if none does.
pub open spec fn find_from(s: Seq<char>, i: int, c: char) -> int
    decreases s.len() - i,
{
    if i < 0 || i >= s.len() {
        s.len() as int
    } else if s[i] == c {
        i
    } else {
        find_from(s, i + 1, c)
    }
}

pub proof fn lemma_find_from_bounds(s: Seq<char>, i: int, c: char)
    requires
        0 <= i <= s.len(),
    ensures
        i <= find_from(s, i, c) <= s.len(),
    decreases s.len() - i,
{
    if i < s.len() && s[i] != c {
        lemma_find_from_bounds(s, i + 1, c);
    }
}

pub fn find_from_exec(s: &str, i: usize, c: char) -> (k: usize)
    requires
        i <= s@.len(),
    ensures
        k == find_from(s@, i as int, c),
    decreases s@.len() - i,
{
    let n = s.unicode_len();
    if i >= n {
        n
    } else if s.get_char(i) == c {
        i
    } else {
        find_from_exec(s, i + 1, c)
    }
}

/// First position at or after `i` where `sep` stands outside `<...>`
/// and outside double quotes; the length if none does. The two flags
/// carry the scanning state at position `i`.
pub open spec fn cut_point(s: Seq<char>, i: int, in_angle: bool, in_quote: bool, sep: char) -> int
    decreases s.len() - i,
{
    if i < 0 || i >= s.len() {
        s.len() as int
    } else if in_quote {
        cut_point(s, i + 1, in_angle, s[i] != '"', sep)
    } else if in_angle {
        cut_point(s, i + 1, s[i] != '>', false, sep)
    } else if s[i] == sep {
        i
    } else if s[i] == '<' {
        cut_point(s, i + 1, true, false, sep)
    } else if s[i] == '"' {
        cut_point(s, i + 1, false, true, sep)
    } else {
        cut_point(s, i + 1, false, false, sep)
    }
}

pub proof fn lemma_cut_point_bounds(s: Seq<char>, i: int, in_angle: bool, in_quote: bool, sep: char)
    requires
        0 <= i <= s.len(),
    ensures
        i <= cut_point(s, i, in_angle, in_quote, sep) <= s.len(),
    decreases s.len() - i,
{
    if i < s.len() {
        if in_quote {
            lemma_cut_point_bounds(s, i + 1, in_angle, s[i] != '"', sep);
        } else if in_angle {
            lemma_cut_point_bounds(s, i + 1, s[i] != '>', false, sep);
        } else if s[i] == sep {
        } else if s[i] == '<' {
            lemma_cut_point_bounds(s, i + 1, true, false, sep);
        } else if s[i] == '"' {
            lemma_cut_point_bounds(s, i + 1, false, true, sep);
        } else {
            lemma_cut_point_bounds(s, i + 1, false, false, sep);
        }
    }
}

pub fn cut_point_exec(s: &str, i: usize, in_angle: bool, in_quote: bool, sep: char) -> (k: usize)
    requires
        i <= s@.len(),
    ensures
        k == cut_point(s@, i as int, in_angle, in_quote, sep),
    decreases s@.len() - i,
{
    let n = s.unicode_len();
    if i >= n {
        n
    } else {
        let c = s.get_char(i);
        if in_quote {
            cut_point_exec(s, i + 1, in_angle, c != '"', sep)
        } else if in_angle {
            cut_point_exec(s, i + 1, c != '>', false, sep)
        } else if c == sep {
            i
        } else if c == '<' {
            cut_point_exec(s, i + 1, true, false, sep)
        } else if c == '"' {
            cut_point_exec(s, i + 1, false, true, sep)
        } else {
            cut_point_exec(s, i + 1, false, false, sep)
        }
    }
}

/// The pieces of `s` between separators that stand outside brackets and
/// quotes. Separators are dropped; empty pieces are kept.
pub open spec fn split_outside(s: Seq<char>, sep: char) -> Seq<Seq<char>>
    decreases s.len(),
    via split_outside_decreases
{
    let k = cut_point(s, 0, false, false, sep);
    if k >= s.len() {
        seq![s]
    } else {
        seq![s.subrange(0, k)].add(split_outside(s.subrange(k + 1, s.len() as int), sep))
    }
}

#[via_fn]
proof fn split_outside_decreases(s: Seq<char>, sep: char) {
    lemma_cut_point_bounds(s, 0, false, false, sep);
}

pub fn split_outside_exec(s: &str, sep: char) -> (r: Vec<String>)
    ensures
        r@.len() == split_outside(s@, sep).len(),
        forall|i: int| 0 <= i < r@.len() ==> r@[i]@ == split_outside(s@, sep)[i],
    decreases s@.len(),
{
    let n = s.unicode_len();
    let k = cut_point_exec(s, 0, false, false, sep);
    proof {
        lemma_cut_point_bounds(s@, 0, false, false, sep);
    }
    if k >= n {
        let mut r: Vec<String> = Vec::new();
        r.push(String::from_str(s));
        r
    } else {
        let head = String::from_str(s.substring_char(0, k));
        let tail = s.substring_char(k + 1, n);
        let mut rest = split_outside_exec(tail, sep);
        let ghost rest0 = rest@;
        let mut r: Vec<String> = Vec::new();
        r.push(head);
        r.append(&mut rest);
        proof {
            let parts = split_outside(s@, sep);
            assert(parts == seq![s@.subrange(0, k as int)].add(
                split_outside(s@.subrange(k as int + 1, s@.len() as int), sep)));
            assert forall|i: int| 0 <= i < r@.len() implies r@[i]@ == parts[i] by {
                if i > 0 {
                    assert(r@[i] == rest0[i - 1]);
                }
            }
        }
        r
    }
}

/// First position at or after `i` holding a non-whitespace character.
pub open spec fn trim_start_idx(s: Seq<char>, i: int) -> int
    decreases s.len() - i,
{
    if i < 0 || i >= s.len() {
        s.len() as int
    } else if is_ws(s[i]) {
        trim_start_idx(s, i + 1)
    } else {
        i
    }
}

/// Position after the last non-whitespace character before `i`.
pub open spec fn trim_end_idx(s: Seq<char>, i: int) -> int
    decreases i,
{
    if i <= 0 || i > s.len() {
        0
    } else if is_ws(s[i - 1]) {
        trim_end_idx(s, i - 1)
    } else {
        i
    }
}

/// `s` without leading and trailing whitespace.
pub open spec fn trim(s: Seq<char>) -> Seq<char> {
    let a = trim_start_idx(s, 0);
    let b = trim_end_idx(s, s.len() as int);
    if a < b {
        s.subrange(a, b)
    } else {
        Seq::empty()
    }
}

pub fn trim_exec<'a>(s: &'a str) -> (r: &'a str)
    ensures
        r@ == trim(s@),
{
    let n = s.unicode_len();
    let mut a: usize = 0;
    while a < n && is_ws_exec(s.get_char(a))
        invariant
            0 <= a <= n,
            n == s@.len(),
            trim_start_idx(s@, 0) == trim_start_idx(s@, a as int),
        decreases n - a,
    {
        a = a + 1;
    }
    assert(a == trim_start_idx(s@, 0));
    let mut b: usize = n;
    while b > 0 && is_ws_exec(s.get_char(b - 1))
        invariant
            0 <= b <= n,
            n == s@.len(),
            trim_end_idx(s@, n as int) == trim_end_idx(s@, b as int),
        decreases b,
    {
        b = b - 1;
    }
    assert(b == trim_end_idx(s@, n as int));
    if a < b {
        s.substring_char(a, b)
    } else {
        let r = s.substring_char(0, 0);
        proof {
            assert(r@ =~= trim(s@));
        }
        r
    }
}

} // verus!
