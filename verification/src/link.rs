//! The link-relation side of the Header Parser: selecting the next-page
//! locator out of a response's metadata.
//!
//! A link header value lists entries separated by commas; each entry is
//! a locator in angle brackets followed by parameters separated by
//! semicolons. The first `rel` parameter of an entry names its relation
//! tokens, separated by spaces and optionally quoted. The next-page
//! locator is the locator of the first entry, in presentation order,
//! whose relation tokens contain `next`; entries tagged only with other
//! relations are ignored, whatever their position.

use vstd::prelude::*;

verus! {

use vstd::string::StrSliceExecFns;
use vstd::string::StringExecFns;
use crate::headers::Header;
use crate::headers::has_name;
use crate::text::eq_ignore_case;
use crate::text::find_from;
use crate::text::lemma_find_from_bounds;
use crate::text::split_outside;
use crate::text::split_outside_exec;
use crate::text::str_eq_ignore_case;
use crate::text::trim;
use crate::text::trim_exec;

pub open spec fn link_name() -> Seq<char> {
    "link"@
}

pub open spec fn rel_name() -> Seq<char> {
    "rel"@
}

pub open spec fn next_token() -> Seq<char> {
    "next"@
}

/// The locator of one entry: the text between the leading angle
/// brackets, present only when both brackets are.
pub open spec fn entry_url(e: Seq<char>) -> Option<Seq<char>> {
    let t = trim(e);
    if t.len() > 0 && t[0] == '<' {
        let k = find_from(t, 1, '>');
        if k < t.len() {
            Some(t.subrange(1, k))
        } else {
            None
        }
    } else {
        None
    }
}

/// A parameter's quoting stripped: `"next last"` reads as `next last`.
pub open spec fn unquote(v: Seq<char>) -> Seq<char> {
    if v.len() >= 2 && v[0] == '"' && v[v.len() - 1] == '"' {
        v.subrange(1, v.len() - 1)
    } else {
        v
    }
}

/// The relation tokens of one parameter, when the parameter is a `rel`
/// parameter: its unquoted value split at spaces.
pub open spec fn param_rel_tokens(p: Seq<char>) -> Option<Seq<Seq<char>>> {
    let t = trim(p);
    let k = find_from(t, 0, '=');
    if k >= t.len() {
        None
    } else if eq_ignore_case(trim(t.subrange(0, k)), rel_name()) {
        Some(split_outside(unquote(trim(t.subrange(k + 1, t.len() as int))), ' '))
    } else {
        None
    }
}

/// The tokens of the first `rel` parameter at or after `i`; empty when
/// no parameter names relations.
pub open spec fn rels_of_params(ps: Seq<Seq<char>>, i: int) -> Seq<Seq<char>>
    decreases ps.len() - i,
{
    if i < 0 || i >= ps.len() {
        Seq::empty()
    } else {
        match param_rel_tokens(ps[i]) {
            Some(t) => t,
            None => rels_of_params(ps, i + 1),
        }
    }
}

/// The relation tokens of one entry.
pub open spec fn entry_rels(e: Seq<char>) -> Seq<Seq<char>> {
    let t = trim(e);
    if t.len() > 0 && t[0] == '<' {
        let k = find_from(t, 1, '>');
        if k < t.len() {
            rels_of_params(split_outside(t.subrange(k + 1, t.len() as int), ';'), 0)
        } else {
            Seq::empty()
        }
    } else {
        Seq::empty()
    }
}

pub open spec fn has_next_token(toks: Seq<Seq<char>>) -> bool {
    exists|i: int| 0 <= i < toks.len() && eq_ignore_case(#[trigger] toks[i], next_token())
}

/// Whether this entry carries the next-page locator: it has a locator
/// and its relation tokens contain `next`.
pub open spec fn entry_is_next(e: Seq<char>) -> bool {
    entry_url(e) is Some && has_next_token(entry_rels(e))
}

/// All link entries the metadata presents, in order: each link header's
/// value split at top-level commas, headers in presentation order.
pub open spec fn entries_of(hs: Seq<Header>) -> Seq<Seq<char>>
    decreases hs.len(),
{
    if hs.len() == 0 {
        Seq::empty()
    } else {
        entries_of(hs.drop_last()) + (if has_name(hs.last(), link_name()) {
            split_outside(hs.last().value@, ',')
        } else {
            Seq::empty()
        })
    }
}

/// The locator of the first next-tagged entry at or after `i`.
pub open spec fn first_next(es: Seq<Seq<char>>, i: int) -> Option<Seq<char>>
    decreases es.len() - i,
{
    if i < 0 || i >= es.len() {
        None
    } else if entry_is_next(es[i]) {
        entry_url(es[i])
    } else {
        first_next(es, i + 1)
    }
}

/// The next-page locator a metadata list denotes, if any.
pub open spec fn spec_next_link(hs: Seq<Header>) -> Option<Seq<char>> {
    first_next(entries_of(hs), 0)
}

fn entry_url_exec(e: &str) -> (r: Option<String>)
    ensures
        r is Some <==> entry_url(e@) is Some,
        r matches Some(u) ==> entry_url(e@) == Some(u@),
{
    let t = trim_exec(e);
    let n = t.unicode_len();
    if n > 0 && t.get_char(0) == '<' {
        let k = find_from_wrap(t, 1, '>');
        if k < n {
            Some(String::from_str(t.substring_char(1, k)))
        } else {
            None
        }
    } else {
        None
    }
}

fn find_from_wrap(s: &str, i: usize, c: char) -> (k: usize)
    requires
        i <= s@.len(),
    ensures
        k == find_from(s@, i as int, c),
        i <= k <= s@.len(),
{
    proof {
        lemma_find_from_bounds(s@, i as int, c);
    }
    crate::text::find_from_exec(s, i, c)
}

fn param_rel_tokens_exec(p: &str) -> (r: Option<Vec<String>>)
    ensures
        r is Some <==> param_rel_tokens(p@) is Some,
        r matches Some(ts) ==> {
            &&& param_rel_tokens(p@) matches Some(st)
            &&& ts@.len() == param_rel_tokens(p@)->0.len()
            &&& forall|i: int|
                0 <= i < ts@.len() ==> ts@[i]@ == param_rel_tokens(p@)->0[i]
        },
{
    let t = trim_exec(p);
    let n = t.unicode_len();
    let k = find_from_wrap(t, 0, '=');
    if k >= n {
        return None;
    }
    let name = trim_exec(t.substring_char(0, k));
    if !str_eq_ignore_case(name, "rel") {
        return None;
    }
    let v = trim_exec(t.substring_char(k + 1, n));
    let vn = v.unicode_len();
    let unquoted = if vn >= 2 && v.get_char(0) == '"' && v.get_char(vn - 1) == '"' {
        v.substring_char(1, vn - 1)
    } else {
        v
    };
    assert(unquoted@ == unquote(v@));
    Some(split_outside_exec(unquoted, ' '))
}

fn entry_is_next_exec(e: &str) -> (r: bool)
    ensures
        r == entry_is_next(e@),
{
    let t = trim_exec(e);
    let n = t.unicode_len();
    if n == 0 || t.get_char(0) != '<' {
        return false;
    }
    let k = find_from_wrap(t, 1, '>');
    if k >= n {
        return false;
    }
    let params = split_outside_exec(t.substring_char(k + 1, n), ';');
    let ghost ps = split_outside(t@.subrange(k as int + 1, t@.len() as int), ';');
    let m = params.len();
    let mut i: usize = 0;
    while i < m
        invariant
            0 <= i <= m,
            m == ps.len(),
            m == params@.len(),
            forall|j: int| 0 <= j < m ==> params@[j]@ == ps[j],
            entry_rels(e@) == rels_of_params(ps, i as int),
            entry_url(e@) is Some,
        decreases m - i,
    {
        match param_rel_tokens_exec(params[i].as_str()) {
            Some(toks) => {
                let ghost st = param_rel_tokens(ps[i as int])->0;
                assert(entry_rels(e@) == st);
                let tn = toks.len();
                let mut j: usize = 0;
                while j < tn
                    invariant
                        0 <= j <= tn,
                        tn == st.len(),
                        tn == toks@.len(),
                        st == param_rel_tokens(ps[i as int])->0,
                        entry_rels(e@) == st,
                        entry_url(e@) is Some,
                        forall|q: int| 0 <= q < tn ==> toks@[q]@ == st[q],
                        forall|q: int| 0 <= q < j ==> !eq_ignore_case(#[trigger] st[q], next_token()),
                    decreases tn - j,
                {
                    if str_eq_ignore_case(toks[j].as_str(), "next") {
                        assert(eq_ignore_case(st[j as int], next_token()));
                        assert(has_next_token(st));
                        return true;
                    }
                    j = j + 1;
                }
                assert(!has_next_token(st));
                return false;
            },
            None => {},
        }
        i = i + 1;
    }
    assert(entry_rels(e@) == rels_of_params(ps, m as int));
    assert(!has_next_token(entry_rels(e@)));
    false
}

/// Scans the metadata for the next-page locator: the locator of the
/// first link entry whose relation tokens contain `next`, or `None`
/// when no entry qualifies (traversal complete) or no link metadata is
/// present at all.
pub fn extract_link_next(headers: &Vec<Header>) -> (r: Option<String>)
    ensures
        r is Some <==> spec_next_link(headers@) is Some,
        r matches Some(u) ==> spec_next_link(headers@) == Some(u@),
{
    let ghost hs = headers@;
    let n = headers.len();
    let mut entries: Vec<String> = Vec::new();
    let mut i: usize = 0;
    while i < n
        invariant
            0 <= i <= n,
            n == hs.len(),
            hs == headers@,
            entries@.len() == entries_of(hs.take(i as int)).len(),
            forall|j: int|
                0 <= j < entries@.len() ==> entries@[j]@ == entries_of(hs.take(i as int))[j],
        decreases n - i,
    {
        proof {
            assert(hs.take(i as int + 1).drop_last() =~= hs.take(i as int));
            assert(hs.take(i as int + 1).last() == hs[i as int]);
        }
        if str_eq_ignore_case(headers[i].name.as_str(), "link") {
            let mut parts = split_outside_exec(headers[i].value.as_str(), ',');
            let ghost parts0 = parts@;
            let ghost before = entries@;
            entries.append(&mut parts);
            proof {
                assert(entries_of(hs.take(i as int + 1)) =~= entries_of(hs.take(i as int))
                    + split_outside(hs[i as int].value@, ','));
                assert forall|j: int| 0 <= j < entries@.len() implies entries@[j]@ == entries_of(
                    hs.take(i as int + 1),
                )[j] by {
                    if j >= before.len() {
                        assert(entries@[j] == parts0[j - before.len()]);
                    }
                }
            }
        } else {
            proof {
                assert(entries_of(hs.take(i as int + 1)) =~= entries_of(hs.take(i as int)));
            }
        }
        i = i + 1;
    }
    proof {
        assert(hs.take(n as int) =~= hs);
    }
    let ghost es = entries_of(hs);
    let m = entries.len();
    let mut i: usize = 0;
    while i < m
        invariant
            0 <= i <= m,
            m == es.len(),
            m == entries@.len(),
            forall|j: int| 0 <= j < m ==> entries@[j]@ == es[j],
            spec_next_link(hs) == first_next(es, i as int),
            hs == headers@,
            es == entries_of(hs),
        decreases m - i,
    {
        if entry_is_next_exec(entries[i].as_str()) {
            assert(first_next(es, i as int) == entry_url(es[i as int]));
            let u = entry_url_exec(entries[i].as_str());
            return u;
        }
        i = i + 1;
    }
    None
}

} // verus!
