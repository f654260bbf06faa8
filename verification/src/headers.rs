//! The rate-limit side of the Header Parser: reading the three counter
//! headers out of a response's metadata.
//!
//! Metadata is an ordered list of name/value pairs as the transport layer
//! presented them; names compare case-insensitively. A counter header
//! that is absent defaults its field to zero; one that is present but not
//! a well-formed decimal number is a hard protocol violation.

use vstd::prelude::*;

verus! {

use crate::errors::FetchError;
use crate::numbers::dec_value;
use crate::numbers::parseable_u64;
use crate::numbers::parse_u64;
use crate::ratelimit::RateLimitSnapshot;
use crate::text::eq_ignore_case;
use crate::text::str_eq_ignore_case;

/// One response-metadata entry: a header name and its raw value.
pub struct Header {
    pub name: String,
    pub value: String,
}

pub open spec fn limit_name() -> Seq<char> {
    "x-ratelimit-limit"@
}

pub open spec fn remaining_name() -> Seq<char> {
    "x-ratelimit-remaining"@
}

pub open spec fn reset_name() -> Seq<char> {
    "x-ratelimit-reset"@
}

pub open spec fn has_name(h: Header, target: Seq<char>) -> bool {
    eq_ignore_case(h.name@, target)
}

/// The value of the last metadata entry carrying this name, if any:
/// when a counter header repeats, the later occurrence wins.
pub open spec fn last_value(hs: Seq<Header>, target: Seq<char>) -> Option<Seq<char>>
    decreases hs.len(),
{
    if hs.len() == 0 {
        None
    } else if has_name(hs.last(), target) {
        Some(hs.last().value@)
    } else {
        last_value(hs.drop_last(), target)
    }
}

/// The counter a snapshot records for this name: the last occurrence's
/// decimal value, or zero when the header is absent.
pub open spec fn field_value(hs: Seq<Header>, target: Seq<char>) -> int {
    match last_value(hs, target) {
        Some(v) => dec_value(v),
        None => 0,
    }
}

pub open spec fn is_counter_name(h: Header) -> bool {
    has_name(h, limit_name()) || has_name(h, remaining_name()) || has_name(h, reset_name())
}

/// A counter header whose value is not a well-formed decimal number.
pub open spec fn is_malformed(h: Header) -> bool {
    is_counter_name(h) && !parseable_u64(h.value@)
}

pub open spec fn counters_well_formed(hs: Seq<Header>) -> bool {
    forall|i: int| 0 <= i < hs.len() ==> !is_malformed(hs[i])
}

/// The snapshot a well-formed metadata list denotes.
pub open spec fn spec_rate_limit(hs: Seq<Header>) -> RateLimitSnapshot {
    RateLimitSnapshot {
        limit: field_value(hs, limit_name()) as u64,
        remaining: field_value(hs, remaining_name()) as u64,
        reset_at: field_value(hs, reset_name()) as u64,
    }
}

/// Reads the three rate-limit counters. Succeeds exactly when every
/// counter header present is a well-formed decimal number; the first
/// malformed one is surfaced verbatim as a protocol violation.
pub fn parse_rate_limit(headers: &Vec<Header>) -> (r: Result<RateLimitSnapshot, FetchError>)
    ensures
        r is Ok <==> counters_well_formed(headers@),
        r matches Ok(snap) ==> snap == spec_rate_limit(headers@),
        r matches Err(e) ==> exists|i: int|
            0 <= i < headers@.len() && is_malformed(#[trigger] headers@[i]) && (forall|j: int|
                0 <= j < i ==> !is_malformed(#[trigger] headers@[j])) && e == (
            FetchError::ProtocolViolation { raw: headers@[i].value }),
{
    let ghost hs = headers@;
    let n = headers.len();
    let mut limit: u64 = 0;
    let mut remaining: u64 = 0;
    let mut reset: u64 = 0;
    let mut i: usize = 0;
    while i < n
        invariant
            0 <= i <= n,
            n == hs.len(),
            hs == headers@,
            forall|j: int| 0 <= j < i ==> !is_malformed(#[trigger] hs[j]),
            limit == field_value(hs.take(i as int), limit_name()),
            remaining == field_value(hs.take(i as int), remaining_name()),
            reset == field_value(hs.take(i as int), reset_name()),
        decreases n - i,
    {
        let h = &headers[i];
        let is_l = str_eq_ignore_case(h.name.as_str(), "x-ratelimit-limit");
        let is_r = str_eq_ignore_case(h.name.as_str(), "x-ratelimit-remaining");
        let is_s = str_eq_ignore_case(h.name.as_str(), "x-ratelimit-reset");
        proof {
            assert(hs.take(i as int + 1).drop_last() =~= hs.take(i as int));
            assert(hs.take(i as int + 1).last() == hs[i as int]);
        }
        if is_l || is_r || is_s {
            match parse_u64(h.value.as_str()) {
                None => {
                    assert(is_malformed(hs[i as int]));
                    return Err(FetchError::ProtocolViolation { raw: h.value.clone() });
                },
                Some(v) => {
                    if is_l {
                        limit = v;
                    }
                    if is_r {
                        remaining = v;
                    }
                    if is_s {
                        reset = v;
                    }
                },
            }
        }
        i = i + 1;
    }
    proof {
        assert(hs.take(n as int) =~= hs);
    }
    Ok(RateLimitSnapshot { limit, remaining, reset_at: reset })
}

} // verus!
