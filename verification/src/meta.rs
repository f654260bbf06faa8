//! The Header Parser: one pass over a response's metadata yields the
//! next-page locator and the rate-limit snapshot. It is a pure function
//! of the metadata: what it returns is fixed by the metadata view alone.

use vstd::prelude::*;

verus! {

use crate::errors::FetchError;
use crate::headers::Header;
use crate::headers::counters_well_formed;
use crate::headers::is_malformed;
use crate::headers::parse_rate_limit;
use crate::headers::spec_rate_limit;
use crate::link::extract_link_next;
use crate::link::spec_next_link;
use crate::ratelimit::RateLimitSnapshot;

/// What the Header Parser extracts from one response's metadata.
pub struct PageMeta {
    pub next_page: Option<String>,
    pub rate_limit: RateLimitSnapshot,
}

/// Extracts the next-page locator and the rate-limit snapshot.
/// Succeeds exactly when every rate-limit counter present is a
/// well-formed decimal number.
pub fn parse_metadata(headers: &Vec<Header>) -> (r: Result<PageMeta, FetchError>)
    ensures
        r is Ok <==> counters_well_formed(headers@),
        r matches Ok(m) ==> {
            &&& m.rate_limit == spec_rate_limit(headers@)
            &&& (m.next_page is Some <==> spec_next_link(headers@) is Some)
            &&& (m.next_page matches Some(u) ==> spec_next_link(headers@) == Some(u@))
        },
        r matches Err(e) ==> exists|i: int|
            0 <= i < headers@.len() && is_malformed(#[trigger] headers@[i]) && (forall|j: int|
                0 <= j < i ==> !is_malformed(#[trigger] headers@[j])) && e == (
            FetchError::ProtocolViolation { raw: headers@[i].value }),
{
    match parse_rate_limit(headers) {
        Err(e) => Err(e),
        Ok(rate_limit) => {
            let next_page = extract_link_next(headers);
            Ok(PageMeta { next_page, rate_limit })
        },
    }
}

/// Idempotent parsing: the Header Parser is a pure function of its
/// input, so two applications to the same metadata snapshot denote the
/// same next-page locator and the same rate-limit snapshot.
pub proof fn lemma_parse_idempotent(hs1: Seq<Header>, hs2: Seq<Header>)
    requires
        hs1 == hs2,
    ensures
        spec_rate_limit(hs1) == spec_rate_limit(hs2),
        spec_next_link(hs1) == spec_next_link(hs2),
        counters_well_formed(hs1) == counters_well_formed(hs2),
{
}

} // verus!
