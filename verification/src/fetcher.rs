//! The pure core of the Page Fetcher. The transport layer issues the
//! single GET and hands back plain values — the status code, the
//! response metadata, and the decoded record batch — and this module
//! turns them into the page the driver consumes. Transport failures and
//! undecodable payloads never reach it: the transport layer maps those
//! to `Transport` and `Decode` errors itself.

use vstd::prelude::*;

verus! {

use crate::driver::PageResponse;
use crate::driver::PageStatus;
use crate::errors::FetchError;
use crate::headers::Header;
use crate::headers::counters_well_formed;
use crate::headers::is_malformed;
use crate::headers::spec_rate_limit;
use crate::link::spec_next_link;
use crate::meta::parse_metadata;
use crate::records::StarRecord;

/// The status code with which the server refuses a request whose
/// quota is spent.
pub open spec fn throttled_status() -> u16 {
    403
}

/// How the driver reads a status code: the forbidden status signals
/// throttling; every other code leaves the page on the success path.
pub fn classify_status(code: u16) -> (s: PageStatus)
    ensures
        s is Throttled <==> code == throttled_status(),
{
    if code == 403 {
        PageStatus::Throttled
    } else {
        PageStatus::Success
    }
}

/// Builds the driver's page out of one response: status classified,
/// metadata parsed, the batch carried through unchanged. Fails exactly
/// when a rate-limit counter present in the metadata is malformed.
pub fn assemble_page(code: u16, headers: &Vec<Header>, records: Vec<StarRecord>) -> (r: Result<
    PageResponse,
    FetchError,
>)
    ensures
        r is Ok <==> counters_well_formed(headers@),
        r matches Ok(p) ==> {
            &&& (p.status is Throttled <==> code == throttled_status())
            &&& p.records == records
            &&& p.rate_limit == spec_rate_limit(headers@)
            &&& (p.next_page is Some <==> spec_next_link(headers@) is Some)
            &&& (p.next_page matches Some(u) ==> spec_next_link(headers@) == Some(u@))
        },
        r matches Err(e) ==> exists|i: int|
            0 <= i < headers@.len() && is_malformed(#[trigger] headers@[i]) && (forall|j: int|
                0 <= j < i ==> !is_malformed(#[trigger] headers@[j])) && e == (
            FetchError::ProtocolViolation { raw: headers@[i].value }),
{
    match parse_metadata(headers) {
        Err(e) => Err(e),
        Ok(m) => Ok(
            PageResponse {
                status: classify_status(code),
                records,
                next_page: m.next_page,
                rate_limit: m.rate_limit,
            },
        ),
    }
}

} // verus!
