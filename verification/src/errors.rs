//! The error taxonomy of a traversal. Every variant is fatal: the run
//! aborts and the records accumulated so far are discarded.

use vstd::prelude::*;

verus! {

/// Why a traversal aborted.
#[derive(Debug)]
pub enum FetchError {
    /// Server metadata was present but not in the expected shape, such as
    /// a non-numeric rate-limit counter. `raw` is the offending value.
    ProtocolViolation { raw: String },
    /// Connection-level failure (DNS, connection, TLS).
    Transport { detail: String },
    /// The response body did not match the expected record schema.
    Decode { detail: String },
    /// The server signalled that no request budget remains.
    QuotaExhausted { limit: u64, remaining: u64, reset_minutes: u64 },
}

} // verus!
