//! Collects the complete set of starred repositories for an account from a
//! paginated REST API.
//!
//! The verified core is the pagination-and-rate-limit-aware fetch loop:
//! parsing response metadata (the next-page link and the rate-limit
//! counters), and the driver that accumulates records across pages and
//! applies the rate-limit policy. Network transport and payload decoding
//! are collaborators that hand this library plain values.

pub mod config;
pub mod driver;
pub mod errors;
pub mod fetcher;
pub mod headers;
pub mod link;
pub mod meta;
pub mod numbers;
pub mod ratelimit;
pub mod records;
pub mod text;

pub use config::Config;
