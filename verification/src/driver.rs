//! The Pagination Driver: a two-state machine. `Fetching` holds a
//! pending locator; `Done` holds none. Each applied page appends its
//! records to the aggregated collection and replaces the pending
//! locator with the page's next-page locator; a throttled page aborts
//! the run, discarding the collection. The driver never accepts a page
//! once it is done: applying one requires a pending locator.

use vstd::prelude::*;

verus! {

use crate::config::Config;
use crate::config::url_prefix;
use crate::config::url_suffix;
use crate::errors::FetchError;
use crate::ratelimit::QuotaWarning;
use crate::ratelimit::RatePolicy;
use crate::ratelimit::RateLimitSnapshot;
use crate::ratelimit::reset_minutes;
use crate::ratelimit::should_warn;
use crate::ratelimit::spec_reset_minutes;
use crate::ratelimit::spec_should_warn;
use crate::records::StarRecord;

/// How the transport layer classified a response's status: usable, or
/// a throttling signal (the quota is spent and the request was refused).
pub enum PageStatus {
    Success,
    Throttled,
}

/// One fetched page, as the Page Fetcher hands it to the driver:
/// the decoded record batch, the next-page locator the metadata named,
/// and the rate-limit snapshot.
pub struct PageResponse {
    pub status: PageStatus,
    pub records: Vec<StarRecord>,
    pub next_page: Option<String>,
    pub rate_limit: RateLimitSnapshot,
}

/// The driver state a contract speaks of.
#[verifier::ext_equal]
pub struct DriverModel {
    pub pending: Option<String>,
    pub records: Seq<StarRecord>,
    pub advisory_pending: bool,
}

/// The part of a page a driver transition depends on.
#[verifier::ext_equal]
pub struct PageModel {
    pub records: Seq<StarRecord>,
    pub next: Option<String>,
}

/// One successful transition: append the batch, adopt the next locator.
pub open spec fn apply_model(m: DriverModel, p: PageModel) -> DriverModel {
    DriverModel { pending: p.next, records: m.records + p.records, advisory_pending: m.advisory_pending }
}

/// A whole traversal over successful pages, first page first.
pub open spec fn run_model(m: DriverModel, ps: Seq<PageModel>) -> DriverModel
    decreases ps.len(),
{
    if ps.len() == 0 {
        m
    } else {
        run_model(apply_model(m, ps.first()), ps.drop_first())
    }
}

pub open spec fn page_batches(ps: Seq<PageModel>) -> Seq<Seq<StarRecord>> {
    ps.map_values(|p: PageModel| p.records)
}

/// The sum of the per-page batch sizes.
pub open spec fn total_records(ps: Seq<PageModel>) -> int
    decreases ps.len(),
{
    if ps.len() == 0 {
        0
    } else {
        ps.first().records.len() + total_records(ps.drop_first())
    }
}

/// The Pagination Driver. It owns the aggregated collection for the
/// duration of one run.
pub struct Driver {
    pub pending: Option<String>,
    pub records: Vec<StarRecord>,
    pub policy: RatePolicy,
    pub advisory_pending: bool,
}

impl Driver {
    pub open spec fn model(self) -> DriverModel {
        DriverModel {
            pending: self.pending,
            records: self.records@,
            advisory_pending: self.advisory_pending,
        }
    }

    /// A fresh run: `Fetching` with the caller-supplied starting
    /// locator, an empty collection, and the advisory armed exactly
    /// when the run is anonymous.
    pub fn new(start: Option<String>, policy: RatePolicy, anonymous: bool) -> (d: Driver)
        ensures
            d.pending == start,
            d.records@ == Seq::<StarRecord>::empty(),
            d.policy == policy,
            d.advisory_pending == anonymous,
    {
        Driver { pending: start, records: Vec::new(), policy, advisory_pending: anonymous }
    }

    /// A fresh run for an account: the starting locator is built from
    /// the account name, and the advisory is armed when no token was
    /// supplied.
    pub fn start(config: Config, policy: RatePolicy) -> (d: Driver)
        ensures
            d.pending is Some,
            d.pending->0@ == url_prefix() + config.username@ + url_suffix(),
            d.records@ == Seq::<StarRecord>::empty(),
            d.policy == policy,
            d.advisory_pending == (config.token is None),
    {
        let anonymous = config.token.is_none();
        let start = config.url();
        Driver::new(start, policy, anonymous)
    }

    /// `Done` exactly when no locator is pending.
    pub fn is_done(&self) -> (b: bool)
        ensures
            b == (self.pending is None),
    {
        self.pending.is_none()
    }

    /// The locator the next fetch must use, if the driver is fetching.
    pub fn current_locator(&self) -> (r: Option<String>)
        ensures
            r == self.pending,
    {
        match &self.pending {
            Some(u) => Some(u.clone()),
            None => None,
        }
    }

    /// Hands out the one-time advisory flag: true exactly when the run
    /// is anonymous and the advisory has not been taken yet. Taking it
    /// disarms it; applying pages never re-arms it.
    pub fn take_advisory(&mut self) -> (r: bool)
        ensures
            r == old(self).advisory_pending,
            !final(self).advisory_pending,
            final(self).pending == old(self).pending,
            final(self).records == old(self).records,
            final(self).policy == old(self).policy,
    {
        let r = self.advisory_pending;
        self.advisory_pending = false;
        r
    }

    /// Applies one fetched page.
    ///
    /// A throttled page aborts the run: the collection is discarded,
    /// the driver is done, and the error carries the snapshot counters
    /// and the minutes until the quota resets. A successful page
    /// appends its batch in order, adopts its next-page locator, and
    /// asks for a low-quota warning exactly when the policy does.
    pub fn apply_page(&mut self, page: PageResponse, now: u64) -> (r: Result<
        Option<QuotaWarning>,
        FetchError,
    >)
        requires
            old(self).pending is Some,
        ensures
            final(self).policy == old(self).policy,
            final(self).advisory_pending == old(self).advisory_pending,
            page.status is Throttled ==> {
                &&& r matches Err(e) && e == (FetchError::QuotaExhausted {
                    limit: page.rate_limit.limit,
                    remaining: page.rate_limit.remaining,
                    reset_minutes: spec_reset_minutes(page.rate_limit.reset_at, now) as u64,
                })
                &&& final(self).records@ == Seq::<StarRecord>::empty()
                &&& final(self).pending is None
            },
            page.status is Success ==> {
                &&& final(self).model() == apply_model(
                    old(self).model(),
                    PageModel { records: page.records@, next: page.next_page },
                )
                &&& r matches Ok(w)
                &&& (w is Some <==> spec_should_warn(old(self).policy, page.rate_limit.remaining))
                &&& (w matches Some(q) ==> q == (QuotaWarning {
                    remaining: page.rate_limit.remaining,
                    limit: page.rate_limit.limit,
                    reset_minutes: spec_reset_minutes(page.rate_limit.reset_at, now) as u64,
                }))
            },
    {
        match page.status {
            PageStatus::Throttled => {
                let mins = reset_minutes(page.rate_limit.reset_at, now);
                self.records = Vec::new();
                self.pending = None;
                Err(FetchError::QuotaExhausted {
                    limit: page.rate_limit.limit,
                    remaining: page.rate_limit.remaining,
                    reset_minutes: mins,
                })
            },
            PageStatus::Success => {
                let mut batch = page.records;
                self.records.append(&mut batch);
                self.pending = page.next_page;
                if should_warn(&self.policy, page.rate_limit.remaining) {
                    let mins = reset_minutes(page.rate_limit.reset_at, now);
                    Ok(Some(QuotaWarning {
                        remaining: page.rate_limit.remaining,
                        limit: page.rate_limit.limit,
                        reset_minutes: mins,
                    }))
                } else {
                    Ok(None)
                }
            },
        }
    }
}

/// The collection a traversal accumulates: the starting collection
/// followed by every batch, in page order.
pub proof fn lemma_run_model_records(m: DriverModel, ps: Seq<PageModel>)
    ensures
        run_model(m, ps).records == m.records + page_batches(ps).flatten(),
        run_model(m, ps).records.len() == m.records.len() + total_records(ps),
    decreases ps.len(),
{
    if ps.len() == 0 {
        assert(page_batches(ps).len() == 0);
        assert(page_batches(ps).flatten() == Seq::<StarRecord>::empty());
        assert(run_model(m, ps).records =~= m.records + page_batches(ps).flatten());
    } else {
        let m1 = apply_model(m, ps.first());
        lemma_run_model_records(m1, ps.drop_first());
        assert(page_batches(ps).drop_first() =~= page_batches(ps.drop_first()));
        assert(page_batches(ps).flatten() == page_batches(ps).first() + page_batches(
            ps,
        ).drop_first().flatten());
        assert(run_model(m, ps).records =~= m.records + page_batches(ps).flatten());
    }
}

/// Pagination completeness: starting from an empty collection, a
/// traversal over any sequence of successful pages accumulates exactly
/// the concatenation of the page batches — page order, then
/// within-page order — and its length is the sum of the batch sizes.
pub proof fn lemma_pagination_completeness(m: DriverModel, ps: Seq<PageModel>)
    requires
        m.records.len() == 0,
    ensures
        run_model(m, ps).records == page_batches(ps).flatten(),
        run_model(m, ps).records.len() == total_records(ps),
{
    lemma_run_model_records(m, ps);
    assert(run_model(m, ps).records =~= page_batches(ps).flatten());
}

/// Termination: a page whose metadata names no next-page locator
/// leaves the driver with no pending locator, whatever the rate-limit
/// budget still holds — and a driver with no pending locator accepts
/// no further page.
pub proof fn lemma_termination(m: DriverModel, p: PageModel)
    requires
        p.next is None,
    ensures
        apply_model(m, p).pending is None,
{
}

/// After a traversal the pending locator is whatever the last page
/// named: a run whose last page names no next-page locator ends done,
/// whatever the rate-limit budget still holds, and the driver accepts
/// no further page.
pub proof fn lemma_run_stops_at_last_page(m: DriverModel, ps: Seq<PageModel>)
    requires
        ps.len() > 0,
    ensures
        run_model(m, ps).pending == ps.last().next,
    decreases ps.len(),
{
    if ps.len() == 1 {
        assert(run_model(m, ps) == apply_model(m, ps.first()));
    } else {
        lemma_run_stops_at_last_page(apply_model(m, ps.first()), ps.drop_first());
        assert(ps.drop_first().last() == ps.last());
    }
}

/// The anonymous advisory is never re-armed by traversal: applying any
/// sequence of pages leaves the advisory flag as it was, so once taken
/// — before the first fetch — it can never be produced again.
pub proof fn lemma_advisory_stable(m: DriverModel, ps: Seq<PageModel>)
    ensures
        run_model(m, ps).advisory_pending == m.advisory_pending,
    decreases ps.len(),
{
    if ps.len() > 0 {
        lemma_advisory_stable(apply_model(m, ps.first()), ps.drop_first());
    }
}

} // verus!
