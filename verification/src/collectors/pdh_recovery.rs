//! Retry state and status classification for Windows PDH resources.

use crate::schedule::{double_backoff, doubled, SECOND};
use crate::text;
use vstd::prelude::*;

verus! {

/// The status of a query whose handle has become invalid.
pub const PDH_INVALID_HANDLE_STATUS: u32 = 0xc000_0bbc;

/// The delay before the first retry, in nanoseconds.
pub const PDH_RETRY_INITIAL: u64 = 30_000_000_000;

/// The longest delay before a retry, in nanoseconds.
pub const PDH_RETRY_MAX: u64 = 900_000_000_000;

/// Whether a status means that the query has to be built anew.
pub fn should_rebuild_pdh_query(status: u32) -> (r: bool)
    ensures
        r == (status == PDH_INVALID_HANDLE_STATUS),
{
    status == PDH_INVALID_HANDLE_STATUS
}

/// A resource that is opened when it is first needed, and again when it was lost, but after a
/// failure not before a delay that doubles.
pub struct RetryingPdhResource<T> {
    pub value: Option<T>,
    pub last_error: Option<String>,
    pub next_retry_at: Option<u128>,
    pub retry_delay: u64,
    pub succeeded: bool,
}

impl<T> RetryingPdhResource<T> {
    /// The delay is one of those that doubling leads to.
    pub open spec fn valid(self) -> bool {
        PDH_RETRY_INITIAL <= self.retry_delay <= PDH_RETRY_MAX
    }

    /// The resource waits for its next retry.
    pub open spec fn waiting(self, now: u64) -> bool {
        self.value is None && (self.next_retry_at matches Some(at) && now < at)
    }

    /// The resource after a failure.
    pub open spec fn failing(self, now: u64, after: Self) -> bool {
        &&& after.value is None
        &&& after.last_error is Some
        &&& after.next_retry_at == Some((now + self.retry_delay) as u128)
        &&& after.retry_delay == doubled(self.retry_delay as int, PDH_RETRY_MAX as int)
        &&& after.succeeded == self.succeeded
    }

    /// What is said while the resource waits.
    pub open spec fn excuse(self) -> Seq<char> {
        match self.last_error {
            Some(error) => error@,
            None => "PDH initialization is waiting for retry"@,
        }
    }

    /// A resource that was never tried.
    pub fn new() -> (r: Self)
        ensures
            r.value is None,
            r.last_error is None,
            r.next_retry_at is None,
            r.retry_delay == PDH_RETRY_INITIAL,
            !r.succeeded,
            r.valid(),
    {
        RetryingPdhResource {
            value: None,
            last_error: None,
            next_retry_at: None,
            retry_delay: PDH_RETRY_INITIAL,
            succeeded: false,
        }
    }

    fn record_failure(&mut self, now: u64, error: String)
        requires
            old(self).valid(),
            old(self).value is None,
        ensures
            old(self).failing(now, *final(self)),
            final(self).last_error == Some(error),
            final(self).valid(),
    {
        self.last_error = Some(error);
        self.next_retry_at = Some((now as u128) + (self.retry_delay as u128));
        self.retry_delay = double_backoff(self.retry_delay, PDH_RETRY_MAX);
    }

    /// The resource, opened by `init` where it is not there and no retry has to be waited for.
    pub fn get_or_try_init<F: FnOnce() -> Result<T, String>>(&mut self, now: u64, init: F) -> (r: Result<
        &T,
        String,
    >)
        requires
            old(self).valid(),
            call_requires(init, ()),
        ensures
            final(self).valid(),
            old(self).value matches Some(value) ==> *final(self) == *old(self) && r == Ok::<
                &T,
                String,
            >(&value),
            old(self).waiting(now) ==> *final(self) == *old(self) && (r matches Err(error)
                && error@ == old(self).excuse()),
            old(self).value is None && !old(self).waiting(now) ==> match r {
                Ok(value) => call_ensures(init, (), Ok::<T, String>(*value)) && *final(self) == (
                RetryingPdhResource {
                    value: Some(*value),
                    last_error: None,
                    next_retry_at: None,
                    retry_delay: PDH_RETRY_INITIAL,
                    succeeded: true,
                }),
                Err(error) => old(self).failing(now, *final(self)) && (
                final(self).last_error matches Some(said) && call_ensures(
                    init,
                    (),
                    Err::<T, String>(said),
                ) && error@ == said@),
            },
    {
        if self.value.is_none() {
            let wait = match self.next_retry_at {
                Some(at) => (now as u128) < at,
                None => false,
            };
            if wait {
                return Err(
                    match &self.last_error {
                        Some(error) => error.clone(),
                        None => text::owned("PDH initialization is waiting for retry"),
                    },
                );
            }
            match init() {
                Ok(value) => {
                    self.value = Some(value);
                    self.last_error = None;
                    self.next_retry_at = None;
                    self.retry_delay = PDH_RETRY_INITIAL;
                    self.succeeded = true;
                },
                Err(error) => {
                    let said = error.clone();
                    self.record_failure(now, error);
                    assert(call_ensures(init, (), Err::<T, String>(error)));
                    return Err(said);
                },
            }
        }
        match &self.value {
            Some(value) => Ok(value),
            None => Err(text::owned("PDH initialization completed without a resource")),
        }
    }

    /// Give up the resource, which is lost: it is dropped at once and opened again after the delay.
    pub fn invalidate(&mut self, now: u64, error: String)
        requires
            old(self).valid(),
        ensures
            old(self).failing(now, *final(self)),
            final(self).last_error == Some(error),
            final(self).valid(),
    {
        self.value = None;
        self.record_failure(now, error);
    }

    /// Whether the resource could ever be opened.
    pub fn ever_succeeded(&self) -> (r: bool)
        ensures
            r == self.succeeded,
    {
        self.succeeded
    }
}

/// The delay between two retries never leaves its band, however often they fail.
pub proof fn retry_delays_are_bounded(delay: int)
    requires
        PDH_RETRY_INITIAL <= delay <= PDH_RETRY_MAX,
    ensures
        PDH_RETRY_INITIAL <= doubled(delay, PDH_RETRY_MAX as int) <= PDH_RETRY_MAX,
        PDH_RETRY_INITIAL == 30 * SECOND,
        PDH_RETRY_MAX == 15 * 60 * SECOND,
{
}

/// After a failure the counters are tried again after the delay, which then doubles up to fifteen
/// minutes; what had succeeded before is remembered.
pub proof fn when_the_counters_are_tried_again<T>(
    before: RetryingPdhResource<T>,
    now: u64,
    after: RetryingPdhResource<T>,
    later: u64,
)
    requires
        before.valid(),
        before.failing(now, after),
    ensures
        after.waiting(later) <==> later < now + before.retry_delay,
        after.retry_delay == if 2 * before.retry_delay < 900_000_000_000 {
            2 * before.retry_delay
        } else {
            900_000_000_000int
        },
        after.succeeded == before.succeeded,
        after.value is None,
{
}

} // verus!
