//! Upload bookkeeping for Microsoft Sentinel: batching, retry decisions on
//! rate limiting, and the upload statistics.

pub mod regex_lite;
pub mod upload;
pub mod http;

use crate::error::Error;
use regex_lite::{captured_number, extract_retry_after};
use vstd::prelude::*;

verus! {

/// Upload error details for one record.
#[derive(Debug, Clone)]
pub struct UploadError {
    pub record_index: usize,
    pub error_messages: Vec<String>,
}

/// Upload response: the records the service rejected.
#[derive(Debug, Clone)]
pub struct UploadResponse {
    pub errors: Vec<UploadError>,
}

/// Statistics of an upload.
#[derive(Debug, Clone, Copy, PartialEq, Eq, Structural)]
pub struct UploadStats {
    pub total_indicators: usize,
    pub successful: usize,
    pub failed: usize,
    pub requests_made: usize,
}

/// What one upload request of a batch came to.
#[derive(Debug, Clone, Copy, PartialEq, Eq, Structural)]
pub enum BatchOutcome {
    /// The batch was accepted; `rejected` of its records were refused.
    Accepted { rejected: usize },
    /// The service asked to retry after the given seconds.
    RateLimited { retry_after: u64 },
    /// The request failed otherwise.
    Failed,
}

/// What to do after one attempt of the one-batch-at-a-time upload.
#[derive(Debug, Clone, Copy, PartialEq, Eq, Structural)]
pub enum SequentialStep {
    /// The batch is finished.
    Done,
    /// Sleep this many seconds, then send the batch again.
    RetryAfter { wait_secs: u64 },
    /// Sleep this many seconds, then give the batch up.
    GiveUpAfter { wait_secs: u64 },
}

/// Most attempts of one batch in the one-batch-at-a-time upload.
pub const SEQUENTIAL_MAX_ATTEMPTS: u32 = 3;

/// Most retries of one batch in the concurrent upload.
pub const CONCURRENT_MAX_RETRIES: u32 = 5;

/// Records per request the upload API accepts at most.
pub const API_BATCH_LIMIT: usize = 100;

/// The outcome of an upload request.
pub open spec fn outcome_spec(r: Result<UploadResponse, Error>) -> BatchOutcome {
    match r {
        Ok(resp) => BatchOutcome::Accepted { rejected: resp.errors@.len() as usize },
        Err(Error::RateLimit(secs)) => BatchOutcome::RateLimited { retry_after: secs },
        Err(_) => BatchOutcome::Failed,
    }
}

/// The counters (successful, failed) after a batch of `len` records ends with `o`.
pub open spec fn settle(succ: int, fail: int, len: int, o: BatchOutcome) -> (int, int) {
    match o {
        BatchOutcome::Accepted { rejected } => (succ + len - rejected, fail + rejected),
        _ => (succ, fail + len),
    }
}

/// The outcome of an upload request.
pub fn batch_outcome(result: &Result<UploadResponse, Error>) -> (r: BatchOutcome)
    ensures
        r == outcome_spec(*result),
{
    match result {
        Ok(resp) => BatchOutcome::Accepted { rejected: resp.errors.len() },
        Err(Error::RateLimit(secs)) => BatchOutcome::RateLimited { retry_after: *secs },
        Err(_) => BatchOutcome::Failed,
    }
}

/// The error for a rate-limited response body: the delay the body names, 60 seconds by default.
pub fn rate_limit_error(body: &str) -> (r: Error)
    ensures
        r == Error::RateLimit(
            match captured_number(body@) {
                Some(n) => n,
                None => 60,
            },
        ),
{
    match extract_retry_after(body) {
        Some(n) => Error::RateLimit(n),
        None => Error::RateLimit(60),
    }
}

/// The batch size used: the requested one, at most the API limit.
pub fn effective_batch_size(batch_size: usize) -> (r: usize)
    ensures
        r == (if batch_size <= 100 { batch_size } else { 100 }),
{
    if batch_size <= API_BATCH_LIMIT {
        batch_size
    } else {
        API_BATCH_LIMIT
    }
}

/// Milliseconds between requests for a rate of `requests_per_minute`.
pub fn request_interval_ms(requests_per_minute: u32) -> (r: u64)
    requires
        requests_per_minute > 0,
    ensures
        r == 60_000int / (requests_per_minute as int),
{
    60_000 / (requests_per_minute as u64)
}

/// Whether a token with `remaining_nanos` of validity left is still used:
/// only when more than five minutes remain.
pub fn token_is_fresh(remaining_nanos: u128) -> (r: bool)
    ensures
        r == (remaining_nanos > 300_000_000_000),
{
    remaining_nanos > 300_000_000_000
}

/// The consecutive `[start, end)` ranges of `total` items in batches of `batch_size`.
pub fn batch_ranges(total: usize, batch_size: usize) -> (r: Vec<(usize, usize)>)
    requires
        batch_size > 0,
    ensures
        total == 0 ==> r@.len() == 0,
        total > 0 ==> r@.len() > 0 && r@[0].0 == 0 && r@.last().1 == total,
        forall|i: int| 0 <= i < r@.len() - 1 ==> #[trigger] r@[i].1 == r@[i + 1].0,
        forall|i: int|
            0 <= i < r@.len() ==> r@[i].0 < #[trigger] r@[i].1 <= r@[i].0 + batch_size,
        forall|i: int| 0 <= i < r@.len() - 1 ==> #[trigger] r@[i].1 == r@[i].0 + batch_size,
        r@.len() == (total + batch_size - 1) / batch_size as int,
{
    let mut r: Vec<(usize, usize)> = Vec::new();
    let mut start: usize = 0;
    while start < total
        invariant
            batch_size > 0,
            start <= total,
            start == 0 <==> r@.len() == 0,
            r@.len() > 0 ==> r@[0].0 == 0 && r@.last().1 == start,
            forall|i: int| 0 <= i < r@.len() - 1 ==> #[trigger] r@[i].1 == r@[i + 1].0,
            forall|i: int|
                0 <= i < r@.len() ==> r@[i].0 < #[trigger] r@[i].1 <= r@[i].0 + batch_size,
            forall|i: int| 0 <= i < r@.len() ==> #[trigger] r@[i].1 == r@[i].0 + batch_size
                || r@[i].1 == total,
            forall|i: int| 0 <= i < r@.len() - 1 ==> #[trigger] r@[i].1 == r@[i].0 + batch_size,
        decreases total - start,
    {
        let end = if total - start > batch_size {
            start + batch_size
        } else {
            total
        };
        let ghost old_r = r@;
        r.push((start, end));
        proof {
            assert forall|i: int| 0 <= i < r@.len() - 1 implies #[trigger] r@[i].1 == r@[i].0
                + batch_size by {
                assert(r@[i] == old_r[i]);
                if i < old_r.len() - 1 {
                } else {
                    assert(old_r[i].1 == start);
                    assert(start < total);
                }
            }
            assert forall|i: int| 0 <= i < r@.len() - 1 implies #[trigger] r@[i].1 == r@[i
                + 1].0 by {
                if i < old_r.len() - 1 {
                    assert(r@[i] == old_r[i] && r@[i + 1] == old_r[i + 1]);
                } else {
                    assert(r@[i] == old_r.last());
                }
            }
        }
        start = end;
    }
    proof {
        lemma_batch_count(r@, total as int, batch_size as int);
    }
    r
}

/// Consecutive batches of `b` records, the last one possibly shorter, that
/// cover `total` records number `total / b` rounded up.
proof fn lemma_batch_count(r: Seq<(usize, usize)>, total: int, b: int)
    requires
        b > 0,
        total >= 0,
        total == 0 ==> r.len() == 0,
        total > 0 ==> r.len() > 0 && r[0].0 == 0 && r.last().1 == total,
        forall|i: int| 0 <= i < r.len() - 1 ==> #[trigger] r[i].1 == r[i + 1].0,
        forall|i: int| 0 <= i < r.len() ==> r[i].0 < #[trigger] r[i].1 <= r[i].0 + b,
        forall|i: int| 0 <= i < r.len() - 1 ==> #[trigger] r[i].1 == r[i].0 + b,
    ensures
        r.len() == (total + b - 1) / b,
{
    if total == 0 {
        vstd::arithmetic::div_mod::lemma_fundamental_div_mod_converse(b - 1, b, 0, b - 1);
    } else {
        let n = r.len() as int;
        lemma_batch_starts(r, b, n - 1);
        assert(r[n - 1].1 == total);
        assert(r[n - 1].0 < r[n - 1].1 <= r[n - 1].0 + b);
        assert(n * b == (n - 1) * b + b) by (nonlinear_arith);
        vstd::arithmetic::div_mod::lemma_fundamental_div_mod_converse(
            total + b - 1,
            b,
            n,
            total + b - 1 - n * b,
        );
    }
}

/// Batch `k` starts at record `k * b`.
proof fn lemma_batch_starts(r: Seq<(usize, usize)>, b: int, k: int)
    requires
        0 <= k < r.len(),
        r[0].0 == 0,
        forall|i: int| 0 <= i < r.len() - 1 ==> #[trigger] r[i].1 == r[i + 1].0,
        forall|i: int| 0 <= i < r.len() - 1 ==> #[trigger] r[i].1 == r[i].0 + b,
    ensures
        r[k].0 == k * b,
    decreases k,
{
    if k > 0 {
        lemma_batch_starts(r, b, k - 1);
        assert(r[k - 1].1 == r[k].0);
        assert(k * b == (k - 1) * b + b) by (nonlinear_arith);
    }
}

impl UploadStats {
    /// Statistics for an upload of `total` indicators before any request.
    pub fn new(total: usize) -> (r: UploadStats)
        ensures
            r == (UploadStats { total_indicators: total, successful: 0, failed: 0, requests_made: 0 }),
    {
        UploadStats { total_indicators: total, successful: 0, failed: 0, requests_made: 0 }
    }

    /// Record one attempt of a batch of `batch_len` records in the
    /// one-batch-at-a-time upload.  `attempts` counts the rate-limited
    /// attempts of this batch so far; after the third the batch is given up.
    pub fn record_sequential_attempt(
        &mut self,
        batch_len: usize,
        attempts: &mut u32,
        outcome: BatchOutcome,
    ) -> (r: SequentialStep)
        requires
            *old(attempts) < SEQUENTIAL_MAX_ATTEMPTS,
            old(self).requests_made < usize::MAX,
            old(self).successful + batch_len <= usize::MAX,
            old(self).failed + batch_len <= usize::MAX,
            outcome matches BatchOutcome::Accepted { rejected } ==> rejected <= batch_len,
            outcome matches BatchOutcome::RateLimited { retry_after } ==> retry_after < u64::MAX,
        ensures
            final(self).total_indicators == old(self).total_indicators,
            final(self).requests_made == old(self).requests_made + 1,
            outcome is RateLimited ==> (r is GiveUpAfter <==> *old(attempts) + 1
                == SEQUENTIAL_MAX_ATTEMPTS),
            match r {
                SequentialStep::RetryAfter { wait_secs } => {
                    &&& outcome matches BatchOutcome::RateLimited { retry_after }
                    &&& wait_secs == retry_after + 1
                    &&& *final(attempts) == *old(attempts) + 1
                    &&& *final(attempts) < SEQUENTIAL_MAX_ATTEMPTS
                    &&& final(self).successful == old(self).successful
                    &&& final(self).failed == old(self).failed
                },
                SequentialStep::GiveUpAfter { wait_secs } => {
                    &&& outcome matches BatchOutcome::RateLimited { retry_after }
                    &&& wait_secs == retry_after + 1
                    &&& *final(attempts) == *old(attempts) + 1
                    &&& *final(attempts) == SEQUENTIAL_MAX_ATTEMPTS
                    &&& final(self).successful == old(self).successful
                    &&& final(self).failed == old(self).failed + batch_len
                },
                SequentialStep::Done => {
                    &&& !(outcome is RateLimited)
                    &&& *final(attempts) == *old(attempts)
                    &&& (final(self).successful as int, final(self).failed as int) == settle(
                        old(self).successful as int,
                        old(self).failed as int,
                        batch_len as int,
                        outcome,
                    )
                },
            },
    {
        self.requests_made = self.requests_made + 1;
        match outcome {
            BatchOutcome::Accepted { rejected } => {
                self.successful = self.successful + (batch_len - rejected);
                self.failed = self.failed + rejected;
                SequentialStep::Done
            },
            BatchOutcome::RateLimited { retry_after } => {
                *attempts = *attempts + 1;
                if *attempts >= SEQUENTIAL_MAX_ATTEMPTS {
                    self.failed = self.failed + batch_len;
                    SequentialStep::GiveUpAfter { wait_secs: retry_after + 1 }
                } else {
                    SequentialStep::RetryAfter { wait_secs: retry_after + 1 }
                }
            },
            BatchOutcome::Failed => {
                self.failed = self.failed + batch_len;
                SequentialStep::Done
            },
        }
    }

    /// Record the final outcome of a batch of `batch_len` records in the
    /// concurrent upload (one request counted per batch).
    pub fn record_concurrent(&mut self, batch_len: usize, outcome: BatchOutcome)
        requires
            old(self).requests_made < usize::MAX,
            old(self).successful + batch_len <= usize::MAX,
            old(self).failed + batch_len <= usize::MAX,
            outcome matches BatchOutcome::Accepted { rejected } ==> rejected <= batch_len,
        ensures
            final(self).total_indicators == old(self).total_indicators,
            final(self).requests_made == old(self).requests_made + 1,
            (final(self).successful as int, final(self).failed as int) == settle(
                old(self).successful as int,
                old(self).failed as int,
                batch_len as int,
                outcome,
            ),
    {
        self.requests_made = self.requests_made + 1;
        match outcome {
            BatchOutcome::Accepted { rejected } => {
                self.successful = self.successful + (batch_len - rejected);
                self.failed = self.failed + rejected;
            },
            _ => {
                self.failed = self.failed + batch_len;
            },
        }
    }
}

/// In the concurrent upload, the seconds to wait before sending a batch again
/// after `retries` retries: only on rate limiting, and only while fewer than
/// five retries were made.
pub open spec fn concurrent_retry_spec(retries: int, outcome: BatchOutcome) -> Option<u64> {
    match outcome {
        BatchOutcome::RateLimited { retry_after } => if retries < CONCURRENT_MAX_RETRIES {
            Some((retry_after + 1) as u64)
        } else {
            None
        },
        _ => None,
    }
}

/// In the concurrent upload, the seconds to wait before sending a batch again:
/// only on rate limiting, and only while fewer than five retries were made.
pub fn concurrent_retry_wait(retries: u32, outcome: BatchOutcome) -> (r: Option<u64>)
    requires
        outcome matches BatchOutcome::RateLimited { retry_after } ==> retry_after < u64::MAX,
    ensures
        r == concurrent_retry_spec(retries as int, outcome),
{
    match outcome {
        BatchOutcome::RateLimited { retry_after } => {
            if retries < CONCURRENT_MAX_RETRIES {
                Some(retry_after + 1)
            } else {
                None
            }
        },
        _ => None,
    }
}

/// A batch of the concurrent upload is sent at most six times: after its
/// `j`-th answer it is sent again only while `concurrent_retry_wait(j, ..)`
/// gives a delay, which it does for at most five retries.
pub proof fn lemma_concurrent_attempts_bounded(answers: Seq<BatchOutcome>)
    requires
        forall|j: int| 0 <= j < answers.len() - 1 ==> #[trigger] concurrent_retry_spec(j, answers[j]) is Some,
    ensures
        answers.len() <= CONCURRENT_MAX_RETRIES + 1,
{
    if answers.len() > CONCURRENT_MAX_RETRIES + 1 {
        assert(concurrent_retry_spec(CONCURRENT_MAX_RETRIES as int, answers[CONCURRENT_MAX_RETRIES as int]) is Some);
    }
}

} // verus!
