//! The course of an upload: batches sent one after the other with retries on
//! rate limiting, or all at once; and the counts they add up to.

use crate::sentinel::{
    batch_ranges, effective_batch_size, settle, BatchOutcome, SequentialStep, UploadStats,
    SEQUENTIAL_MAX_ATTEMPTS,
};
use vstd::prelude::*;

verus! {

/// `ranges` split `0..total` into consecutive, non-empty batches.
pub open spec fn ranges_cover(ranges: Seq<(usize, usize)>, total: nat) -> bool {
    &&& total == 0 ==> ranges.len() == 0
    &&& total > 0 ==> ranges.len() > 0 && ranges[0].0 == 0 && ranges.last().1 == total
    &&& forall|i: int| 0 <= i < ranges.len() - 1 ==> #[trigger] ranges[i].1 == ranges[i + 1].0
    &&& forall|i: int| 0 <= i < ranges.len() ==> ranges[i].0 < #[trigger] ranges[i].1
}

/// The records in the first `k` batches.
pub open spec fn records_before(ranges: Seq<(usize, usize)>, k: int) -> int {
    if k <= 0 {
        0
    } else {
        ranges[k - 1].1 as int
    }
}

/// An upload sending one batch at a time, each up to three times while the
/// service answers that it is rate limited.
#[derive(Debug, Clone)]
pub struct SequentialUpload {
    pub stats: UploadStats,
    /// The batches, as ranges of the records.
    pub ranges: Vec<(usize, usize)>,
    /// The batch being sent.
    pub next: usize,
    /// Rate-limited attempts of that batch so far.
    pub attempts: u32,
}

impl SequentialUpload {
    /// The bookkeeping is consistent: the counts add up to the records of the
    /// batches finished, and at most three requests were made per batch.
    pub open spec fn wf(self) -> bool {
        &&& ranges_cover(self.ranges@, self.stats.total_indicators as nat)
        &&& 3 * self.stats.total_indicators + 3 <= usize::MAX
        &&& self.next <= self.ranges@.len()
        &&& self.attempts < SEQUENTIAL_MAX_ATTEMPTS
        &&& self.next == self.ranges@.len() ==> self.attempts == 0
        &&& self.stats.successful + self.stats.failed == records_before(self.ranges@, self.next as int)
        &&& self.stats.requests_made <= 3 * self.next + self.attempts
        &&& self.next <= self.stats.requests_made
    }

    /// The upload is over: every batch was finished.
    pub open spec fn is_finished(self) -> bool {
        self.next == self.ranges@.len()
    }

    /// An upload of `total` records in batches of `batch_size` (at most 100).
    pub fn new(total: usize, batch_size: usize) -> (r: SequentialUpload)
        requires
            total == 0 || batch_size > 0,
            3 * total + 3 <= usize::MAX,
        ensures
            r.wf(),
            r.stats == UploadStats::new_spec(total),
            r.next == 0,
            r.attempts == 0,
            forall|i: int|
                0 <= i < r.ranges@.len() ==> #[trigger] r.ranges@[i].1 - r.ranges@[i].0
                    <= effective_batch_size_spec(batch_size),
            forall|i: int|
                0 <= i < r.ranges@.len() - 1 ==> #[trigger] r.ranges@[i].1 - r.ranges@[i].0
                    == effective_batch_size_spec(batch_size),
            total > 0 ==> r.ranges@.len() == (total + effective_batch_size_spec(batch_size) - 1)
                / effective_batch_size_spec(batch_size) as int,
    {
        let ranges = if total == 0 {
            Vec::new()
        } else {
            batch_ranges(total, effective_batch_size(batch_size))
        };
        SequentialUpload { stats: UploadStats::new(total), ranges, next: 0, attempts: 0 }
    }

    /// The records of the batch to send now, or `None` when the upload is over.
    pub fn current(&self) -> (r: Option<(usize, usize)>)
        requires
            self.wf(),
        ensures
            self.is_finished() <==> r is None,
            r matches Some(b) ==> b == self.ranges@[self.next as int],
    {
        if self.next < self.ranges.len() {
            Some(self.ranges[self.next])
        } else {
            None
        }
    }

    /// The number of records in the batch being sent.
    pub open spec fn current_len(self) -> int {
        self.ranges@[self.next as int].1 - self.ranges@[self.next as int].0
    }

    /// `outcome` can answer the batch being sent: the upload is not over, a
    /// reply refuses at most the batch's records, and a delay leaves room for
    /// one more second.
    pub open spec fn answer_fits(self, outcome: BatchOutcome) -> bool {
        &&& !self.is_finished()
        &&& outcome matches BatchOutcome::Accepted { rejected } ==> rejected <= self.current_len()
        &&& outcome matches BatchOutcome::RateLimited { retry_after } ==> retry_after < u64::MAX
    }

    /// `after` is this upload with `outcome` recorded for the batch being
    /// sent, and `step` is what to do next: a rate-limited batch is sent again
    /// until its third attempt, then given up; any other answer finishes it.
    pub open spec fn recorded(self, outcome: BatchOutcome, step: SequentialStep, after: SequentialUpload) -> bool {
        &&& after.ranges@ == self.ranges@
        &&& after.stats.total_indicators == self.stats.total_indicators
        &&& after.stats.requests_made == self.stats.requests_made + 1
        &&& step is RetryAfter ==> after.next == self.next
        &&& !(step is RetryAfter) ==> after.next == self.next + 1
        &&& step is RetryAfter ==> after.attempts == self.attempts + 1
        &&& !(step is RetryAfter) ==> after.attempts == 0
        &&& outcome is RateLimited ==> (step is GiveUpAfter <==> self.attempts + 1
            == SEQUENTIAL_MAX_ATTEMPTS)
        &&& outcome is RateLimited ==> (step is RetryAfter <==> self.attempts + 1
            < SEQUENTIAL_MAX_ATTEMPTS)
        &&& !(outcome is RateLimited) ==> step is Done
        &&& match step {
            SequentialStep::RetryAfter { wait_secs } => {
                &&& outcome matches BatchOutcome::RateLimited { retry_after }
                &&& wait_secs == retry_after + 1
                &&& after.stats.successful == self.stats.successful
                &&& after.stats.failed == self.stats.failed
            },
            SequentialStep::GiveUpAfter { wait_secs } => {
                &&& outcome matches BatchOutcome::RateLimited { retry_after }
                &&& wait_secs == retry_after + 1
                &&& after.stats.successful == self.stats.successful
                &&& after.stats.failed == self.stats.failed + self.current_len()
            },
            SequentialStep::Done => {
                (after.stats.successful as int, after.stats.failed as int) == settle(
                    self.stats.successful as int,
                    self.stats.failed as int,
                    self.current_len(),
                    outcome,
                )
            },
        }
    }

    /// Record the answer to the current batch and say what to do next.
    pub fn record(&mut self, outcome: BatchOutcome) -> (r: SequentialStep)
        requires
            old(self).wf(),
            old(self).answer_fits(outcome),
        ensures
            final(self).wf(),
            old(self).recorded(outcome, r, *final(self)),
    {
        let (start, end) = self.ranges[self.next];
        let len = end - start;
        proof {
            let k = self.next as int;
            if k > 0 {
                assert(self.ranges@[k - 1].1 == self.ranges@[k].0);
            } else {
                assert(self.ranges@[0].0 == 0);
            }
            lemma_range_within(self.ranges@, self.stats.total_indicators as nat, k);
            lemma_ranges_count(self.ranges@, self.stats.total_indicators as nat);
        }
        let mut attempts = self.attempts;
        let step = self.stats.record_sequential_attempt(len, &mut attempts, outcome);
        match step {
            SequentialStep::RetryAfter { .. } => {
                self.attempts = attempts;
            },
            _ => {
                self.attempts = 0;
                self.next = self.next + 1;
            },
        }
        step
    }

    /// The statistics of a finished upload: every record counted once, as
    /// successful or failed, and between one and three requests per batch.
    pub fn finish(self) -> (r: UploadStats)
        requires
            self.wf(),
            self.is_finished(),
        ensures
            r == self.stats,
            r.successful + r.failed == r.total_indicators,
            self.ranges@.len() <= r.requests_made <= 3 * self.ranges@.len(),
    {
        self.stats
    }
}

/// A batch ends within the records.
proof fn lemma_range_within(ranges: Seq<(usize, usize)>, total: nat, k: int)
    requires
        ranges_cover(ranges, total),
        0 <= k < ranges.len(),
    ensures
        ranges[k].1 <= total,
        records_before(ranges, k) == ranges[k].0,
    decreases ranges.len() - k,
{
    if k < ranges.len() - 1 {
        lemma_range_within(ranges, total, k + 1);
        assert(ranges[k].1 == ranges[k + 1].0);
    }
    if k > 0 {
        assert(ranges[k - 1].1 == ranges[k].0);
    }
}

impl UploadStats {
    /// The statistics before any request.
    pub open spec fn new_spec(total: usize) -> UploadStats {
        UploadStats { total_indicators: total, successful: 0, failed: 0, requests_made: 0 }
    }
}

// ---------------------------------------------------------------------------
// Concurrent upload
// ---------------------------------------------------------------------------

/// The records of the batches marked done.
pub open spec fn done_records(lens: Seq<usize>, done: Seq<bool>) -> int
    decreases lens.len(),
{
    if lens.len() == 0 || done.len() == 0 {
        0
    } else {
        done_records(lens.drop_last(), done.drop_last()) + if done.last() {
            lens.last() as int
        } else {
            0
        }
    }
}

/// The number of batches marked done.
pub open spec fn done_count(done: Seq<bool>) -> int
    decreases done.len(),
{
    if done.len() == 0 {
        0
    } else {
        done_count(done.drop_last()) + if done.last() {
            1int
        } else {
            0
        }
    }
}

/// The sum of the batch lengths.
pub open spec fn total_records(lens: Seq<usize>) -> int
    decreases lens.len(),
{
    if lens.len() == 0 {
        0
    } else {
        total_records(lens.drop_last()) + lens.last()
    }
}

proof fn lemma_mark_done(lens: Seq<usize>, done: Seq<bool>, i: int)
    requires
        lens.len() == done.len(),
        0 <= i < done.len(),
        !done[i],
    ensures
        done_records(lens, done.update(i, true)) == done_records(lens, done) + lens[i],
        done_count(done.update(i, true)) == done_count(done) + 1,
    decreases lens.len(),
{
    let d2 = done.update(i, true);
    if i < done.len() - 1 {
        assert(d2.drop_last() =~= done.drop_last().update(i, true));
        lemma_mark_done(lens.drop_last(), done.drop_last(), i);
    } else {
        assert(d2.drop_last() =~= done.drop_last());
    }
}

proof fn lemma_all_done(lens: Seq<usize>, done: Seq<bool>)
    requires
        lens.len() == done.len(),
        forall|i: int| 0 <= i < done.len() ==> #[trigger] done[i],
    ensures
        done_records(lens, done) == total_records(lens),
        done_count(done) == done.len(),
    decreases lens.len(),
{
    if lens.len() > 0 {
        assert forall|i: int| 0 <= i < done.drop_last().len() implies #[trigger] done.drop_last()[i] by {
            assert(done.drop_last()[i] == done[i]);
        }
        lemma_all_done(lens.drop_last(), done.drop_last());
        assert(done[done.len() - 1]);
    }
}

proof fn lemma_done_bounds(lens: Seq<usize>, done: Seq<bool>)
    requires
        lens.len() == done.len(),
    ensures
        0 <= done_records(lens, done) <= total_records(lens),
        0 <= done_count(done) <= done.len(),
    decreases lens.len(),
{
    if lens.len() > 0 {
        lemma_done_bounds(lens.drop_last(), done.drop_last());
    }
}

proof fn lemma_ranges_total(ranges: Seq<(usize, usize)>, total: nat, lens: Seq<usize>)
    requires
        ranges_cover(ranges, total),
        lens.len() == ranges.len(),
        forall|i: int| 0 <= i < ranges.len() ==> #[trigger] lens[i] == ranges[i].1 - ranges[i].0,
    ensures
        total_records(lens) == total,
{
    if ranges.len() > 0 {
        lemma_prefix_total(ranges, lens, ranges.len() as int);
        assert(lens.take(lens.len() as int) =~= lens);
    } else {
        assert(lens =~= Seq::<usize>::empty());
    }
}

proof fn lemma_prefix_total(ranges: Seq<(usize, usize)>, lens: Seq<usize>, k: int)
    requires
        lens.len() == ranges.len(),
        0 < k <= ranges.len(),
        ranges[0].0 == 0,
        forall|i: int| 0 <= i < ranges.len() - 1 ==> #[trigger] ranges[i].1 == ranges[i + 1].0,
        forall|i: int| 0 <= i < ranges.len() ==> #[trigger] lens[i] == ranges[i].1 - ranges[i].0,
    ensures
        total_records(lens.take(k)) == ranges[k - 1].1,
    decreases k,
{
    assert(lens.take(k).drop_last() =~= lens.take(k - 1));
    assert(lens.take(k).last() == lens[k - 1]);
    assert(total_records(lens.take(k)) == total_records(lens.take(k - 1)) + lens[k - 1]);
    if k > 1 {
        lemma_prefix_total(ranges, lens, k - 1);
        assert(ranges[k - 2].1 == ranges[k - 1].0);
    } else {
        assert(lens.take(0) =~= Seq::<usize>::empty());
    }
}

/// An upload sending several batches at once; each batch is recorded once,
/// when its last answer comes, in whatever order the batches finish.
#[derive(Debug, Clone)]
pub struct ConcurrentUpload {
    pub stats: UploadStats,
    /// The records of each batch.
    pub lens: Vec<usize>,
    /// Which batches have been recorded.
    pub done: Vec<bool>,
}

impl ConcurrentUpload {
    /// The counts add up to the records of the recorded batches, and one
    /// request is counted per recorded batch.
    pub open spec fn wf(self) -> bool {
        &&& self.lens@.len() == self.done@.len()
        &&& total_records(self.lens@) == self.stats.total_indicators
        &&& self.lens@.len() <= self.stats.total_indicators
        &&& self.stats.successful + self.stats.failed == done_records(self.lens@, self.done@)
        &&& self.stats.requests_made == done_count(self.done@)
    }

    /// Every batch has been recorded.
    pub open spec fn all_done(self) -> bool {
        forall|i: int| 0 <= i < self.done@.len() ==> #[trigger] self.done@[i]
    }

    /// An upload of `total` records in batches of `batch_size` (at most 100).
    pub fn new(total: usize, batch_size: usize) -> (r: ConcurrentUpload)
        requires
            total == 0 || batch_size > 0,
        ensures
            r.wf(),
            r.stats == UploadStats::new_spec(total),
            forall|i: int| 0 <= i < r.done@.len() ==> !(#[trigger] r.done@[i]),
            forall|i: int|
                0 <= i < r.lens@.len() ==> 0 < #[trigger] r.lens@[i] <= effective_batch_size_spec(
                    batch_size,
                ),
            forall|i: int|
                0 <= i < r.lens@.len() - 1 ==> #[trigger] r.lens@[i] == effective_batch_size_spec(
                    batch_size,
                ),
            total > 0 ==> r.lens@.len() == (total + effective_batch_size_spec(batch_size) - 1)
                / effective_batch_size_spec(batch_size) as int,
    {
        let ranges = if total == 0 {
            Vec::new()
        } else {
            batch_ranges(total, effective_batch_size(batch_size))
        };
        let mut lens: Vec<usize> = Vec::new();
        let mut done: Vec<bool> = Vec::new();
        let mut i: usize = 0;
        while i < ranges.len()
            invariant
                i <= ranges.len(),
                lens@.len() == i,
                done@.len() == i,
                forall|j: int| 0 <= j < i ==> #[trigger] lens@[j] == ranges@[j].1 - ranges@[j].0,
                forall|j: int| 0 <= j < i ==> !(#[trigger] done@[j]),
                forall|j: int| 0 <= j < ranges@.len() ==> ranges@[j].0 < #[trigger] ranges@[j].1
                    <= ranges@[j].0 + effective_batch_size_spec(batch_size),
                forall|j: int| 0 <= j < ranges@.len() - 1 ==> #[trigger] ranges@[j].1 == ranges@[j].0
                    + effective_batch_size_spec(batch_size),
            decreases ranges.len() - i,
        {
            let (s, e) = ranges[i];
            lens.push(e - s);
            done.push(false);
            i = i + 1;
        }
        proof {
            assert(ranges_cover(ranges@, total as nat));
            lemma_ranges_total(ranges@, total as nat, lens@);
            lemma_ranges_count(ranges@, total as nat);
            lemma_none_done(lens@, done@);
        }
        ConcurrentUpload { stats: UploadStats::new(total), lens, done }
    }

    /// `outcome` can be the final answer to batch `i`: the batch exists, has
    /// not been recorded yet, and a reply refuses at most its records.
    pub open spec fn answer_fits(self, i: int, outcome: BatchOutcome) -> bool {
        &&& 0 <= i < self.lens@.len()
        &&& !self.done@[i]
        &&& outcome matches BatchOutcome::Accepted { rejected } ==> rejected <= self.lens@[i]
    }

    /// `after` is this upload with `outcome` recorded as the final answer to
    /// batch `i`: the batch is marked, one request is counted and its records
    /// are settled.
    pub open spec fn recorded(self, i: int, outcome: BatchOutcome, after: ConcurrentUpload) -> bool {
        &&& after.lens@ == self.lens@
        &&& after.done@ == self.done@.update(i, true)
        &&& after.stats.total_indicators == self.stats.total_indicators
        &&& after.stats.requests_made == self.stats.requests_made + 1
        &&& (after.stats.successful as int, after.stats.failed as int) == settle(
            self.stats.successful as int,
            self.stats.failed as int,
            self.lens@[i] as int,
            outcome,
        )
    }

    /// Record the final answer to batch `i`.
    pub fn record(&mut self, i: usize, outcome: BatchOutcome)
        requires
            old(self).wf(),
            old(self).answer_fits(i as int, outcome),
        ensures
            final(self).wf(),
            old(self).recorded(i as int, outcome, *final(self)),
    {
        proof {
            lemma_mark_done(self.lens@, self.done@, i as int);
            lemma_done_bounds(self.lens@, self.done@.update(i as int, true));
            lemma_done_bounds(self.lens@, self.done@);
        }
        let len = self.lens[i];
        self.stats.record_concurrent(len, outcome);
        self.done.set(i, true);
    }

    /// The statistics of an upload whose batches were all recorded: every
    /// record counted once, as successful or failed, and one request per batch.
    pub fn finish(self) -> (r: UploadStats)
        requires
            self.wf(),
            self.all_done(),
        ensures
            r == self.stats,
            r.successful + r.failed == r.total_indicators,
            r.requests_made == self.lens@.len(),
    {
        proof {
            lemma_all_done(self.lens@, self.done@);
        }
        self.stats
    }
}

/// The batch size used for a requested one.
pub open spec fn effective_batch_size_spec(batch_size: usize) -> usize {
    if batch_size <= 100 {
        batch_size
    } else {
        100
    }
}

proof fn lemma_none_done(lens: Seq<usize>, done: Seq<bool>)
    requires
        lens.len() == done.len(),
        forall|j: int| 0 <= j < done.len() ==> !(#[trigger] done[j]),
    ensures
        done_records(lens, done) == 0,
        done_count(done) == 0,
    decreases lens.len(),
{
    if lens.len() > 0 {
        assert forall|j: int| 0 <= j < done.drop_last().len() implies !(#[trigger] done.drop_last()[j]) by {
            assert(done.drop_last()[j] == done[j]);
        }
        lemma_none_done(lens.drop_last(), done.drop_last());
        assert(!done[done.len() - 1]);
    }
}

proof fn lemma_ranges_count(ranges: Seq<(usize, usize)>, total: nat)
    requires
        ranges_cover(ranges, total),
    ensures
        ranges.len() <= total,
{
    if ranges.len() > 0 {
        lemma_ranges_grow(ranges, ranges.len() as int);
    }
}

proof fn lemma_ranges_grow(ranges: Seq<(usize, usize)>, k: int)
    requires
        0 < k <= ranges.len(),
        ranges[0].0 == 0,
        forall|i: int| 0 <= i < ranges.len() - 1 ==> #[trigger] ranges[i].1 == ranges[i + 1].0,
        forall|i: int| 0 <= i < ranges.len() ==> ranges[i].0 < #[trigger] ranges[i].1,
    ensures
        ranges[k - 1].1 >= k,
    decreases k,
{
    if k > 1 {
        lemma_ranges_grow(ranges, k - 1);
        assert(ranges[k - 2].1 == ranges[k - 1].0);
    }
}

// ---------------------------------------------------------------------------
// Whole uploads
// ---------------------------------------------------------------------------

/// A run of a one-batch-at-a-time upload: `states[k + 1]` is `states[k]`
/// with `answers[k]` recorded for the batch being sent, and `steps[k]` is
/// what came of it.
pub open spec fn sequential_run(
    states: Seq<SequentialUpload>,
    answers: Seq<BatchOutcome>,
    steps: Seq<SequentialStep>,
) -> bool {
    &&& states.len() == answers.len() + 1
    &&& steps.len() == answers.len()
    &&& forall|k: int|
        0 <= k < answers.len() ==> #[trigger] states[k].answer_fits(answers[k]) && states[k].recorded(
            answers[k],
            steps[k],
            states[k + 1],
        )
}

/// A one-batch-at-a-time upload before its first request.
pub open spec fn sequential_fresh(u: SequentialUpload) -> bool {
    &&& u.wf()
    &&& u.next == 0
    &&& u.attempts == 0
    &&& u.stats == UploadStats::new_spec(u.stats.total_indicators)
}

proof fn lemma_sequential_step_wf(
    u: SequentialUpload,
    o: BatchOutcome,
    r: SequentialStep,
    v: SequentialUpload,
)
    requires
        u.wf(),
        u.answer_fits(o),
        u.recorded(o, r, v),
    ensures
        v.wf(),
{
    let k = u.next as int;
    lemma_range_within(u.ranges@, u.stats.total_indicators as nat, k);
    assert(records_before(u.ranges@, k + 1) == u.ranges@[k].1);
}

proof fn lemma_sequential_prefix(
    states: Seq<SequentialUpload>,
    answers: Seq<BatchOutcome>,
    steps: Seq<SequentialStep>,
    n: int,
)
    requires
        sequential_run(states, answers, steps),
        sequential_fresh(states[0]),
        0 <= n <= answers.len(),
    ensures
        states[n].wf(),
        states[n].ranges@ == states[0].ranges@,
        states[n].stats.total_indicators == states[0].stats.total_indicators,
        states[n].stats.requests_made == n,
        (forall|k: int| 0 <= k < n ==> #[trigger] answers[k] is RateLimited) ==> n == 3
            * states[n].next + states[n].attempts && states[n].stats.successful == 0,
    decreases n,
{
    if n > 0 {
        lemma_sequential_prefix(states, answers, steps, n - 1);
        assert(states[n - 1].answer_fits(answers[n - 1]));
        lemma_sequential_step_wf(states[n - 1], answers[n - 1], steps[n - 1], states[n]);
        if forall|k: int| 0 <= k < n ==> #[trigger] answers[k] is RateLimited {
            assert(answers[n - 1] is RateLimited);
        }
    }
}

/// Over a run of a one-batch-at-a-time upload from its start: one request per
/// answer, at most three per batch; once every batch is finished, each record
/// is counted once, as successful or failed, with between one and three
/// requests per batch; and when every answer is rate limiting, each batch
/// takes exactly three requests and no record succeeds.
pub proof fn lemma_sequential_run(
    states: Seq<SequentialUpload>,
    answers: Seq<BatchOutcome>,
    steps: Seq<SequentialStep>,
)
    requires
        sequential_run(states, answers, steps),
        sequential_fresh(states[0]),
    ensures
        states.last().wf(),
        states.last().ranges@ == states[0].ranges@,
        states.last().stats.total_indicators == states[0].stats.total_indicators,
        states.last().stats.requests_made == answers.len(),
        answers.len() <= 3 * states.last().next + states.last().attempts,
        states.last().attempts < SEQUENTIAL_MAX_ATTEMPTS,
        states.last().is_finished() ==> states.last().stats.successful
            + states.last().stats.failed == states[0].stats.total_indicators,
        states.last().is_finished() ==> states[0].ranges@.len() <= answers.len() <= 3
            * states[0].ranges@.len(),
        (forall|k: int| 0 <= k < answers.len() ==> #[trigger] answers[k] is RateLimited) ==> answers.len()
            == 3 * states.last().next + states.last().attempts && states.last().stats.successful == 0,
{
    let n = answers.len() as int;
    lemma_sequential_prefix(states, answers, steps, n);
    assert(states.last() == states[n]);
    let v = states[n];
    if v.is_finished() {
        let rs = v.ranges@;
        if rs.len() > 0 {
            assert(records_before(rs, rs.len() as int) == rs.last().1);
        }
    }
}

/// A run of an upload sending batches at once: `states[k + 1]` is
/// `states[k]` with `answers[k]` recorded as the final answer to batch
/// `batches[k]`.
pub open spec fn concurrent_run(
    states: Seq<ConcurrentUpload>,
    batches: Seq<usize>,
    answers: Seq<BatchOutcome>,
) -> bool {
    &&& states.len() == answers.len() + 1
    &&& batches.len() == answers.len()
    &&& forall|k: int|
        0 <= k < answers.len() ==> #[trigger] states[k].answer_fits(batches[k] as int, answers[k])
            && states[k].recorded(batches[k] as int, answers[k], states[k + 1])
}

/// An upload sending batches at once, before any batch is recorded.
pub open spec fn concurrent_fresh(u: ConcurrentUpload) -> bool {
    &&& u.wf()
    &&& u.stats == UploadStats::new_spec(u.stats.total_indicators)
    &&& forall|i: int| 0 <= i < u.done@.len() ==> !(#[trigger] u.done@[i])
}

proof fn lemma_concurrent_step_wf(u: ConcurrentUpload, i: int, o: BatchOutcome, v: ConcurrentUpload)
    requires
        u.wf(),
        u.answer_fits(i, o),
        u.recorded(i, o, v),
    ensures
        v.wf(),
{
    lemma_mark_done(u.lens@, u.done@, i);
}

proof fn lemma_concurrent_prefix(
    states: Seq<ConcurrentUpload>,
    batches: Seq<usize>,
    answers: Seq<BatchOutcome>,
    n: int,
)
    requires
        concurrent_run(states, batches, answers),
        concurrent_fresh(states[0]),
        0 <= n <= answers.len(),
    ensures
        states[n].wf(),
        states[n].lens@ == states[0].lens@,
        states[n].stats.total_indicators == states[0].stats.total_indicators,
        states[n].stats.requests_made == n,
        forall|k: int| 0 <= k < n ==> #[trigger] batches[k] < states[0].lens@.len(),
        forall|k: int| 0 <= k < n ==> states[n].done@[#[trigger] batches[k] as int],
        forall|k: int, j: int| 0 <= k < j < n ==> #[trigger] batches[k] != #[trigger] batches[j],
    decreases n,
{
    if n > 0 {
        lemma_concurrent_prefix(states, batches, answers, n - 1);
        let u = states[n - 1];
        let i = batches[n - 1] as int;
        assert(u.answer_fits(i, answers[n - 1]));
        lemma_concurrent_step_wf(u, i, answers[n - 1], states[n]);
        assert forall|k: int| 0 <= k < n implies #[trigger] batches[k] < states[0].lens@.len() by {
            if k < n - 1 {
                assert(batches[k] < states[0].lens@.len());
            }
        }
        assert forall|k: int| 0 <= k < n implies states[n].done@[#[trigger] batches[k] as int] by {
            if k < n - 1 {
                assert(batches[k] < states[0].lens@.len());
                assert(u.done@[batches[k] as int]);
            }
        }
        assert forall|k: int, j: int| 0 <= k < j < n implies #[trigger] batches[k]
            != #[trigger] batches[j] by {
            if j == n - 1 {
                assert(batches[k] < states[0].lens@.len());
                assert(u.done@[batches[k] as int]);
            }
        }
    }
}

/// Over a run of an upload sending batches at once, from its start: one
/// request per recorded batch, each batch recorded at most once; once every
/// batch is recorded, each record is counted once, as successful or failed,
/// and exactly one request was counted per batch.
pub proof fn lemma_concurrent_run(
    states: Seq<ConcurrentUpload>,
    batches: Seq<usize>,
    answers: Seq<BatchOutcome>,
)
    requires
        concurrent_run(states, batches, answers),
        concurrent_fresh(states[0]),
    ensures
        states.last().wf(),
        states.last().lens@ == states[0].lens@,
        states.last().stats.requests_made == answers.len(),
        answers.len() <= states[0].lens@.len(),
        forall|k: int, j: int| 0 <= k < j < batches.len() ==> #[trigger] batches[k] != #[trigger] batches[j],
        states.last().all_done() ==> states.last().stats.successful + states.last().stats.failed
            == states[0].stats.total_indicators,
        states.last().all_done() ==> answers.len() == states[0].lens@.len(),
{
    let n = answers.len() as int;
    lemma_concurrent_prefix(states, batches, answers, n);
    assert(states.last() == states[n]);
    let v = states[n];
    lemma_done_bounds(v.lens@, v.done@);
    if v.all_done() {
        lemma_all_done(v.lens@, v.done@);
    }
}

} // verus!
