//! The result of a synchronization run.

use crate::sentinel::UploadStats;
use crate::text::{dec_string, usize_to_decimal};
use vstd::prelude::*;

verus! {

/// Result of a synchronization run.
#[derive(Debug, Clone, Copy)]
pub struct SyncResult {
    pub events_processed: usize,
    pub indicators_created: usize,
    /// Upload statistics; `None` for a dry run.
    pub upload_stats: Option<UploadStats>,
}

/// The summary line of a run.
pub open spec fn summary_text(r: SyncResult) -> Seq<char> {
    match r.upload_stats {
        Some(stats) => "Processed "@ + dec_string(r.events_processed as nat) + " events, created "@
            + dec_string(r.indicators_created as nat) + " indicators. Upload: "@ + dec_string(
            stats.successful as nat,
        ) + " successful, "@ + dec_string(stats.failed as nat) + " failed"@,
        None => "Dry run: processed "@ + dec_string(r.events_processed as nat) + " events, created "@
            + dec_string(r.indicators_created as nat) + " indicators (not uploaded)"@,
    }
}

/// Append the decimal text of `n`.
fn append_number(s: &mut String, n: usize)
    ensures
        final(s)@ == old(s)@ + dec_string(n as nat),
{
    let d = usize_to_decimal(n);
    s.append(d.as_str());
}

impl SyncResult {
    /// The result of a dry run: events processed and indicators created, nothing uploaded.
    pub fn dry_run(events_processed: usize, indicators_created: usize) -> (r: SyncResult)
        ensures
            r == (SyncResult { events_processed, indicators_created, upload_stats: None }),
    {
        SyncResult { events_processed, indicators_created, upload_stats: None }
    }

    /// The result of a run that uploaded: the indicators created are those the upload counted.
    pub fn uploaded(events_processed: usize, stats: UploadStats) -> (r: SyncResult)
        ensures
            r == (SyncResult {
                events_processed,
                indicators_created: stats.total_indicators,
                upload_stats: Some(stats),
            }),
    {
        SyncResult { events_processed, indicators_created: stats.total_indicators, upload_stats: Some(stats) }
    }

    /// The indicators uploaded and failed; none for a dry run.
    pub fn upload_counts(&self) -> (r: (usize, usize))
        ensures
            r == (match self.upload_stats {
                Some(s) => (s.successful, s.failed),
                None => (0usize, 0usize),
            }),
    {
        match &self.upload_stats {
            Some(s) => (s.successful, s.failed),
            None => (0, 0),
        }
    }

    /// Whether the sync was successful: a dry run always is, an upload when nothing failed.
    pub fn is_success(&self) -> (r: bool)
        ensures
            r == (match self.upload_stats {
                Some(stats) => stats.failed == 0,
                None => true,
            }),
    {
        match &self.upload_stats {
            Some(stats) => stats.failed == 0,
            None => true,
        }
    }

    /// The summary line of the run.
    pub fn summary(&self) -> (r: String)
        ensures
            r@ == summary_text(*self),
    {
        match &self.upload_stats {
            Some(stats) => {
                let mut s = String::from_str("Processed ");
                append_number(&mut s, self.events_processed);
                s.append(" events, created ");
                append_number(&mut s, self.indicators_created);
                s.append(" indicators. Upload: ");
                append_number(&mut s, stats.successful);
                s.append(" successful, ");
                append_number(&mut s, stats.failed);
                s.append(" failed");
                s
            },
            None => {
                let mut s = String::from_str("Dry run: processed ");
                append_number(&mut s, self.events_processed);
                s.append(" events, created ");
                append_number(&mut s, self.indicators_created);
                s.append(" indicators (not uploaded)");
                s
            },
        }
    }
}

} // verus!
