//! Paging through a MISP search: which pages to ask for next, what the
//! answers add, and when to stop.

use crate::error::Error;
use crate::misp::{MispEvent, MispEventWrapper, MispSearchResponse};
use vstd::prelude::*;

verus! {

// ---------------------------------------------------------------------------
// Responses
// ---------------------------------------------------------------------------

impl MispSearchResponse {
    /// The events of a search response, in order.
    pub fn into_events(self) -> (r: Vec<MispEvent>)
        ensures
            r@ == self.response@.map_values(|w: MispEventWrapper| w.event),
    {
        let mut wrappers = self.response;
        let ghost all = wrappers@;
        let mut out: Vec<MispEvent> = Vec::new();
        while wrappers.len() > 0
            invariant
                all.map_values(|w: MispEventWrapper| w.event) == out@ + wrappers@.map_values(
                    |w: MispEventWrapper| w.event,
                ),
            decreases wrappers.len(),
        {
            let ghost before = wrappers@;
            let w = wrappers.remove(0);
            out.push(w.event);
            proof {
                assert(before.map_values(|w: MispEventWrapper| w.event) =~= seq![w.event]
                    + wrappers@.map_values(|w: MispEventWrapper| w.event));
            }
        }
        proof {
            assert(wrappers@.map_values(|w: MispEventWrapper| w.event) =~= Seq::<MispEvent>::empty());
        }
        out
    }
}

// ---------------------------------------------------------------------------
// Paging
// ---------------------------------------------------------------------------

/// The events that a round of page answers adds, in the order given; a page
/// that failed (`None`) adds nothing.
pub open spec fn round_events(results: Seq<Option<Vec<MispEvent>>>) -> Seq<MispEvent>
    decreases results.len(),
{
    if results.len() == 0 {
        Seq::<MispEvent>::empty()
    } else {
        round_events(results.drop_last()) + match results.last() {
            Some(v) => v@,
            None => Seq::<MispEvent>::empty(),
        }
    }
}

/// A page answer that holds events.
pub open spec fn page_nonempty(r: Option<Vec<MispEvent>>) -> bool {
    match r {
        Some(v) => v@.len() > 0,
        None => false,
    }
}

/// A page answer that holds a full page.
pub open spec fn page_full(r: Option<Vec<MispEvent>>, limit: u32) -> bool {
    match r {
        Some(v) => v@.len() >= limit,
        None => false,
    }
}

/// Some page of the round returned events.
pub open spec fn round_had_results(results: Seq<Option<Vec<MispEvent>>>) -> bool {
    exists|i: int| 0 <= i < results.len() && page_nonempty(#[trigger] results[i])
}

/// Every page of the round succeeded and was full.
pub open spec fn round_all_full(results: Seq<Option<Vec<MispEvent>>>, limit: u32) -> bool {
    forall|i: int| 0 <= i < results.len() ==> page_full(#[trigger] results[i], limit)
}

/// The events to keep when at most `max` are wanted.
pub open spec fn capped_events(events: Seq<MispEvent>, max: Option<u32>) -> Seq<MispEvent> {
    match max {
        Some(m) => if events.len() > m {
            events.take(m as int)
        } else {
            events
        },
        None => events,
    }
}

/// The pages of one round: `concurrency` pages from `first`.
pub open spec fn round_pages(first: u32, concurrency: u32) -> Seq<u32> {
    Seq::new(concurrency as nat, |i: int| (first + i) as u32)
}

/// The state of a paged fetch.
#[derive(Debug)]
pub struct PageFetch {
    /// Events per page.
    pub limit: u32,
    /// Most events to keep, if limited.
    pub max_events: Option<u32>,
    /// Pages asked for in one round.
    pub concurrency: u32,
    /// The first page of the next round.
    pub next_page: u32,
    /// The events fetched so far.
    pub events: Vec<MispEvent>,
    /// No more pages are to be asked for.
    pub done: bool,
}

impl PageFetch {
    /// Start from the answer to page 1. The fetch is over at once when that
    /// page already holds `max_events` events (which are kept) or is not full.
    pub fn start(limit: u32, max_events: Option<u32>, concurrency: u32, first_page: Vec<MispEvent>) -> (r: PageFetch)
        ensures
            r.limit == limit,
            r.max_events == max_events,
            r.concurrency == concurrency,
            r.next_page == 2,
            match max_events {
                Some(m) if first_page@.len() >= m => r.done && r.events@ == first_page@.take(m as int),
                _ => r.done == (first_page@.len() < limit) && r.events@ == first_page@,
            },
    {
        let mut events = first_page;
        let mut done = false;
        if let Some(m) = max_events {
            if events.len() >= m as usize {
                events.truncate(m as usize);
                done = true;
            }
        }
        if !done && events.len() < limit as usize {
            done = true;
        }
        PageFetch { limit, max_events, concurrency, next_page: 2, events, done }
    }

    /// The pages of the next round, or `None` when the fetch is over. A fetch
    /// that already holds `max_events` events ends here, keeping that many.
    pub fn next_round(&mut self) -> (r: Option<Vec<u32>>)
        requires
            old(self).next_page as nat + old(self).concurrency as nat <= u32::MAX as nat,
        ensures
            final(self).limit == old(self).limit,
            final(self).max_events == old(self).max_events,
            final(self).concurrency == old(self).concurrency,
            final(self).next_page == old(self).next_page,
            old(self).done ==> r is None && final(self).events@ == old(self).events@ && final(self).done,
            !old(self).done ==> match old(self).max_events {
                Some(m) if old(self).events@.len() >= m => {
                    &&& r is None
                    &&& final(self).done
                    &&& final(self).events@ == old(self).events@.take(m as int)
                },
                _ => {
                    &&& r matches Some(p) && p@ == round_pages(old(self).next_page, old(self).concurrency)
                    &&& !final(self).done
                    &&& final(self).events@ == old(self).events@
                },
            },
    {
        if self.done {
            return None;
        }
        if let Some(m) = self.max_events {
            if self.events.len() >= m as usize {
                self.events.truncate(m as usize);
                self.done = true;
                return None;
            }
        }
        let mut pages: Vec<u32> = Vec::new();
        let mut i: u32 = 0;
        while i < self.concurrency
            invariant
                i <= self.concurrency,
                self.next_page as nat + self.concurrency as nat <= u32::MAX as nat,
                pages@ == round_pages(self.next_page, i),
            decreases self.concurrency - i,
        {
            pages.push(self.next_page + i);
            i = i + 1;
            assert(pages@ =~= round_pages(self.next_page, i));
        }
        Some(pages)
    }

    /// Take in the answers to a round, one per page (`None` for a page that
    /// failed), in the order they came. Their events are added; the fetch goes
    /// on only when some page returned events and every page was full.
    pub fn absorb(&mut self, results: Vec<Option<Vec<MispEvent>>>)
        requires
            !old(self).done,
            old(self).next_page as nat + old(self).concurrency as nat <= u32::MAX as nat,
        ensures
            final(self).limit == old(self).limit,
            final(self).max_events == old(self).max_events,
            final(self).concurrency == old(self).concurrency,
            final(self).events@ == old(self).events@ + round_events(results@),
            final(self).done == !(round_had_results(results@) && round_all_full(
                results@,
                old(self).limit,
            )),
            final(self).next_page == if final(self).done {
                old(self).next_page
            } else {
                (old(self).next_page + old(self).concurrency) as u32
            },
    {
        let mut rest = results;
        let ghost all = rest@;
        let ghost start = self.events@;
        let mut any_results = false;
        let mut all_full = true;
        let mut k: usize = 0;
        proof {
            assert(all.len() == rest.len());
            assert(all.take(0) =~= Seq::<Option<Vec<MispEvent>>>::empty());
            assert(self.events@ =~= start + round_events(all.take(0)));
        }
        while rest.len() > 0
            invariant
                k + rest@.len() == all.len(),
                all.len() <= usize::MAX,
                self.limit == old(self).limit,
                self.max_events == old(self).max_events,
                self.concurrency == old(self).concurrency,
                self.next_page == old(self).next_page,
                !self.done,
                self.next_page as nat + self.concurrency as nat <= u32::MAX as nat,
                rest@ == all.skip(k as int),
                self.events@ == start + round_events(all.take(k as int)),
                any_results == round_had_results(all.take(k as int)),
                all_full == round_all_full(all.take(k as int), self.limit),
            decreases rest.len(),
        {
            let ghost item = rest@[0];
            assert(item == all[k as int]);
            let r = rest.remove(0);
            let ghost prefix = all.take(k as int);
            let ghost next = all.take(k + 1);
            assert(next.drop_last() =~= prefix);
            assert(next.last() == item);
            assert(rest@ =~= all.skip(k + 1));
            match r {
                Some(mut page) => {
                    let count = page.len();
                    if count > 0 {
                        any_results = true;
                    }
                    if count < self.limit as usize {
                        all_full = false;
                    }
                    self.events.append(&mut page);
                },
                None => {
                    all_full = false;
                },
            }
            proof {
                assert(self.events@ =~= start + round_events(next));
                if any_results {
                    if round_had_results(prefix) {
                        let j = choose|j: int| 0 <= j < prefix.len() && page_nonempty(#[trigger] prefix[j]);
                        assert(next[j] == prefix[j]);
                    } else {
                        assert(next[k as int] == item);
                    }
                } else {
                    assert forall|j: int| 0 <= j < next.len() implies !page_nonempty(#[trigger] next[j]) by {
                        if j < k {
                            assert(next[j] == prefix[j]);
                        }
                    }
                }
                if all_full {
                    assert forall|j: int| 0 <= j < next.len() implies page_full(#[trigger] next[j], self.limit) by {
                        if j < k {
                            assert(next[j] == prefix[j]);
                        }
                    }
                } else if round_all_full(prefix, self.limit) {
                    assert(next[k as int] == item);
                } else {
                    let j = choose|j: int| 0 <= j < prefix.len() && !page_full(#[trigger] prefix[j], self.limit);
                    assert(next[j] == prefix[j]);
                }
            }
            k = k + 1;
        }
        proof {
            assert(all.take(k as int) =~= all);
        }
        if !any_results || !all_full {
            self.done = true;
        } else {
            self.next_page = self.next_page + self.concurrency;
        }
    }

    /// The events fetched, no more than `max_events` of them.
    pub fn into_events(self) -> (r: Vec<MispEvent>)
        ensures
            r@ == capped_events(self.events@, self.max_events),
            self.max_events matches Some(m) ==> r@.len() <= m,
            r@.len() <= self.events@.len(),
    {
        let mut events = self.events;
        if let Some(m) = self.max_events {
            if events.len() > m as usize {
                events.truncate(m as usize);
            }
        }
        events
    }
}

// ---------------------------------------------------------------------------
// Endpoint
// ---------------------------------------------------------------------------

/// `s` without its trailing copies of `c` (`str::trim_end_matches`).
pub open spec fn trim_trailing(s: Seq<char>, c: char) -> Seq<char>
    decreases s.len(),
{
    if s.len() > 0 && s.last() == c {
        trim_trailing(s.drop_last(), c)
    } else {
        s
    }
}

/// The server's base URL: the configured URL without trailing slashes.
pub fn base_url(url: &str) -> (r: String)
    ensures
        r@ == trim_trailing(url@, '/'),
{
    let n = url.unicode_len();
    let mut k: usize = n;
    assert(url@.subrange(0, n as int) =~= url@);
    while k > 0 && url.get_char(k - 1) == '/'
        invariant
            n == url@.len(),
            k <= n,
            trim_trailing(url@, '/') == trim_trailing(url@.subrange(0, k as int), '/'),
        decreases k,
    {
        proof {
            let t = url@.subrange(0, k as int);
            assert(t.drop_last() =~= url@.subrange(0, k - 1));
        }
        k = k - 1;
    }
    url.substring_char(0, k).to_string()
}

/// The URL of the event search endpoint under a base URL.
pub fn search_url(base: &str) -> (r: String)
    ensures
        r@ == base@ + "/events/restSearch"@,
{
    let mut r = base.to_string();
    r.append("/events/restSearch");
    r
}

/// The answer to a page request, as far as the library reads it.
#[derive(Debug)]
pub enum PageAnswer {
    /// The server answered with an unsuccessful status.
    Refused { status: String, body: String },
    /// The body was not a search response.
    Unparsable { message: String },
    /// The search response.
    Parsed(MispSearchResponse),
}

/// The events of a page, or the error its answer comes to.
pub fn page_events(answer: PageAnswer) -> (r: Result<Vec<MispEvent>, Error>)
    ensures
        match answer {
            PageAnswer::Refused { status, body } => r matches Err(Error::MispApi(m)) && m@
                == "MISP API error ("@ + status@ + "): "@ + body@,
            PageAnswer::Unparsable { message } => r matches Err(Error::MispApi(m)) && m@
                == "Failed to parse response: "@ + message@,
            PageAnswer::Parsed(resp) => r matches Ok(v) && v@ == resp.response@.map_values(
                |w: MispEventWrapper| w.event,
            ),
        },
{
    match answer {
        PageAnswer::Refused { status, body } => {
            let mut m = String::from_str("MISP API error (");
            m.append(status.as_str());
            m.append("): ");
            m.append(body.as_str());
            Err(Error::MispApi(m))
        },
        PageAnswer::Unparsable { message } => {
            let mut m = String::from_str("Failed to parse response: ");
            m.append(message.as_str());
            Err(Error::MispApi(m))
        },
        PageAnswer::Parsed(resp) => Ok(resp.into_events()),
    }
}

} // verus!
