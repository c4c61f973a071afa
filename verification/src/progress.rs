//! The progress of a crawl over the firms of a city and category: where it
//! starts (the position its counter holds), which firm it visits next, and
//! what it stores in its counter after each firm.

use vstd::prelude::*;
use crate::processing::{counter_value, counter_value_spec, next_counter_text};
use crate::text::{signed_decimal, lemma_parse_format_i64};

verus! {

/// How far a crawl has come: the position of the next firm to visit, the
/// position of the last one, and whether it has passed the last one.
#[derive(Debug, Clone, Copy, PartialEq, Eq)]
pub struct CrawlState {
    pub next: i64,
    pub last: i64,
    pub finished: bool,
}

/// What a crawl does next.
#[derive(Debug, Clone, Copy, PartialEq, Eq)]
pub enum CrawlAction {
    /// Visit the firm at this position.
    Visit(i64),
    /// Stop: every position up to the last has been visited.
    Finish,
}

/// What became of a visited firm.
#[derive(Debug, Clone, Copy, PartialEq, Eq)]
pub enum FirmOutcome {
    /// What the crawl gathers was already stored for it; the counter stays.
    AlreadyStored,
    /// Its page had nothing to read (a closed firm, no reviews, no price
    /// list); the counter stays.
    Skipped,
    /// What the crawl gathers was read and stored; the counter moves past it.
    Done,
}

/// The state a crawl starts in: at the position its counter holds; none
/// when the counter holds no number.
pub open spec fn crawl_start_spec(stored: Option<Seq<char>>, last: i64) -> Option<CrawlState> {
    match counter_value_spec(stored) {
        Some(v) => Some(CrawlState { next: v, last, finished: false }),
        None => None,
    }
}

pub fn crawl_start(stored: &Option<String>, last: i64) -> (r: Option<CrawlState>)
    ensures
        r == crawl_start_spec(match stored { Some(s) => Some(s@), None => None }, last),
{
    match counter_value(stored) {
        Some(v) => Some(CrawlState { next: v, last, finished: false }),
        None => None,
    }
}

/// The firm a crawl visits next: the next position, while it is not past
/// the last one.
pub open spec fn next_action_spec(s: CrawlState) -> CrawlAction {
    if s.finished || s.next > s.last {
        CrawlAction::Finish
    } else {
        CrawlAction::Visit(s.next)
    }
}

pub fn next_crawl_action(s: &CrawlState) -> (a: CrawlAction)
    ensures
        a == next_action_spec(*s),
{
    if s.finished || s.next > s.last {
        CrawlAction::Finish
    } else {
        CrawlAction::Visit(s.next)
    }
}

/// The state after a visit: on to the next position, or finished after
/// the last one. Whatever became of the firm, the crawl moves on.
pub open spec fn after_state(s: CrawlState) -> CrawlState {
    if s.next >= s.last {
        CrawlState { next: s.next, last: s.last, finished: true }
    } else {
        CrawlState { next: (s.next + 1) as i64, last: s.last, finished: false }
    }
}

/// The state after visiting the current firm, and the text to store in
/// the counter: the next position when the firm was done, nothing when it
/// was passed over.
pub fn crawl_after(s: &CrawlState, outcome: FirmOutcome) -> (r: (CrawlState, Option<String>))
    requires
        next_action_spec(*s) == CrawlAction::Visit(s.next),
        outcome == FirmOutcome::Done ==> s.next < i64::MAX,
    ensures
        r.0 == after_state(*s),
        outcome == FirmOutcome::Done ==> (r.1 matches Some(t) && t@ == signed_decimal(s.next + 1)),
        outcome != FirmOutcome::Done ==> r.1 is None,
{
    let next = if s.next >= s.last {
        CrawlState { next: s.next, last: s.last, finished: true }
    } else {
        CrawlState { next: s.next + 1, last: s.last, finished: false }
    };
    let stored = match outcome {
        FirmOutcome::Done => Some(next_counter_text(s.next)),
        _ => None,
    };
    (next, stored)
}

/// The positions a crawl visits, in order, when the visited firms turn out
/// as `outcomes` say.
pub open spec fn crawl_visits(s: CrawlState, outcomes: Seq<FirmOutcome>) -> Seq<i64>
    decreases outcomes.len(),
{
    if outcomes.len() == 0 {
        Seq::empty()
    } else {
        match next_action_spec(s) {
            CrawlAction::Finish => Seq::empty(),
            CrawlAction::Visit(j) => seq![j] + crawl_visits(after_state(s), outcomes.drop_first()),
        }
    }
}

/// The number of positions from `next` to `last`.
pub open spec fn positions_left(s: CrawlState) -> int {
    if s.finished || s.next > s.last { 0 } else { s.last - s.next + 1 }
}

/// A crawl visits each position from where it starts to the last one
/// exactly once, in increasing order, whatever becomes of each firm
/// (as far as it runs: one position per outcome).
pub proof fn lemma_crawl_visits_each_once_in_order(s: CrawlState, outcomes: Seq<FirmOutcome>)
    ensures
        crawl_visits(s, outcomes) == Seq::new(
            (if outcomes.len() < positions_left(s) { outcomes.len() as int } else { positions_left(s) }) as nat,
            |i: int| (s.next + i) as i64,
        ),
    decreases outcomes.len(),
{
    let n = if outcomes.len() < positions_left(s) { outcomes.len() as int } else { positions_left(s) };
    if outcomes.len() == 0 || s.finished || s.next > s.last {
        assert(crawl_visits(s, outcomes) =~= Seq::new(n as nat, |i: int| (s.next + i) as i64));
    } else {
        let t = after_state(s);
        let rest = outcomes.drop_first();
        lemma_crawl_visits_each_once_in_order(t, rest);
        let m = if rest.len() < positions_left(t) { rest.len() as int } else { positions_left(t) };
        if s.next >= s.last {
            assert(positions_left(t) == 0);
            assert(n == 1);
        } else {
            assert(positions_left(t) == positions_left(s) - 1);
            assert(m == n - 1);
        }
        assert(crawl_visits(s, outcomes) == seq![s.next] + crawl_visits(t, rest));
        assert(crawl_visits(s, outcomes) =~= Seq::new(n as nat, |i: int| (s.next + i) as i64));
    }
}

/// A crawl that stored its counter after finishing the firm at `j` starts
/// again, when restarted, at the firm after it.
pub proof fn lemma_crawl_resumes_after(j: i64, last: i64)
    requires
        j < i64::MAX,
    ensures
        crawl_start_spec(Some(signed_decimal(j + 1)), last) == Some(
            CrawlState { next: (j + 1) as i64, last, finished: false },
        ),
{
    lemma_parse_format_i64((j + 1) as i64);
}

} // verus!
