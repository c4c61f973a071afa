//! The checks a crawl makes, in order, on each firm it visits, and what
//! becomes of the firm: it is passed over at the first check that tells it
//! to, and gathered when it passes them all.

use vstd::prelude::*;
use crate::crawl::{
    closed_firm_markers, firm_address, firm_address_spec, has_no_price_list, has_no_reviews,
    is_closed_firm, no_price_list_markers, no_reviews_markers, shows_any,
};
use crate::processing::{review_excerpt, review_excerpt_spec};
use crate::progress::FirmOutcome;
use crate::text::chars_of;

verus! {

/// The crawls over the firms.
#[derive(Debug, Clone, Copy, PartialEq, Eq)]
pub enum Crawl {
    Addresses,
    Descriptions,
    Infos,
    Prices,
    Reviews,
    GeneratedReviews,
}

/// A check made on a visited firm.
#[derive(Debug, Clone, Copy, PartialEq, Eq)]
pub enum Check {
    /// What the crawl gathers is already stored for the firm.
    AlreadyStored,
    /// The firm's page says it is closed or not yet open.
    ClosedFirm,
    /// The reviews tab has no reviews to read.
    NoReviews,
    /// The prices tab has no price list of the firm's own.
    NoPriceList,
    /// The prices tab shows another catalogue or advertisements.
    OtherCatalogues,
    /// The tab shows a count of zero (prices or reviews).
    NothingShown,
    /// The address blocks give no address to store.
    NoAddress,
    /// The firm has too few reviews for a generated one.
    TooFewReviews,
    /// The generated review came back empty.
    EmptyAnswer,
}

/// What the crawler saw when it made a check.
#[derive(Debug, PartialEq, Eq)]
pub enum Observation {
    /// Whether what the crawl gathers was found stored.
    Stored(bool),
    /// The markup of the part of the page that the check reads.
    Page(String),
    /// The numbers of other catalogues and of advertisements shown.
    Counts(usize, usize),
    /// Whether the count the tab shows is zero.
    ShownZero(bool),
    /// The street and city lines of the first address block, if there is one.
    Address(Option<(String, String)>),
    /// The texts of the firm's stored reviews.
    Reviews(Vec<Option<String>>),
    /// The generated review; nothing when no answer came (a failed request
    /// or a timeout), which is not an empty answer.
    Answer(Option<String>),
}

/// The checks of each crawl, in the order it makes them.
pub open spec fn visit_checks(crawl: Crawl) -> Seq<Check> {
    match crawl {
        Crawl::Addresses => seq![Check::NoAddress],
        Crawl::Descriptions => seq![Check::ClosedFirm],
        Crawl::Infos => seq![Check::ClosedFirm],
        Crawl::Prices => seq![Check::AlreadyStored, Check::NoPriceList, Check::OtherCatalogues, Check::NothingShown],
        Crawl::Reviews => seq![Check::AlreadyStored, Check::NoReviews, Check::NothingShown],
        Crawl::GeneratedReviews => seq![Check::AlreadyStored, Check::TooFewReviews, Check::EmptyAnswer],
    }
}

/// Whether an observation is of the kind that a check reads.
pub open spec fn observes(check: Check, obs: Observation) -> bool {
    match check {
        Check::AlreadyStored => obs is Stored,
        Check::ClosedFirm | Check::NoReviews | Check::NoPriceList => obs is Page,
        Check::OtherCatalogues => obs is Counts,
        Check::NothingShown => obs is ShownZero,
        Check::NoAddress => obs is Address,
        Check::TooFewReviews => obs is Reviews,
        Check::EmptyAnswer => obs is Answer,
    }
}

/// Whether a check tells the crawler to pass the firm over.
pub open spec fn passes_over(check: Check, obs: Observation) -> bool {
    match (check, obs) {
        (Check::AlreadyStored, Observation::Stored(b)) => b,
        (Check::ClosedFirm, Observation::Page(h)) => shows_any(h@, closed_firm_markers()),
        (Check::NoReviews, Observation::Page(h)) => shows_any(h@, no_reviews_markers()),
        (Check::NoPriceList, Observation::Page(h)) => shows_any(h@, no_price_list_markers()),
        (Check::OtherCatalogues, Observation::Counts(other, ads)) => other > 0 || ads > 0,
        (Check::NothingShown, Observation::ShownZero(z)) => z,
        (Check::NoAddress, Observation::Address(block)) => firm_address_spec(
            match block { Some((s, c)) => Some((s@, c@)), None => None },
        ) is None,
        (Check::TooFewReviews, Observation::Reviews(texts)) => review_excerpt_spec(texts@) is None,
        (Check::EmptyAnswer, Observation::Answer(a)) => match a {
            Some(t) => t@.len() == 0,
            None => false,
        },
        _ => false,
    }
}

/// What becomes of a firm that a check passes over.
pub open spec fn passed_over_as(check: Check) -> FirmOutcome {
    match check {
        Check::AlreadyStored => FirmOutcome::AlreadyStored,
        _ => FirmOutcome::Skipped,
    }
}

/// What the crawler does next on a visited firm.
#[derive(Debug, Clone, Copy, PartialEq, Eq)]
pub enum VisitNext {
    /// Make this check.
    Make(Check),
    /// Every check was passed: gather what the crawl stores for the firm.
    Gather,
}

/// After `made` checks were passed: the next check of the crawl, or, when
/// none is left, gathering the firm's data.
pub fn next_check(crawl: Crawl, made: usize) -> (r: VisitNext)
    ensures
        made < visit_checks(crawl).len() ==> r == VisitNext::Make(visit_checks(crawl)[made as int]),
        made >= visit_checks(crawl).len() ==> r == VisitNext::Gather,
{
    let checks: Vec<Check> = match crawl {
        Crawl::Addresses => vec![Check::NoAddress],
        Crawl::Descriptions => vec![Check::ClosedFirm],
        Crawl::Infos => vec![Check::ClosedFirm],
        Crawl::Prices => vec![Check::AlreadyStored, Check::NoPriceList, Check::OtherCatalogues, Check::NothingShown],
        Crawl::Reviews => vec![Check::AlreadyStored, Check::NoReviews, Check::NothingShown],
        Crawl::GeneratedReviews => vec![Check::AlreadyStored, Check::TooFewReviews, Check::EmptyAnswer],
    };
    assert(checks@ =~= visit_checks(crawl));
    if made < checks.len() {
        VisitNext::Make(checks[made])
    } else {
        VisitNext::Gather
    }
}

/// What a check decides: the outcome of the firm when it is passed over,
/// nothing when the crawler goes on.
pub fn check_outcome(check: Check, obs: &Observation) -> (r: Option<FirmOutcome>)
    requires
        observes(check, *obs),
    ensures
        r == (if passes_over(check, *obs) { Some(passed_over_as(check)) } else { None }),
{
    let over = match (check, obs) {
        (Check::AlreadyStored, Observation::Stored(b)) => *b,
        (Check::ClosedFirm, Observation::Page(h)) => is_closed_firm(h.as_str()),
        (Check::NoReviews, Observation::Page(h)) => has_no_reviews(h.as_str()),
        (Check::NoPriceList, Observation::Page(h)) => has_no_price_list(h.as_str()),
        (Check::OtherCatalogues, Observation::Counts(other, ads)) => *other > 0 || *ads > 0,
        (Check::NothingShown, Observation::ShownZero(z)) => *z,
        (Check::NoAddress, Observation::Address(block)) => {
            let read = match block {
                Some((s, c)) => firm_address(Some((s.as_str(), c.as_str()))),
                None => firm_address(None),
            };
            read.is_none()
        },
        (Check::TooFewReviews, Observation::Reviews(texts)) => review_excerpt(texts).is_none(),
        (Check::EmptyAnswer, Observation::Answer(a)) => match a {
            Some(t) => chars_of(t.as_str()).len() == 0,
            None => false,
        },
        _ => false,
    };
    if over {
        Some(match check {
            Check::AlreadyStored => FirmOutcome::AlreadyStored,
            _ => FirmOutcome::Skipped,
        })
    } else {
        None
    }
}

/// The outcome of a visit whose checks saw `observations`, one for each
/// check in order: passed over at the first check that says so, gathered
/// when none does.
pub open spec fn visit_outcome(checks: Seq<Check>, observations: Seq<Observation>) -> FirmOutcome
    decreases checks.len(),
{
    if checks.len() == 0 || observations.len() == 0 {
        FirmOutcome::Done
    } else if passes_over(checks[0], observations[0]) {
        passed_over_as(checks[0])
    } else {
        visit_outcome(checks.drop_first(), observations.drop_first())
    }
}

/// A firm is gathered exactly when none of its crawl's checks passes it
/// over, and it counts as already stored only when the first check of the
/// crawl is the one that says so.
pub proof fn lemma_gathered_only_when_every_check_passes(checks: Seq<Check>, observations: Seq<Observation>)
    requires
        observations.len() == checks.len(),
    ensures
        (visit_outcome(checks, observations) == FirmOutcome::Done) <==> (forall|i: int|
            0 <= i < checks.len() ==> !passes_over(#[trigger] checks[i], observations[i])),
        visit_outcome(checks, observations) == FirmOutcome::AlreadyStored ==> exists|i: int|
            0 <= i < checks.len() && #[trigger] checks[i] == Check::AlreadyStored
                && passes_over(checks[i], observations[i]),
    decreases checks.len(),
{
    if checks.len() > 0 {
        lemma_gathered_only_when_every_check_passes(checks.drop_first(), observations.drop_first());
        if !passes_over(checks[0], observations[0]) {
            assert forall|i: int| 1 <= i < checks.len() implies (#[trigger] checks[i]) == checks.drop_first()[i - 1]
                && observations[i] == observations.drop_first()[i - 1] by {}
            if visit_outcome(checks, observations) == FirmOutcome::AlreadyStored {
                let k = choose|k: int| 0 <= k < checks.len() - 1 && #[trigger] checks.drop_first()[k] == Check::AlreadyStored
                    && passes_over(checks.drop_first()[k], observations.drop_first()[k]);
                assert(checks[k + 1] == Check::AlreadyStored);
            }
        } else {
            if passed_over_as(checks[0]) == FirmOutcome::AlreadyStored {
                assert(checks[0] == Check::AlreadyStored);
            }
        }
    }
}

} // verus!
