//! The read path: a lookup under a deadline, and what its reply amounts to.

use vstd::prelude::*;
use crate::store::{LookupReply, LookupReplyView, StoreError, StoreErrorView};

verus! {

/// The time, in milliseconds, that a lookup may take before it is given up.
pub const LOOKUP_DEADLINE_MS: u64 = 300;

/// A lookup to run against the store.
#[derive(Debug, Clone, PartialEq, Eq)]
pub struct LookupRequest {
    /// The identifier to look up.
    pub id: String,
    /// The time, in milliseconds, after which the lookup is given up.
    pub deadline_ms: u64,
}

/// What resolving an identifier came to.
#[derive(Debug, Clone, PartialEq, Eq)]
pub enum RedirectOutcome {
    /// The store holds the identifier; the payload is its target.
    Found(String),
    /// The store holds no link under the identifier.
    NotFound,
    /// The store did not answer before the deadline.
    Timeout,
    /// The store failed; the payload is what it reported.
    Storage(StoreError),
}

/// The mathematical value of a [`RedirectOutcome`].
pub enum RedirectOutcomeView {
    Found(Seq<char>),
    NotFound,
    Timeout,
    Storage(StoreErrorView),
}

impl View for RedirectOutcome {
    type V = RedirectOutcomeView;

    open spec fn view(&self) -> RedirectOutcomeView {
        match self {
            RedirectOutcome::Found(target_url) => RedirectOutcomeView::Found(target_url@),
            RedirectOutcome::NotFound => RedirectOutcomeView::NotFound,
            RedirectOutcome::Timeout => RedirectOutcomeView::Timeout,
            RedirectOutcome::Storage(error) => RedirectOutcomeView::Storage(error@),
        }
    }
}

/// The outcome that a lookup reply amounts to. A missed deadline comes
/// first, then a failure of the store, then the absence of the link.
pub open spec fn redirect_outcome(reply: LookupReplyView) -> RedirectOutcomeView {
    match reply {
        LookupReplyView::DeadlineExceeded => RedirectOutcomeView::Timeout,
        LookupReplyView::Failed(error) => RedirectOutcomeView::Storage(error),
        LookupReplyView::Completed(None) => RedirectOutcomeView::NotFound,
        LookupReplyView::Completed(Some(link)) => RedirectOutcomeView::Found(link.target_url),
    }
}

/// The lookup that resolves `id`: a read of that identifier, to be given up
/// after [`LOOKUP_DEADLINE_MS`].
pub fn lookup_request(id: String) -> (request: LookupRequest)
    requires
        id@.len() > 0,
    ensures
        request.id@ == id@,
        request.deadline_ms == LOOKUP_DEADLINE_MS,
{
    LookupRequest { id, deadline_ms: LOOKUP_DEADLINE_MS }
}

/// Classifies the reply to a lookup.
pub fn resolve(reply: LookupReply) -> (outcome: RedirectOutcome)
    ensures
        outcome@ == redirect_outcome(reply@),
        reply@ is DeadlineExceeded ==> outcome@ is Timeout,
{
    match reply {
        LookupReply::DeadlineExceeded => RedirectOutcome::Timeout,
        LookupReply::Failed(error) => RedirectOutcome::Storage(error),
        LookupReply::Completed(None) => RedirectOutcome::NotFound,
        LookupReply::Completed(Some(link)) => RedirectOutcome::Found(link.target_url),
    }
}

} // verus!
