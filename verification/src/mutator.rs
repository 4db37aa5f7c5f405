//! The write path: creating a link, changing its target, and what the
//! store's reply to either amounts to.

use vstd::prelude::*;
use crate::link::{Link, LinkView};
use crate::store::{
    InsertReply, InsertReplyView, StoreError, StoreErrorView, UpdateReply, UpdateReplyView,
};

verus! {

/// What creating a link came to.
#[derive(Debug, Clone, PartialEq, Eq)]
pub enum CreateOutcome {
    /// The store took the link; the payload is the link as stored.
    Created(Link),
    /// The store failed; the payload is what it reported. A taken
    /// identifier is such a failure, of the kind unique violation.
    Storage(StoreError),
}

/// The mathematical value of a [`CreateOutcome`].
pub enum CreateOutcomeView {
    Created(LinkView),
    Storage(StoreErrorView),
}

impl View for CreateOutcome {
    type V = CreateOutcomeView;

    open spec fn view(&self) -> CreateOutcomeView {
        match self {
            CreateOutcome::Created(link) => CreateOutcomeView::Created(link@),
            CreateOutcome::Storage(error) => CreateOutcomeView::Storage(error@),
        }
    }
}

/// What changing the target of a link came to.
#[derive(Debug, Clone, PartialEq, Eq)]
pub enum UpdateOutcome {
    /// The store changed the link.
    Updated,
    /// The store holds no link under the identifier.
    NotFound,
    /// The store failed; the payload is what it reported.
    Storage(StoreError),
}

/// The mathematical value of an [`UpdateOutcome`].
pub enum UpdateOutcomeView {
    Updated,
    NotFound,
    Storage(StoreErrorView),
}

impl View for UpdateOutcome {
    type V = UpdateOutcomeView;

    open spec fn view(&self) -> UpdateOutcomeView {
        match self {
            UpdateOutcome::Updated => UpdateOutcomeView::Updated,
            UpdateOutcome::NotFound => UpdateOutcomeView::NotFound,
            UpdateOutcome::Storage(error) => UpdateOutcomeView::Storage(error@),
        }
    }
}

/// The outcome that the reply to an insert of `link` amounts to.
pub open spec fn create_outcome(link: LinkView, reply: InsertReplyView) -> CreateOutcomeView {
    match reply {
        InsertReplyView::Inserted => CreateOutcomeView::Created(link),
        InsertReplyView::Failed(error) => CreateOutcomeView::Storage(error),
    }
}

/// The outcome that the reply to an update amounts to: no row changed means
/// that the identifier is unknown.
pub open spec fn update_outcome(reply: UpdateReplyView) -> UpdateOutcomeView {
    match reply {
        UpdateReplyView::RowsAffected(rows) => if rows == 0 {
            UpdateOutcomeView::NotFound
        } else {
            UpdateOutcomeView::Updated
        },
        UpdateReplyView::Failed(error) => UpdateOutcomeView::Storage(error),
    }
}

/// The link to insert in order to create `id` with target `target_url`.
pub fn insert_request(id: String, target_url: String) -> (link: Link)
    requires
        id@.len() > 0,
        target_url@.len() > 0,
    ensures
        link@ == (LinkView { id: id@, target_url: target_url@ }),
        link@.storable(),
{
    Link::new(id, target_url)
}

/// The link, as it is to read afterwards, to hand to the store in order to
/// change the target of `id` to `new_target_url`.
pub fn update_request(id: String, new_target_url: String) -> (link: Link)
    requires
        id@.len() > 0,
        new_target_url@.len() > 0,
    ensures
        link@ == (LinkView { id: id@, target_url: new_target_url@ }),
        link@.storable(),
{
    Link::new(id, new_target_url)
}

/// Classifies the reply to the insert of `link`.
pub fn create(link: Link, reply: InsertReply) -> (outcome: CreateOutcome)
    requires
        link@.storable(),
    ensures
        outcome@ == create_outcome(link@, reply@),
{
    match reply {
        InsertReply::Inserted => CreateOutcome::Created(link),
        InsertReply::Failed(error) => CreateOutcome::Storage(error),
    }
}

/// Classifies the reply to an update of a target.
pub fn update(reply: UpdateReply) -> (outcome: UpdateOutcome)
    ensures
        outcome@ == update_outcome(reply@),
{
    match reply {
        UpdateReply::RowsAffected(rows) => if rows == 0 {
            UpdateOutcome::NotFound
        } else {
            UpdateOutcome::Updated
        },
        UpdateReply::Failed(error) => UpdateOutcome::Storage(error),
    }
}

} // verus!
