//! The protocol spoken with the link store.
//!
//! The store itself lives outside this library. What the library knows of it
//! is the shape of its replies and, as specification, what a store holding a
//! given table of links may reply to each of its three operations.

use vstd::prelude::*;
use crate::link::{Link, LinkView};
use crate::table::{stored, LinkTable};

verus! {

/// Why the store refused or failed an operation.
#[derive(Debug, Clone, Copy, PartialEq, Eq)]
pub enum StoreErrorKind {
    /// The identifier of a link to insert is already taken.
    UniqueViolation,
    /// Any other failure: connectivity, a broken query, a violated constraint.
    Other,
}

/// A failure reported by the store, with the cause it gave.
#[derive(Debug, Clone, PartialEq, Eq)]
pub struct StoreError {
    pub kind: StoreErrorKind,
    pub cause: String,
}

/// The mathematical value of a [`StoreError`].
pub struct StoreErrorView {
    pub kind: StoreErrorKind,
    pub cause: Seq<char>,
}

impl View for StoreError {
    type V = StoreErrorView;

    open spec fn view(&self) -> StoreErrorView {
        StoreErrorView { kind: self.kind, cause: self.cause@ }
    }
}

/// How a lookup by identifier ended.
#[derive(Debug, Clone, PartialEq, Eq)]
pub enum LookupReply {
    /// The deadline passed before the store answered.
    DeadlineExceeded,
    /// The store answered with a failure.
    Failed(StoreError),
    /// The store answered with the link it holds, if any.
    Completed(Option<Link>),
}

/// The mathematical value of a [`LookupReply`].
pub enum LookupReplyView {
    DeadlineExceeded,
    Failed(StoreErrorView),
    Completed(Option<LinkView>),
}

impl View for LookupReply {
    type V = LookupReplyView;

    open spec fn view(&self) -> LookupReplyView {
        match self {
            LookupReply::DeadlineExceeded => LookupReplyView::DeadlineExceeded,
            LookupReply::Failed(error) => LookupReplyView::Failed(error@),
            LookupReply::Completed(Some(link)) => LookupReplyView::Completed(Some(link@)),
            LookupReply::Completed(None) => LookupReplyView::Completed(None),
        }
    }
}

/// How an insert ended.
#[derive(Debug, Clone, PartialEq, Eq)]
pub enum InsertReply {
    /// The store answered with a failure and kept its table.
    Failed(StoreError),
    /// The store took the link.
    Inserted,
}

/// The mathematical value of an [`InsertReply`].
pub enum InsertReplyView {
    Failed(StoreErrorView),
    Inserted,
}

impl View for InsertReply {
    type V = InsertReplyView;

    open spec fn view(&self) -> InsertReplyView {
        match self {
            InsertReply::Failed(error) => InsertReplyView::Failed(error@),
            InsertReply::Inserted => InsertReplyView::Inserted,
        }
    }
}

/// How an update of a target ended.
#[derive(Debug, Clone, PartialEq, Eq)]
pub enum UpdateReply {
    /// The store answered with a failure and kept its table.
    Failed(StoreError),
    /// The store answered with the number of rows it changed.
    RowsAffected(u64),
}

/// The mathematical value of an [`UpdateReply`].
pub enum UpdateReplyView {
    Failed(StoreErrorView),
    RowsAffected(u64),
}

impl View for UpdateReply {
    type V = UpdateReplyView;

    open spec fn view(&self) -> UpdateReplyView {
        match self {
            UpdateReply::Failed(error) => UpdateReplyView::Failed(error@),
            UpdateReply::RowsAffected(rows) => UpdateReplyView::RowsAffected(*rows),
        }
    }
}

/// What a store holding `table` may reply to a lookup of `id`: when it
/// answers in time and without failure, it answers with the link it holds.
pub open spec fn lookup_conforms(table: LinkTable, id: Seq<char>, reply: LookupReplyView) -> bool {
    reply matches LookupReplyView::Completed(found) ==> found == stored(table, id)
}

/// What a store holding `before` may reply to an insert of `link`, and the
/// table `after` it. It takes the link exactly when the identifier is free; a
/// taken identifier is a failure, which only an engine that tells the
/// failures apart reports as a unique violation. A failure leaves the table
/// as it was.
pub open spec fn insert_conforms(
    before: LinkTable,
    link: LinkView,
    reply: InsertReplyView,
    after: LinkTable,
) -> bool {
    match reply {
        InsertReplyView::Inserted => {
            &&& !before.contains_key(link.id)
            &&& after == before.insert(link.id, link.target_url)
        },
        InsertReplyView::Failed(error) => {
            &&& after == before
            &&& error.kind == StoreErrorKind::UniqueViolation ==> before.contains_key(link.id)
        },
    }
}

/// What a store holding `before` may reply to an update of the target of
/// `id`, and the table `after` it. It changes the one row of `id` where there
/// is one and no row otherwise, and reports how many it changed. A failure
/// leaves the table as it was.
pub open spec fn update_conforms(
    before: LinkTable,
    id: Seq<char>,
    target_url: Seq<char>,
    reply: UpdateReplyView,
    after: LinkTable,
) -> bool {
    match reply {
        UpdateReplyView::RowsAffected(rows) => {
            if before.contains_key(id) {
                rows == 1 && after == before.insert(id, target_url)
            } else {
                rows == 0 && after == before
            }
        },
        UpdateReplyView::Failed(_) => after == before,
    }
}

} // verus!
