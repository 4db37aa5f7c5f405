//! A store that keeps its links in memory. It answers at once and fails only
//! where the rules of the table forbid a write.

use vstd::prelude::*;
use crate::link::{Link, LinkView};
use crate::store::{
    insert_conforms, lookup_conforms, update_conforms, InsertReply, InsertReplyView, LookupReply,
    LookupReplyView, StoreError, StoreErrorKind, StoreErrorView, UpdateReply, UpdateReplyView,
};
use crate::table::{
    distinct_ids, lemma_latest_target_unwritten, lemma_table_of_distinct, lemma_table_of_push,
    lemma_table_of_retarget, lemma_table_of_valid, stored, table_of, table_valid, LinkTable,
};

verus! {

/// The cause reported for an insert under a taken identifier.
pub const DUPLICATE_ID_CAUSE: &'static str = "duplicate identifier";

/// The cause reported for an insert under the empty identifier.
pub const EMPTY_ID_CAUSE: &'static str = "empty identifier";

/// What the memory store replies to an insert of `link` into `table`.
pub open spec fn memory_insert_reply(table: LinkTable, link: LinkView) -> InsertReplyView {
    if table.contains_key(link.id) {
        InsertReplyView::Failed(
            StoreErrorView { kind: StoreErrorKind::UniqueViolation, cause: DUPLICATE_ID_CAUSE@ },
        )
    } else if link.id.len() == 0 {
        InsertReplyView::Failed(
            StoreErrorView { kind: StoreErrorKind::Other, cause: EMPTY_ID_CAUSE@ },
        )
    } else {
        InsertReplyView::Inserted
    }
}

/// The table of the memory store after an insert of `link` into `table`.
pub open spec fn memory_after_insert(table: LinkTable, link: LinkView) -> LinkTable {
    if memory_insert_reply(table, link) is Inserted {
        table.insert(link.id, link.target_url)
    } else {
        table
    }
}

/// What the memory store replies to an update of `id` in `table`.
pub open spec fn memory_update_reply(table: LinkTable, id: Seq<char>) -> UpdateReplyView {
    if table.contains_key(id) {
        UpdateReplyView::RowsAffected(1)
    } else {
        UpdateReplyView::RowsAffected(0)
    }
}

/// The table of the memory store after an update of `id` in `table`.
pub open spec fn memory_after_update(
    table: LinkTable,
    id: Seq<char>,
    target_url: Seq<char>,
) -> LinkTable {
    if table.contains_key(id) {
        table.insert(id, target_url)
    } else {
        table
    }
}

/// A link store in memory.
pub struct MemoryStore {
    rows: Vec<Link>,
}

impl MemoryStore {
    /// The rows as mathematical links.
    spec fn links(&self) -> Seq<LinkView> {
        self.rows@.map_values(|row: Link| row@)
    }

    #[verifier::type_invariant]
    spec fn well_formed(&self) -> bool {
        &&& distinct_ids(self.links())
        &&& forall|i: int| 0 <= i < self.links().len() ==> (#[trigger] self.links()[i]).id.len() > 0
    }

    /// A store that holds no link.
    pub fn new() -> (store: MemoryStore)
        ensures
            store@ == Map::<Seq<char>, Seq<char>>::empty(),
            table_valid(store@),
    {
        let store = MemoryStore { rows: Vec::new() };
        assert(store.links() =~= Seq::empty());
        store
    }

    /// The position of the row of `id`, if there is one.
    fn position(&self, id: &String) -> (found: Option<usize>)
        ensures
            match found {
                Some(at) => at < self.links().len() && self.links()[at as int].id == id@,
                None => forall|i: int|
                    0 <= i < self.links().len() ==> (#[trigger] self.links()[i]).id != id@,
            },
    {
        let mut at: usize = 0;
        while at < self.rows.len()
            invariant
                at <= self.rows.len(),
                self.links().len() == self.rows.len(),
                forall|i: int| 0 <= i < at ==> (#[trigger] self.links()[i]).id != id@,
            decreases self.rows.len() - at,
        {
            if self.rows[at].id == *id {
                return Some(at);
            }
            at += 1;
        }
        None
    }

    /// Looks `id` up. The reply is the link held under it, if any.
    pub fn get(&self, id: &str) -> (reply: LookupReply)
        ensures
            reply@ == LookupReplyView::Completed(stored(self@, id@)),
            lookup_conforms(self@, id@, reply@),
            table_valid(self@),
    {
        proof {
            use_type_invariant(self);
            lemma_table_of_valid(self.links());
        }
        let key = id.to_owned();
        match self.position(&key) {
            Some(at) => {
                proof {
                    lemma_table_of_distinct(self.links(), at as int);
                }
                LookupReply::Completed(Some(self.rows[at].duplicate()))
            },
            None => {
                proof {
                    lemma_latest_target_unwritten(self.links(), id@);
                }
                LookupReply::Completed(None)
            },
        }
    }

    /// Inserts `link`. A taken identifier is refused as a unique violation
    /// and the empty identifier as a failure of the other kind; either
    /// leaves the table as it was.
    pub fn insert(&mut self, link: Link) -> (reply: InsertReply)
        ensures
            reply@ == memory_insert_reply(old(self)@, link@),
            final(self)@ == memory_after_insert(old(self)@, link@),
            insert_conforms(old(self)@, link@, reply@, final(self)@),
            table_valid(final(self)@),
    {
        proof {
            use_type_invariant(&*self);
            lemma_table_of_valid(self.links());
        }
        match self.position(&link.id) {
            Some(at) => {
                proof {
                    lemma_table_of_distinct(self.links(), at as int);
                }
                InsertReply::Failed(
                    StoreError {
                        kind: StoreErrorKind::UniqueViolation,
                        cause: DUPLICATE_ID_CAUSE.to_owned(),
                    },
                )
            },
            None => {
                proof {
                    lemma_latest_target_unwritten(self.links(), link@.id);
                }
                if link.id.as_str().is_empty() {
                    InsertReply::Failed(
                        StoreError { kind: StoreErrorKind::Other, cause: EMPTY_ID_CAUSE.to_owned() },
                    )
                } else {
                    let ghost before = self.links();
                    let ghost added = link@;
                    let mut rows: Vec<Link> = Vec::new();
                    std::mem::swap(&mut rows, &mut self.rows);
                    rows.push(link);
                    proof {
                        assert(rows@.map_values(|row: Link| row@) =~= before.push(added));
                        lemma_table_of_push(before, added);
                    }
                    self.rows = rows;
                    InsertReply::Inserted
                }
            },
        }
    }

    /// Gives the link under `id` the target `target_url`. The reply is the
    /// number of rows changed: one where the identifier is known, none
    /// otherwise.
    pub fn update_target(&mut self, id: &str, target_url: String) -> (reply: UpdateReply)
        ensures
            reply@ == memory_update_reply(old(self)@, id@),
            final(self)@ == memory_after_update(old(self)@, id@, target_url@),
            update_conforms(old(self)@, id@, target_url@, reply@, final(self)@),
            table_valid(final(self)@),
    {
        proof {
            use_type_invariant(&*self);
            lemma_table_of_valid(self.links());
        }
        let key = id.to_owned();
        match self.position(&key) {
            Some(at) => {
                let ghost before = self.links();
                proof {
                    lemma_table_of_distinct(before, at as int);
                    lemma_table_of_retarget(before, at as int, target_url@);
                }
                let ghost changed = before.update(
                    at as int,
                    LinkView { id: before[at as int].id, target_url: target_url@ },
                );
                let mut rows: Vec<Link> = Vec::new();
                std::mem::swap(&mut rows, &mut self.rows);
                rows.set(at, Link { id: key, target_url });
                proof {
                    assert(rows@.map_values(|row: Link| row@) =~= changed);
                    assert(distinct_ids(changed)) by {
                        assert forall|i: int, j: int| 0 <= i < j < changed.len() implies (
                        #[trigger] changed[i]).id != (#[trigger] changed[j]).id by {
                            assert(changed[i].id == before[i].id);
                            assert(changed[j].id == before[j].id);
                        }
                    }
                    assert forall|i: int| 0 <= i < changed.len() implies (
                    #[trigger] changed[i]).id.len() > 0 by {
                        assert(changed[i].id == before[i].id);
                    }
                }
                self.rows = rows;
                UpdateReply::RowsAffected(1)
            },
            None => {
                proof {
                    lemma_latest_target_unwritten(self.links(), id@);
                }
                UpdateReply::RowsAffected(0)
            },
        }
    }
}

impl View for MemoryStore {
    type V = LinkTable;

    closed spec fn view(&self) -> LinkTable {
        table_of(self.links())
    }
}

} // verus!
