//! What holds of resolving, creating and updating against any store that
//! keeps to the protocol.

use vstd::prelude::*;
use crate::link::LinkView;
use crate::mutator::{create_outcome, update_outcome, CreateOutcomeView, UpdateOutcomeView};
use crate::resolver::{redirect_outcome, RedirectOutcomeView};
use crate::store::{
    insert_conforms, lookup_conforms, update_conforms, InsertReplyView, LookupReplyView,
    UpdateReplyView,
};
use crate::table::{
    latest_target, lemma_latest_target_unwritten, lemma_table_of_latest, lemma_table_of_push,
    stored, table_of, table_valid, LinkTable,
};

verus! {

/// Whatever the store replies to a lookup of `id`, resolving yields the
/// target held under `id` or reports that none is held, unless the deadline
/// passed or the store failed; it never yields another target.
pub proof fn lemma_resolve_reads_table(table: LinkTable, id: Seq<char>, reply: LookupReplyView)
    requires
        lookup_conforms(table, id, reply),
    ensures
        reply is Completed && table.contains_key(id) ==> redirect_outcome(reply)
            == RedirectOutcomeView::Found(table[id]),
        reply is Completed && !table.contains_key(id) ==> redirect_outcome(reply)
            == RedirectOutcomeView::NotFound,
        redirect_outcome(reply) matches RedirectOutcomeView::Found(target_url)
            ==> table.contains_key(id) && table[id] == target_url,
        redirect_outcome(reply) is NotFound ==> !table.contains_key(id),
{
}

/// Resolving a stored identifier yields the target most recently written
/// for it: where the store holds the table left by `writes` and answers the
/// lookup, the outcome is the target of the last write to `id`.
pub proof fn lemma_resolve_latest_write(
    writes: Seq<LinkView>,
    id: Seq<char>,
    reply: LookupReplyView,
)
    requires
        lookup_conforms(table_of(writes), id, reply),
        reply is Completed,
        latest_target(writes, id) is Some,
    ensures
        redirect_outcome(reply) == RedirectOutcomeView::Found(latest_target(writes, id)->0),
{
    lemma_table_of_latest(writes, id);
}

/// Resolving an identifier that was never written reports that it is not
/// found, where the store answers the lookup.
pub proof fn lemma_resolve_never_written(
    writes: Seq<LinkView>,
    id: Seq<char>,
    reply: LookupReplyView,
)
    requires
        forall|i: int| 0 <= i < writes.len() ==> (#[trigger] writes[i]).id != id,
        lookup_conforms(table_of(writes), id, reply),
        reply is Completed,
    ensures
        redirect_outcome(reply) == RedirectOutcomeView::NotFound,
{
    lemma_latest_target_unwritten(writes, id);
}

/// A lookup that misses its deadline resolves to a timeout, whatever the
/// store holds: never to a target, and never to not found.
pub proof fn lemma_deadline_is_timeout(reply: LookupReplyView)
    requires
        reply is DeadlineExceeded,
    ensures
        redirect_outcome(reply) == RedirectOutcomeView::Timeout,
        !(redirect_outcome(reply) is Found),
        !(redirect_outcome(reply) is NotFound),
{
}

/// Resolving right after a create yields the created target, where the
/// store took the link or already held it with that target, and answers the
/// lookup.
pub proof fn lemma_create_then_resolve(
    before: LinkTable,
    link: LinkView,
    inserted: InsertReplyView,
    after: LinkTable,
    looked_up: LookupReplyView,
)
    requires
        insert_conforms(before, link, inserted, after),
        create_outcome(link, inserted) is Created || stored(before, link.id) == Some(link),
        lookup_conforms(after, link.id, looked_up),
        looked_up is Completed,
    ensures
        redirect_outcome(looked_up) == RedirectOutcomeView::Found(link.target_url),
{
}

/// A create that the store refuses leaves every identifier resolving as
/// before.
pub proof fn lemma_failed_create_changes_nothing(
    before: LinkTable,
    link: LinkView,
    inserted: InsertReplyView,
    after: LinkTable,
)
    requires
        insert_conforms(before, link, inserted, after),
        create_outcome(link, inserted) is Storage,
    ensures
        after == before,
{
}

/// Resolving right after an update yields the new target, whatever the
/// target was before, where the store changed the link or already held it
/// with that target, and answers the lookup.
pub proof fn lemma_update_then_resolve(
    before: LinkTable,
    id: Seq<char>,
    new_target_url: Seq<char>,
    updated: UpdateReplyView,
    after: LinkTable,
    looked_up: LookupReplyView,
)
    requires
        update_conforms(before, id, new_target_url, updated, after),
        update_outcome(updated) is Updated || (before.contains_key(id) && before[id]
            == new_target_url),
        lookup_conforms(after, id, looked_up),
        looked_up is Completed,
    ensures
        redirect_outcome(looked_up) == RedirectOutcomeView::Found(new_target_url),
{
}

/// Updating an identifier that the store does not hold reports that it is
/// not found, where the store answers, and resolving it afterwards still
/// reports that it is not found.
pub proof fn lemma_update_unwritten(
    before: LinkTable,
    id: Seq<char>,
    new_target_url: Seq<char>,
    updated: UpdateReplyView,
    after: LinkTable,
    looked_up: LookupReplyView,
)
    requires
        !before.contains_key(id),
        update_conforms(before, id, new_target_url, updated, after),
        lookup_conforms(after, id, looked_up),
    ensures
        updated is RowsAffected ==> update_outcome(updated) == UpdateOutcomeView::NotFound,
        !(update_outcome(updated) is Updated),
        looked_up is Completed ==> redirect_outcome(looked_up) == RedirectOutcomeView::NotFound,
        !(redirect_outcome(looked_up) is Found),
{
}

/// A store that holds the table left by `writes` and accepts one more write
/// holds the table left by `writes` followed by that write.
pub proof fn lemma_accepted_write_extends_history(
    writes: Seq<LinkView>,
    link: LinkView,
    inserted: InsertReplyView,
    updated: UpdateReplyView,
    after_insert: LinkTable,
    after_update: LinkTable,
)
    requires
        insert_conforms(table_of(writes), link, inserted, after_insert),
        update_conforms(table_of(writes), link.id, link.target_url, updated, after_update),
    ensures
        create_outcome(link, inserted) is Created ==> after_insert == table_of(writes.push(link)),
        update_outcome(updated) is Updated ==> after_update == table_of(writes.push(link)),
{
    lemma_table_of_push(writes, link);
}

/// An update reports success exactly when the store held the identifier and
/// answered, and it never adds or removes an identifier.
pub proof fn lemma_update_keeps_identifiers(
    before: LinkTable,
    id: Seq<char>,
    new_target_url: Seq<char>,
    updated: UpdateReplyView,
    after: LinkTable,
)
    requires
        update_conforms(before, id, new_target_url, updated, after),
    ensures
        after.dom() == before.dom(),
        forall|other: Seq<char>| other != id && before.contains_key(other) ==> after[other]
            == before[other],
        update_outcome(updated) is Updated ==> before.contains_key(id),
        update_outcome(updated) is NotFound ==> !before.contains_key(id),
{
    if before.contains_key(id) {
        assert(before.insert(id, new_target_url).dom() =~= before.dom());
    }
}

/// Writes of storable links keep a valid table valid: no link comes to
/// stand under the empty identifier.
pub proof fn lemma_writes_keep_table_valid(
    before: LinkTable,
    link: LinkView,
    inserted: InsertReplyView,
    updated: UpdateReplyView,
    after_insert: LinkTable,
    after_update: LinkTable,
)
    requires
        table_valid(before),
        link.storable(),
        insert_conforms(before, link, inserted, after_insert),
        update_conforms(before, link.id, link.target_url, updated, after_update),
    ensures
        table_valid(after_insert),
        table_valid(after_update),
{
    assert(link.id !~= Seq::<char>::empty());
}

} // verus!
