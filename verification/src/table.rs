//! The table of links that a store holds, as a mathematical map, and the
//! table that a history of writes leaves behind.

use vstd::prelude::*;
use crate::link::LinkView;

verus! {

/// What a store holds: the target address of each identifier.
pub type LinkTable = Map<Seq<char>, Seq<char>>;

/// A table is valid when it is finite and holds no link under the empty
/// identifier. That each identifier has one target is in the nature of a map.
pub open spec fn table_valid(table: LinkTable) -> bool {
    table.dom().finite() && !table.contains_key(Seq::<char>::empty())
}

/// The link that `table` holds under `id`, if any.
pub open spec fn stored(table: LinkTable, id: Seq<char>) -> Option<LinkView> {
    if table.contains_key(id) {
        Some(LinkView { id, target_url: table[id] })
    } else {
        None
    }
}

/// The table left by writing the links of `writes` in order into an empty
/// store, a later write to an identifier replacing the earlier one.
pub open spec fn table_of(writes: Seq<LinkView>) -> LinkTable
    decreases writes.len(),
{
    if writes.len() == 0 {
        Map::empty()
    } else {
        table_of(writes.drop_last()).insert(writes.last().id, writes.last().target_url)
    }
}

/// The target that the last write to `id` among `writes` gave it, if there
/// is such a write.
pub open spec fn latest_target(writes: Seq<LinkView>, id: Seq<char>) -> Option<Seq<char>>
    decreases writes.len(),
{
    if writes.len() == 0 {
        None
    } else if writes.last().id == id {
        Some(writes.last().target_url)
    } else {
        latest_target(writes.drop_last(), id)
    }
}

/// No two links of `links` share an identifier.
pub open spec fn distinct_ids(links: Seq<LinkView>) -> bool {
    forall|i: int, j: int|
        0 <= i < j < links.len() ==> (#[trigger] links[i]).id != (#[trigger] links[j]).id
}

/// The table of a history holds, under each identifier, the target of the
/// last write to it, and nothing under an identifier never written.
pub proof fn lemma_table_of_latest(writes: Seq<LinkView>, id: Seq<char>)
    ensures
        table_of(writes).contains_key(id) <==> latest_target(writes, id) is Some,
        table_of(writes).contains_key(id) ==> latest_target(writes, id) == Some(
            table_of(writes)[id],
        ),
    decreases writes.len(),
{
    if writes.len() > 0 {
        lemma_table_of_latest(writes.drop_last(), id);
    }
}

/// An identifier that no write names has no last write.
pub proof fn lemma_latest_target_unwritten(writes: Seq<LinkView>, id: Seq<char>)
    requires
        forall|i: int| 0 <= i < writes.len() ==> (#[trigger] writes[i]).id != id,
    ensures
        latest_target(writes, id) is None,
        !table_of(writes).contains_key(id),
    decreases writes.len(),
{
    if writes.len() > 0 {
        assert(writes.last() == writes[writes.len() - 1]);
        assert forall|i: int| 0 <= i < writes.drop_last().len() implies (
        #[trigger] writes.drop_last()[i]).id != id by {
            assert(writes.drop_last()[i] == writes[i]);
        }
        lemma_latest_target_unwritten(writes.drop_last(), id);
    }
}

/// The table of a history in which no write names the empty identifier is
/// valid.
pub proof fn lemma_table_of_valid(writes: Seq<LinkView>)
    requires
        forall|i: int| 0 <= i < writes.len() ==> (#[trigger] writes[i]).id.len() > 0,
    ensures
        table_valid(table_of(writes)),
    decreases writes.len(),
{
    if writes.len() > 0 {
        assert forall|i: int| 0 <= i < writes.drop_last().len() implies (
        #[trigger] writes.drop_last()[i]).id.len() > 0 by {
            assert(writes.drop_last()[i] == writes[i]);
        }
        lemma_table_of_valid(writes.drop_last());
        assert(writes.last() == writes[writes.len() - 1]);
        assert(writes.last().id !~= Seq::<char>::empty());
    }
}

/// Where identifiers are distinct, the table holds each link under its own
/// identifier.
pub proof fn lemma_table_of_distinct(links: Seq<LinkView>, at: int)
    requires
        distinct_ids(links),
        0 <= at < links.len(),
    ensures
        stored(table_of(links), links[at].id) == Some(links[at]),
    decreases links.len(),
{
    let last = links.len() - 1;
    if at < last {
        assert(links[last] == links.last());
        assert(links.drop_last()[at] == links[at]);
        assert(distinct_ids(links.drop_last())) by {
            assert forall|i: int, j: int| 0 <= i < j < links.drop_last().len() implies (
            #[trigger] links.drop_last()[i]).id != (#[trigger] links.drop_last()[j]).id by {
                assert(links.drop_last()[i] == links[i]);
                assert(links.drop_last()[j] == links[j]);
            }
        }
        lemma_table_of_distinct(links.drop_last(), at);
    }
}

/// Appending a link to a history inserts it into the table.
pub proof fn lemma_table_of_push(links: Seq<LinkView>, link: LinkView)
    ensures
        table_of(links.push(link)) == table_of(links).insert(link.id, link.target_url),
{
    assert(links.push(link).drop_last() =~= links);
}

/// Where identifiers are distinct, giving the link at one position a new
/// target changes the table as an insert under its identifier does.
pub proof fn lemma_table_of_retarget(links: Seq<LinkView>, at: int, target_url: Seq<char>)
    requires
        distinct_ids(links),
        0 <= at < links.len(),
    ensures
        table_of(links.update(at, LinkView { id: links[at].id, target_url }))
            == table_of(links).insert(links[at].id, target_url),
    decreases links.len(),
{
    let changed = links.update(at, LinkView { id: links[at].id, target_url });
    let last = links.len() - 1;
    if at == last {
        assert(changed.drop_last() =~= links.drop_last());
        assert(table_of(changed) =~= table_of(links).insert(links[at].id, target_url));
    } else {
        assert(links[last] == links.last());
        assert(links.drop_last()[at] == links[at]);
        assert(distinct_ids(links.drop_last())) by {
            assert forall|i: int, j: int| 0 <= i < j < links.drop_last().len() implies (
            #[trigger] links.drop_last()[i]).id != (#[trigger] links.drop_last()[j]).id by {
                assert(links.drop_last()[i] == links[i]);
                assert(links.drop_last()[j] == links[j]);
            }
        }
        lemma_table_of_retarget(links.drop_last(), at, target_url);
        assert(changed.drop_last() =~= links.drop_last().update(
            at,
            LinkView { id: links[at].id, target_url },
        ));
        assert(changed.last() == links.last());
        assert(table_of(changed) =~= table_of(links).insert(links[at].id, target_url));
    }
}

} // verus!
