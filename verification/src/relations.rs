//! Which rows belong to which: the rows of a table that point to a given
//! owner, in the order in which they were built, and what they add up to.

use vstd::prelude::*;
use crate::rows::{CallTraceRowView, EventRowView, TransactionRowView};
use crate::state::StagedRowsView;

verus! {

/// A row seen as a child: the row it points to, its own identifier, and
/// what it contributes to its owner's totals.
pub struct Link {
    pub owner: u64,
    pub id: u64,
    pub fee: nat,
    pub size: nat,
}

/// The identifiers of the links that point to `owner`, in order.
pub open spec fn children(links: Seq<Link>, owner: u64) -> Seq<u64>
    decreases links.len(),
{
    if links.len() == 0 {
        Seq::empty()
    } else {
        let rest = children(links.drop_last(), owner);
        if links.last().owner == owner {
            rest.push(links.last().id)
        } else {
            rest
        }
    }
}

/// The sum of the fees of the links that point to `owner`.
pub open spec fn total_fee(links: Seq<Link>, owner: u64) -> nat
    decreases links.len(),
{
    if links.len() == 0 {
        0
    } else {
        let rest = total_fee(links.drop_last(), owner);
        if links.last().owner == owner {
            rest + links.last().fee
        } else {
            rest
        }
    }
}

/// The sum of the sizes of the links that point to `owner`.
pub open spec fn total_size(links: Seq<Link>, owner: u64) -> nat
    decreases links.len(),
{
    if links.len() == 0 {
        0
    } else {
        let rest = total_size(links.drop_last(), owner);
        if links.last().owner == owner {
            rest + links.last().size
        } else {
            rest
        }
    }
}

/// A transaction row as a child of its block. A row without a fee or a
/// size contributes nothing.
pub open spec fn transaction_link(row: TransactionRowView) -> Link {
    Link {
        owner: row.relation_block,
        id: row.id,
        fee: match row.fee {
            Some(fee) => fee as nat,
            None => 0,
        },
        size: match row.size {
            Some(size) => size as nat,
            None => 0,
        },
    }
}

/// An event row as a child of its block.
pub open spec fn event_block_link(row: EventRowView) -> Link {
    Link { owner: row.relation_block, id: row.id, fee: 0, size: 0 }
}

/// An event row as a child of its transaction.
pub open spec fn event_transaction_link(row: EventRowView) -> Link {
    Link { owner: row.relation_transaction, id: row.id, fee: 0, size: 0 }
}

/// A call trace row as a child of its block.
pub open spec fn call_trace_block_link(row: CallTraceRowView) -> Link {
    Link { owner: row.relation_block, id: row.id, fee: 0, size: 0 }
}

/// A call trace row as a child of its transaction.
pub open spec fn call_trace_transaction_link(row: CallTraceRowView) -> Link {
    Link { owner: row.relation_transaction, id: row.id, fee: 0, size: 0 }
}

/// The staged transactions as children of their blocks.
pub open spec fn transaction_links(rows: Seq<TransactionRowView>) -> Seq<Link> {
    Seq::new(rows.len(), |i: int| transaction_link(rows[i]))
}

/// The staged events as children of their blocks.
pub open spec fn event_block_links(rows: Seq<EventRowView>) -> Seq<Link> {
    Seq::new(rows.len(), |i: int| event_block_link(rows[i]))
}

/// The staged events as children of their transactions.
pub open spec fn event_transaction_links(rows: Seq<EventRowView>) -> Seq<Link> {
    Seq::new(rows.len(), |i: int| event_transaction_link(rows[i]))
}

/// The staged call traces as children of their blocks.
pub open spec fn call_trace_block_links(rows: Seq<CallTraceRowView>) -> Seq<Link> {
    Seq::new(rows.len(), |i: int| call_trace_block_link(rows[i]))
}

/// The staged call traces as children of their transactions.
pub open spec fn call_trace_transaction_links(rows: Seq<CallTraceRowView>) -> Seq<Link> {
    Seq::new(rows.len(), |i: int| call_trace_transaction_link(rows[i]))
}

impl StagedRowsView {
    /// The identifiers of the staged transactions of the block, in order.
    pub open spec fn transactions_of_block(self, block_id: u64) -> Seq<u64> {
        children(transaction_links(self.transactions), block_id)
    }

    /// The identifiers of the staged events of the block, in order.
    pub open spec fn events_of_block(self, block_id: u64) -> Seq<u64> {
        children(event_block_links(self.events), block_id)
    }

    /// The identifiers of the staged call traces of the block, in order.
    pub open spec fn call_traces_of_block(self, block_id: u64) -> Seq<u64> {
        children(call_trace_block_links(self.call_traces), block_id)
    }

    /// The identifiers of the staged events of the transaction, in order.
    pub open spec fn events_of_transaction(self, transaction_id: u64) -> Seq<u64> {
        children(event_transaction_links(self.events), transaction_id)
    }

    /// The identifiers of the staged call traces of the transaction, in
    /// order.
    pub open spec fn call_traces_of_transaction(self, transaction_id: u64) -> Seq<u64> {
        children(call_trace_transaction_links(self.call_traces), transaction_id)
    }

    /// The sum of the fees of the staged transactions of the block.
    pub open spec fn fee_of_block(self, block_id: u64) -> nat {
        total_fee(transaction_links(self.transactions), block_id)
    }

    /// The sum of the sizes of the staged transactions of the block.
    pub open spec fn size_of_block(self, block_id: u64) -> nat {
        total_size(transaction_links(self.transactions), block_id)
    }
}

/// One more link adds its identifier to its owner's children and to no
/// other's.
pub proof fn lemma_children_push(links: Seq<Link>, link: Link, owner: u64)
    ensures
        children(links.push(link), owner) == if link.owner == owner {
            children(links, owner).push(link.id)
        } else {
            children(links, owner)
        },
{
    assert(links.push(link).drop_last() =~= links);
}

/// One more link adds its fee and size to its owner's totals and to no
/// other's.
pub proof fn lemma_totals_push(links: Seq<Link>, link: Link, owner: u64)
    ensures
        total_fee(links.push(link), owner) == if link.owner == owner {
            total_fee(links, owner) + link.fee
        } else {
            total_fee(links, owner)
        },
        total_size(links.push(link), owner) == if link.owner == owner {
            total_size(links, owner) + link.size
        } else {
            total_size(links, owner)
        },
{
    assert(links.push(link).drop_last() =~= links);
}

/// The children among two runs of links are those of the first run, then
/// those of the second.
pub proof fn lemma_children_add(first: Seq<Link>, second: Seq<Link>, owner: u64)
    ensures
        children(first + second, owner) == children(first, owner) + children(second, owner),
    decreases second.len(),
{
    if second.len() == 0 {
        assert(first + second =~= first);
        assert(children(first, owner) + children(second, owner) =~= children(first, owner));
    } else {
        lemma_children_add(first, second.drop_last(), owner);
        assert((first + second).drop_last() =~= first + second.drop_last());
        assert((first + second).last() == second.last());
        let rest = children(first, owner) + children(second.drop_last(), owner);
        if second.last().owner == owner {
            assert(rest.push(second.last().id) =~= children(first, owner) + children(
                second,
                owner,
            ));
        }
    }
}

/// Links that all point elsewhere give the owner no child.
pub proof fn lemma_children_none(links: Seq<Link>, owner: u64)
    requires
        forall|i: int| 0 <= i < links.len() ==> (#[trigger] links[i]).owner != owner,
    ensures
        children(links, owner) == Seq::<u64>::empty(),
        total_fee(links, owner) == 0,
        total_size(links, owner) == 0,
    decreases links.len(),
{
    if links.len() > 0 {
        let rest = links.drop_last();
        assert forall|i: int| 0 <= i < rest.len() implies (#[trigger] rest[i]).owner != owner by {
            assert(rest[i] == links[i]);
        }
        lemma_children_none(rest, owner);
        assert(links.last() == links[links.len() - 1]);
    }
}

/// An owner without children has no link that points to it.
pub proof fn lemma_children_empty(links: Seq<Link>, owner: u64)
    requires
        children(links, owner).len() == 0,
    ensures
        forall|i: int| 0 <= i < links.len() ==> (#[trigger] links[i]).owner != owner,
    decreases links.len(),
{
    if links.len() > 0 {
        let rest = links.drop_last();
        assert(links.last() == links[links.len() - 1]);
        lemma_children_empty(rest, owner);
        assert forall|i: int| 0 <= i < links.len() implies (#[trigger] links[i]).owner != owner by {
            if i < rest.len() {
                assert(rest[i] == links[i]);
            }
        }
    }
}

/// Links that all point to the owner give it their identifiers, in order.
pub proof fn lemma_children_all(links: Seq<Link>, owner: u64)
    requires
        forall|i: int| 0 <= i < links.len() ==> (#[trigger] links[i]).owner == owner,
    ensures
        children(links, owner) == Seq::new(links.len(), |i: int| links[i].id),
    decreases links.len(),
{
    if links.len() == 0 {
        assert(children(links, owner) =~= Seq::new(links.len(), |i: int| links[i].id));
    } else {
        let rest = links.drop_last();
        assert forall|i: int| 0 <= i < rest.len() implies (#[trigger] rest[i]).owner == owner by {
            assert(rest[i] == links[i]);
        }
        lemma_children_all(rest, owner);
        assert(links.last() == links[links.len() - 1]);
        assert(children(links, owner) =~= Seq::new(links.len(), |i: int| links[i].id));
    }
}

} // verus!
