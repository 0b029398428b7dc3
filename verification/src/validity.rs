//! What holds of every state that an exporter can reach, and the proof that
//! every operation keeps it.

use vstd::prelude::*;
use crate::chain::{CallTraceView, ContractEventView, TransactionInfoView, TransactionView};
use crate::consistency::{
    lemma_add_current_block_keeps_copies, lemma_add_transaction_keeps_copies,
    lemma_complete_block_keeps_copies,
};
use crate::record::{
    call_trace_rows, event_rows, id_range, transaction_fee, transaction_row, transaction_size,
    tx_type,
};
use crate::relations::{
    call_trace_block_links, call_trace_transaction_links, event_block_links,
    event_transaction_links, lemma_children_add, lemma_children_all, lemma_children_none,
    lemma_children_push, lemma_totals_push, total_fee, transaction_link, transaction_links,
};
use crate::rows::TX_TYPE_USER;
use crate::state::{ExporterView, StreamStateView};
use crate::types::{BlockMetadataView, ChainId, Version};

verus! {

impl ExporterView {
    /// Identifiers are given out in order. The staged rows of the
    /// transactions, events and call traces tables carry, without a gap,
    /// the identifiers from the checkpointed one on. The staged rows of the
    /// blocks table carry rising identifiers; without a gap too, unless a
    /// block was marked as exported while it was open. An open block holds
    /// the last identifier given out, which no staged block row carries.
    pub open spec fn ids_wf(self) -> bool {
        let first = self.checkpointed.next_ids;
        let next = self.in_flight.next_ids;
        let rows = self.staged;
        &&& next.transactions == first.transactions + rows.transactions.len()
        &&& forall|i: int|
            0 <= i < rows.transactions.len() ==> (#[trigger] rows.transactions[i]).id
                == first.transactions + i
        &&& next.events == first.events + rows.events.len()
        &&& forall|i: int|
            0 <= i < rows.events.len() ==> (#[trigger] rows.events[i]).id == first.events + i
        &&& next.call_traces == first.call_traces + rows.call_traces.len()
        &&& forall|i: int|
            0 <= i < rows.call_traces.len() ==> (#[trigger] rows.call_traces[i]).id
                == first.call_traces + i
        &&& first.blocks <= next.blocks
        &&& forall|i: int|
            0 <= i < rows.blocks.len() ==> first.blocks <= (#[trigger] rows.blocks[i]).id
                < next.blocks
        &&& forall|i: int, j: int|
            0 <= i < j < rows.blocks.len() ==> (#[trigger] rows.blocks[i]).id < (
            #[trigger] rows.blocks[j]).id
        &&& self.is_open() ==> {
            &&& self.current_block_id + 1 == next.blocks
            &&& first.blocks <= self.current_block_id
            &&& forall|i: int|
                0 <= i < rows.blocks.len() ==> (#[trigger] rows.blocks[i]).id
                    < self.current_block_id
        }
        &&& !self.completion_skipped ==> {
            &&& next.blocks == first.blocks + rows.blocks.len() + if self.is_open() {
                1int
            } else {
                0int
            }
            &&& forall|i: int|
                0 <= i < rows.blocks.len() ==> (#[trigger] rows.blocks[i]).id == first.blocks
                    + i
        }
    }

    /// Every staged row points to a block and, for an event or a call
    /// trace, to a transaction whose identifier has been given out since
    /// the checkpoint. A staged transaction has a fee and a size exactly if
    /// an account submitted it.
    pub open spec fn owners_wf(self) -> bool {
        let first = self.checkpointed.next_ids;
        let next = self.in_flight.next_ids;
        let rows = self.staged;
        &&& forall|i: int|
            0 <= i < rows.transactions.len() ==> {
                let row = #[trigger] rows.transactions[i];
                &&& first.blocks <= row.relation_block < next.blocks
                &&& row.fee is Some <==> row.tx_type == TX_TYPE_USER
                &&& row.size is Some <==> row.tx_type == TX_TYPE_USER
            }
        &&& forall|i: int|
            0 <= i < rows.events.len() ==> {
                let row = #[trigger] rows.events[i];
                &&& first.blocks <= row.relation_block < next.blocks
                &&& first.transactions <= row.relation_transaction < next.transactions
            }
        &&& forall|i: int|
            0 <= i < rows.call_traces.len() ==> {
                let row = #[trigger] rows.call_traces[i];
                &&& first.blocks <= row.relation_block < next.blocks
                &&& first.transactions <= row.relation_transaction < next.transactions
            }
    }

    /// Every staged transaction lists exactly the staged events and call
    /// traces that point to it, in the order in which they were built.
    pub open spec fn transactions_wf(self) -> bool {
        let rows = self.staged;
        forall|k: int|
            0 <= k < rows.transactions.len() ==> {
                let row = #[trigger] rows.transactions[k];
                &&& row.relation_events == rows.events_of_transaction(row.id)
                &&& row.relation_call_traces == rows.call_traces_of_transaction(row.id)
            }
    }

    /// Every staged block lists exactly the staged transactions, events and
    /// call traces that point to it, in the order in which they were built;
    /// its fee and its size are the sums over its transactions, and its
    /// count is their number.
    pub open spec fn blocks_wf(self) -> bool {
        let rows = self.staged;
        forall|k: int|
            0 <= k < rows.blocks.len() ==> {
                let row = #[trigger] rows.blocks[k];
                &&& row.relation_transactions == rows.transactions_of_block(row.id)
                &&& row.relation_events == rows.events_of_block(row.id)
                &&& row.relation_call_traces == rows.call_traces_of_block(row.id)
                &&& row.total_fee == rows.fee_of_block(row.id)
                &&& row.size == rows.size_of_block(row.id)
                &&& row.transactions_count == row.relation_transactions.len()
            }
    }

    /// While a block is open, its buffers and totals account for exactly
    /// the rows staged for it.
    pub open spec fn open_block_wf(self) -> bool {
        let rows = self.staged;
        let block = self.current_block_id;
        self.is_open() ==> {
            &&& self.current_transaction_ids == rows.transactions_of_block(block)
            &&& self.current_event_ids == rows.events_of_block(block)
            &&& self.current_call_trace_ids == rows.call_traces_of_block(block)
            &&& self.block_total_fee == rows.fee_of_block(block)
            &&& self.block_size == rows.size_of_block(block)
            &&& self.transaction_index == self.current_transaction_ids.len()
        }
    }

    /// What holds of every state that an exporter can reach.
    pub open spec fn wf(self) -> bool {
        &&& self.ids_wf()
        &&& self.owners_wf()
        &&& self.transactions_wf()
        &&& self.blocks_wf()
        &&& self.open_block_wf()
        &&& self.positions_wf()
        &&& self.copies_wf()
    }
}

/// A new exporter is in a valid state.
pub proof fn lemma_initial_wf(
    chain_id: Option<ChainId>,
    position: StreamStateView,
    blocks_per_export: u32,
)
    ensures
        ExporterView::initial(chain_id, position, blocks_per_export).wf(),
{
}

/// Marking the current block as exported keeps the state valid.
pub proof fn lemma_set_block_already_exported_keeps_wf(s: ExporterView)
    requires
        s.wf(),
    ensures
        s.set_block_already_exported().wf(),
{
}

/// Opening a block keeps the state valid.
pub proof fn lemma_add_current_block_keeps_wf(
    s: ExporterView,
    block_metadata: BlockMetadataView,
    version: Version,
)
    requires
        s.wf(),
    ensures
        s.add_current_block(block_metadata, version).wf(),
{
    if s.add_current_block_result() is Ok {
        let t = s.add_current_block(block_metadata, version);
        let block = t.current_block_id;
        let rows = s.staged;
        assert(t.staged == rows);
        assert(block == s.in_flight.next_ids.blocks);
        lemma_children_none(transaction_links(rows.transactions), block);
        lemma_children_none(event_block_links(rows.events), block);
        lemma_children_none(call_trace_block_links(rows.call_traces), block);
        assert(t.ids_wf());
        assert(t.owners_wf());
        assert(t.transactions_wf());
        assert(t.blocks_wf());
        assert(t.open_block_wf());
        lemma_add_current_block_keeps_copies(s, block_metadata, version);
    }
}

/// Completing the current block keeps the state valid.
pub proof fn lemma_complete_block_keeps_wf(s: ExporterView)
    requires
        s.wf(),
    ensures
        s.complete_block().wf(),
{
    if s.is_open() {
        let t = s.complete_block();
        let row = s.current_block_row();
        assert(t.staged.blocks == s.staged.blocks.push(row));
        assert(t.staged.transactions == s.staged.transactions);
        assert(t.staged.events == s.staged.events);
        assert(t.staged.call_traces == s.staged.call_traces);
        assert(row.id == s.current_block_id);
        assert(t.ids_wf());
        assert(t.owners_wf());
        assert(t.transactions_wf());
        assert(t.blocks_wf()) by {
            assert forall|k: int| 0 <= k < t.staged.blocks.len() implies {
                let r = #[trigger] t.staged.blocks[k];
                &&& r.relation_transactions == t.staged.transactions_of_block(r.id)
                &&& r.relation_events == t.staged.events_of_block(r.id)
                &&& r.relation_call_traces == t.staged.call_traces_of_block(r.id)
                &&& r.total_fee == t.staged.fee_of_block(r.id)
                &&& r.size == t.staged.size_of_block(r.id)
                &&& r.transactions_count == r.relation_transactions.len()
            } by {
                if k < s.staged.blocks.len() {
                    assert(t.staged.blocks[k] == s.staged.blocks[k]);
                }
            }
        }
        assert(t.open_block_wf());
        lemma_complete_block_keeps_copies(s);
    }
}

/// A successful export leaves a valid state; a failed one changes nothing.
pub proof fn lemma_export_keeps_wf(s: ExporterView, written: bool)
    requires
        s.wf(),
    ensures
        s.export(written).wf(),
{
}

/// A rollback leaves a valid state, whatever the state before.
pub proof fn lemma_reset_keeps_wf(s: ExporterView)
    ensures
        s.reset_cached_data().wf(),
{
}

/// The state after a transaction was added, where it was accepted.
spec fn added(
    s: ExporterView,
    version: Version,
    transaction: TransactionView,
    info: TransactionInfoView,
    events: Seq<ContractEventView>,
    call_traces: Seq<CallTraceView>,
) -> ExporterView {
    s.add_transaction(version, transaction, info, events, call_traces)
}

/// What adding a transaction does to the links between the staged rows.
proof fn lemma_add_transaction_links(
    s: ExporterView,
    version: Version,
    transaction: TransactionView,
    info: TransactionInfoView,
    events: Seq<ContractEventView>,
    call_traces: Seq<CallTraceView>,
)
    requires
        s.wf(),
        s.add_transaction_result(version, transaction, info, events, call_traces) is Ok,
    ensures
        ({
            let t = added(s, version, transaction, info, events, call_traces);
            let ids = s.in_flight.next_ids;
            let block = s.current_block_id;
            let row = t.staged.transactions.last();
            let event_ids = id_range(ids.events, events.len());
            let call_trace_ids = id_range(ids.call_traces, call_traces.len());
            &&& t.staged.blocks == s.staged.blocks
            &&& t.staged.transactions == s.staged.transactions.push(row)
            &&& row.id == ids.transactions
            &&& row.relation_block == block
            &&& row.relation_events == event_ids
            &&& row.relation_call_traces == call_trace_ids
            &&& transaction_link(row).fee == transaction_fee(transaction, info.gas_used)
            &&& transaction_link(row).size == transaction_size(transaction)
            &&& forall|owner: u64|
                t.staged.transactions_of_block(owner) == if owner == block {
                    s.staged.transactions_of_block(owner).push(ids.transactions)
                } else {
                    #[trigger] s.staged.transactions_of_block(owner)
                }
            &&& forall|owner: u64|
                t.staged.fee_of_block(owner) == if owner == block {
                    s.staged.fee_of_block(owner) + transaction_fee(transaction, info.gas_used)
                } else {
                    #[trigger] s.staged.fee_of_block(owner) as int
                }
            &&& forall|owner: u64|
                t.staged.size_of_block(owner) == if owner == block {
                    s.staged.size_of_block(owner) + transaction_size(transaction)
                } else {
                    #[trigger] s.staged.size_of_block(owner) as int
                }
            &&& forall|owner: u64|
                t.staged.events_of_block(owner) == if owner == block {
                    s.staged.events_of_block(owner) + event_ids
                } else {
                    #[trigger] s.staged.events_of_block(owner)
                }
            &&& forall|owner: u64|
                t.staged.call_traces_of_block(owner) == if owner == block {
                    s.staged.call_traces_of_block(owner) + call_trace_ids
                } else {
                    #[trigger] s.staged.call_traces_of_block(owner)
                }
            &&& forall|owner: u64|
                t.staged.events_of_transaction(owner) == if owner == ids.transactions {
                    s.staged.events_of_transaction(owner) + event_ids
                } else {
                    #[trigger] s.staged.events_of_transaction(owner)
                }
            &&& forall|owner: u64|
                t.staged.call_traces_of_transaction(owner) == if owner == ids.transactions {
                    s.staged.call_traces_of_transaction(owner) + call_trace_ids
                } else {
                    #[trigger] s.staged.call_traces_of_transaction(owner)
                }
        }),
{
    let t = added(s, version, transaction, info, events, call_traces);
    let ids = s.in_flight.next_ids;
    let block = s.current_block_id;
    let event_ids = id_range(ids.events, events.len());
    let call_trace_ids = id_range(ids.call_traces, call_traces.len());
    let row = transaction_row(
        s.context(),
        ids.transactions,
        version,
        transaction,
        info,
        event_ids,
        call_trace_ids,
    );
    let new_events = event_rows(
        s.context(),
        ids.events,
        ids.transactions,
        version,
        info.transaction_hash,
        events,
    );
    let new_call_traces = call_trace_rows(
        s.context(),
        ids.call_traces,
        ids.transactions,
        version,
        info.transaction_hash,
        tx_type(transaction),
        call_traces,
    );
    assert(t.staged.transactions == s.staged.transactions.push(row));
    assert(t.staged.transactions.last() == row);
    assert(t.staged.events == s.staged.events + new_events);
    assert(t.staged.call_traces == s.staged.call_traces + new_call_traces);

    let old_links = transaction_links(s.staged.transactions);
    assert(transaction_links(t.staged.transactions) =~= old_links.push(transaction_link(row)));
    assert forall|owner: u64|
        t.staged.transactions_of_block(owner) == if owner == block {
            s.staged.transactions_of_block(owner).push(ids.transactions)
        } else {
            #[trigger] s.staged.transactions_of_block(owner)
        } by {
        lemma_children_push(old_links, transaction_link(row), owner);
    }
    assert forall|owner: u64|
        t.staged.fee_of_block(owner) == if owner == block {
            s.staged.fee_of_block(owner) + transaction_fee(transaction, info.gas_used)
        } else {
            #[trigger] s.staged.fee_of_block(owner) as int
        } by {
        lemma_totals_push(old_links, transaction_link(row), owner);
    }
    assert forall|owner: u64|
        t.staged.size_of_block(owner) == if owner == block {
            s.staged.size_of_block(owner) + transaction_size(transaction)
        } else {
            #[trigger] s.staged.size_of_block(owner) as int
        } by {
        lemma_totals_push(old_links, transaction_link(row), owner);
    }

    let event_blocks = event_block_links(new_events);
    let event_transactions = event_transaction_links(new_events);
    assert(event_block_links(t.staged.events) =~= event_block_links(s.staged.events)
        + event_blocks);
    assert(event_transaction_links(t.staged.events) =~= event_transaction_links(s.staged.events)
        + event_transactions);
    assert(Seq::new(event_blocks.len(), |i: int| event_blocks[i].id) =~= event_ids);
    assert(Seq::new(event_transactions.len(), |i: int| event_transactions[i].id) =~= event_ids);
    assert forall|owner: u64|
        t.staged.events_of_block(owner) == if owner == block {
            s.staged.events_of_block(owner) + event_ids
        } else {
            #[trigger] s.staged.events_of_block(owner)
        } by {
        lemma_children_add(event_block_links(s.staged.events), event_blocks, owner);
        if owner == block {
            lemma_children_all(event_blocks, owner);
        } else {
            lemma_children_none(event_blocks, owner);
            assert(s.staged.events_of_block(owner) + Seq::<u64>::empty()
                =~= s.staged.events_of_block(owner));
        }
    }
    assert forall|owner: u64|
        t.staged.events_of_transaction(owner) == if owner == ids.transactions {
            s.staged.events_of_transaction(owner) + event_ids
        } else {
            #[trigger] s.staged.events_of_transaction(owner)
        } by {
        lemma_children_add(event_transaction_links(s.staged.events), event_transactions, owner);
        if owner == ids.transactions {
            lemma_children_all(event_transactions, owner);
        } else {
            lemma_children_none(event_transactions, owner);
            assert(s.staged.events_of_transaction(owner) + Seq::<u64>::empty()
                =~= s.staged.events_of_transaction(owner));
        }
    }

    let trace_blocks = call_trace_block_links(new_call_traces);
    let trace_transactions = call_trace_transaction_links(new_call_traces);
    assert(call_trace_block_links(t.staged.call_traces) =~= call_trace_block_links(
        s.staged.call_traces,
    ) + trace_blocks);
    assert(call_trace_transaction_links(t.staged.call_traces) =~= call_trace_transaction_links(
        s.staged.call_traces,
    ) + trace_transactions);
    assert(Seq::new(trace_blocks.len(), |i: int| trace_blocks[i].id) =~= call_trace_ids);
    assert(Seq::new(trace_transactions.len(), |i: int| trace_transactions[i].id)
        =~= call_trace_ids);
    assert forall|owner: u64|
        t.staged.call_traces_of_block(owner) == if owner == block {
            s.staged.call_traces_of_block(owner) + call_trace_ids
        } else {
            #[trigger] s.staged.call_traces_of_block(owner)
        } by {
        lemma_children_add(call_trace_block_links(s.staged.call_traces), trace_blocks, owner);
        if owner == block {
            lemma_children_all(trace_blocks, owner);
        } else {
            lemma_children_none(trace_blocks, owner);
            assert(s.staged.call_traces_of_block(owner) + Seq::<u64>::empty()
                =~= s.staged.call_traces_of_block(owner));
        }
    }
    assert forall|owner: u64|
        t.staged.call_traces_of_transaction(owner) == if owner == ids.transactions {
            s.staged.call_traces_of_transaction(owner) + call_trace_ids
        } else {
            #[trigger] s.staged.call_traces_of_transaction(owner)
        } by {
        lemma_children_add(
            call_trace_transaction_links(s.staged.call_traces),
            trace_transactions,
            owner,
        );
        if owner == ids.transactions {
            lemma_children_all(trace_transactions, owner);
        } else {
            lemma_children_none(trace_transactions, owner);
            assert(s.staged.call_traces_of_transaction(owner) + Seq::<u64>::empty()
                =~= s.staged.call_traces_of_transaction(owner));
        }
    }
}

/// Adding a transaction keeps the identifiers in order.
proof fn lemma_add_transaction_keeps_ids(
    s: ExporterView,
    version: Version,
    transaction: TransactionView,
    info: TransactionInfoView,
    events: Seq<ContractEventView>,
    call_traces: Seq<CallTraceView>,
)
    requires
        s.wf(),
        s.add_transaction_result(version, transaction, info, events, call_traces) is Ok,
    ensures
        added(s, version, transaction, info, events, call_traces).ids_wf(),
        added(s, version, transaction, info, events, call_traces).owners_wf(),
{
    let t = added(s, version, transaction, info, events, call_traces);
    let first = s.checkpointed.next_ids;
    let ids = s.in_flight.next_ids;
    assert(t.checkpointed == s.checkpointed);
    assert(t.staged.blocks == s.staged.blocks);
    assert forall|i: int| 0 <= i < t.staged.transactions.len() implies {
        let row = #[trigger] t.staged.transactions[i];
        &&& row.id == first.transactions + i
        &&& first.blocks <= row.relation_block < ids.blocks
        &&& row.fee is Some <==> row.tx_type == TX_TYPE_USER
        &&& row.size is Some <==> row.tx_type == TX_TYPE_USER
    } by {
        if i < s.staged.transactions.len() {
            assert(t.staged.transactions[i] == s.staged.transactions[i]);
        }
    }
    assert forall|i: int| 0 <= i < t.staged.events.len() implies {
        let row = #[trigger] t.staged.events[i];
        &&& row.id == first.events + i
        &&& first.blocks <= row.relation_block < ids.blocks
        &&& first.transactions <= row.relation_transaction < ids.transactions + 1
    } by {
        if i < s.staged.events.len() {
            assert(t.staged.events[i] == s.staged.events[i]);
        }
    }
    assert forall|i: int| 0 <= i < t.staged.call_traces.len() implies {
        let row = #[trigger] t.staged.call_traces[i];
        &&& row.id == first.call_traces + i
        &&& first.blocks <= row.relation_block < ids.blocks
        &&& first.transactions <= row.relation_transaction < ids.transactions + 1
    } by {
        if i < s.staged.call_traces.len() {
            assert(t.staged.call_traces[i] == s.staged.call_traces[i]);
        }
    }
}

/// Adding a transaction keeps the state valid.
pub proof fn lemma_add_transaction_keeps_wf(
    s: ExporterView,
    version: Version,
    transaction: TransactionView,
    info: TransactionInfoView,
    events: Seq<ContractEventView>,
    call_traces: Seq<CallTraceView>,
)
    requires
        s.wf(),
    ensures
        s.add_transaction(version, transaction, info, events, call_traces).wf(),
{
    if s.add_transaction_result(version, transaction, info, events, call_traces) is Ok {
        let t = added(s, version, transaction, info, events, call_traces);
        let ids = s.in_flight.next_ids;
        let block = s.current_block_id;
        lemma_add_transaction_links(s, version, transaction, info, events, call_traces);
        lemma_add_transaction_keeps_ids(s, version, transaction, info, events, call_traces);
        lemma_add_transaction_keeps_copies(s, version, transaction, info, events, call_traces);
        let row = t.staged.transactions.last();
        assert(t.transactions_wf()) by {
            assert forall|k: int| 0 <= k < t.staged.transactions.len() implies {
                let r = #[trigger] t.staged.transactions[k];
                &&& r.relation_events == t.staged.events_of_transaction(r.id)
                &&& r.relation_call_traces == t.staged.call_traces_of_transaction(r.id)
            } by {
                let r = t.staged.transactions[k];
                if k < s.staged.transactions.len() {
                    assert(r == s.staged.transactions[k]);
                    assert(r.id != ids.transactions);
                    assert(t.staged.events_of_transaction(r.id)
                        == s.staged.events_of_transaction(r.id));
                    assert(t.staged.call_traces_of_transaction(r.id)
                        == s.staged.call_traces_of_transaction(r.id));
                } else {
                    assert(r == row);
                    lemma_children_none(
                        event_transaction_links(s.staged.events),
                        ids.transactions,
                    );
                    lemma_children_none(
                        call_trace_transaction_links(s.staged.call_traces),
                        ids.transactions,
                    );
                    assert(t.staged.events_of_transaction(r.id)
                        == s.staged.events_of_transaction(r.id) + r.relation_events);
                    assert(Seq::<u64>::empty() + r.relation_events =~= r.relation_events);
                    assert(t.staged.call_traces_of_transaction(r.id)
                        == s.staged.call_traces_of_transaction(r.id) + r.relation_call_traces);
                    assert(Seq::<u64>::empty() + r.relation_call_traces
                        =~= r.relation_call_traces);
                }
            }
        }
        assert(t.blocks_wf()) by {
            assert forall|k: int| 0 <= k < t.staged.blocks.len() implies {
                let r = #[trigger] t.staged.blocks[k];
                &&& r.relation_transactions == t.staged.transactions_of_block(r.id)
                &&& r.relation_events == t.staged.events_of_block(r.id)
                &&& r.relation_call_traces == t.staged.call_traces_of_block(r.id)
                &&& r.total_fee == t.staged.fee_of_block(r.id)
                &&& r.size == t.staged.size_of_block(r.id)
                &&& r.transactions_count == r.relation_transactions.len()
            } by {
                let r = t.staged.blocks[k];
                assert(r == s.staged.blocks[k]);
                assert(r.id != block);
                assert(t.staged.transactions_of_block(r.id) == s.staged.transactions_of_block(
                    r.id,
                ));
                assert(t.staged.events_of_block(r.id) == s.staged.events_of_block(r.id));
                assert(t.staged.call_traces_of_block(r.id) == s.staged.call_traces_of_block(
                    r.id,
                ));
                assert(t.staged.fee_of_block(r.id) == s.staged.fee_of_block(r.id));
                assert(t.staged.size_of_block(r.id) == s.staged.size_of_block(r.id));
            }
        }
        assert(t.open_block_wf()) by {
            assert(t.current_block_id == block);
            assert(t.staged.transactions_of_block(block) == s.staged.transactions_of_block(
                block,
            ).push(ids.transactions));
            assert(t.staged.events_of_block(block) == s.staged.events_of_block(block)
                + row.relation_events);
            assert(t.staged.call_traces_of_block(block) == s.staged.call_traces_of_block(block)
                + row.relation_call_traces);
            assert(t.staged.fee_of_block(block) == s.staged.fee_of_block(block)
                + transaction_fee(transaction, info.gas_used));
            assert(t.staged.size_of_block(block) == s.staged.size_of_block(block)
                + transaction_size(transaction));
        }
    }
}

} // verus!
