//! What the staged rows copy from one another: a child row repeats what its
//! transaction and its block say of themselves, and versions and block
//! indices rise with the identifiers.

use vstd::prelude::*;
use crate::chain::{CallTraceView, ContractEventView, TransactionInfoView, TransactionView};
use crate::relations::{lemma_children_empty, transaction_links};
use crate::rows::{BlockRowView, CallTraceRowView, EventRowView, TransactionRowView};
use crate::state::ExporterView;
use crate::types::{BlockMetadataView, Version};

verus! {

/// The transaction row repeats the index, hash, time, epoch and first
/// version of this block.
pub open spec fn follows_block(
    row: TransactionRowView,
    block_index: u64,
    block_tx_index: Version,
    block: BlockMetadataView,
) -> bool {
    &&& row.block_index == block_index
    &&& row.block_tx_index == block_tx_index
    &&& row.block_hash == block.id
    &&& row.time_index == block.timestamp_usecs
    &&& row.time == block.timestamp_usecs
    &&& row.epoch == block.epoch
}

/// The transaction row repeats what the block row says of the block.
pub open spec fn copies_block(row: TransactionRowView, block: BlockRowView) -> bool {
    &&& row.block_index == block.block_index
    &&& row.block_tx_index == block.block_tx_index
    &&& row.block_hash == block.hash
    &&& row.time_index == block.time_index
    &&& row.time == block.time
    &&& row.epoch == block.epoch
}

/// The event row repeats what the transaction row says of the transaction
/// and of its block.
pub open spec fn event_copies(row: EventRowView, transaction: TransactionRowView) -> bool {
    &&& row.relation_block == transaction.relation_block
    &&& row.tx_index == transaction.tx_index
    &&& row.tx_hash == transaction.tx_hash
    &&& row.block_index == transaction.block_index
    &&& row.block_tx_index == transaction.block_tx_index
    &&& row.block_hash == transaction.block_hash
    &&& row.time_index == transaction.time_index
}

/// The call trace row repeats what the transaction row says of the
/// transaction and of its block.
pub open spec fn call_trace_copies(row: CallTraceRowView, transaction: TransactionRowView) -> bool {
    &&& row.relation_block == transaction.relation_block
    &&& row.tx_index == transaction.tx_index
    &&& row.tx_hash == transaction.tx_hash
    &&& row.tx_type == transaction.tx_type
    &&& row.block_index == transaction.block_index
    &&& row.block_tx_index == transaction.block_tx_index
    &&& row.block_hash == transaction.block_hash
    &&& row.time_index == transaction.time_index
}

impl ExporterView {
    /// By how much the index of a block exceeds its identifier. The two are
    /// given out together, so that the difference is the same for every
    /// block since the checkpoint.
    pub open spec fn index_offset(self) -> int {
        self.checkpointed.block_index + 1 - self.checkpointed.next_ids.blocks
    }

    /// Block indices and block identifiers have advanced by the number of
    /// blocks opened since the checkpoint. The versions of the staged
    /// transactions rise strictly, start no lower than the checkpointed
    /// version and end at the last version seen.
    pub open spec fn positions_wf(self) -> bool {
        let first = self.checkpointed;
        let now = self.in_flight;
        let rows = self.staged;
        &&& now.block_index == first.block_index + self.cached_blocks_count
        &&& now.next_ids.blocks == first.next_ids.blocks + self.cached_blocks_count
        &&& self.is_open() ==> self.cached_blocks_count >= 1
        &&& first.tx_version <= now.tx_version
        &&& forall|i: int|
            0 <= i < rows.transactions.len() ==> first.tx_version <= (
            #[trigger] rows.transactions[i]).tx_index <= now.tx_version
        &&& forall|i: int, j: int|
            0 <= i < j < rows.transactions.len() ==> (#[trigger] rows.transactions[i]).tx_index
                < (#[trigger] rows.transactions[j]).tx_index
        &&& rows.transactions.len() > 0 ==> rows.transactions.last().tx_index == now.tx_version
    }

    /// Every staged row carries the index of its block; every staged event
    /// and call trace repeats its transaction; every staged transaction
    /// repeats its block, as far as the block is staged or open.
    pub open spec fn copies_wf(self) -> bool {
        let first = self.checkpointed.next_ids;
        let rows = self.staged;
        let offset = self.index_offset();
        &&& self.is_open() ==> self.in_flight.block_index == self.current_block_id + offset
        &&& forall|k: int|
            0 <= k < rows.blocks.len() ==> (#[trigger] rows.blocks[k]).block_index
                == rows.blocks[k].id + offset
        &&& forall|i: int|
            0 <= i < rows.transactions.len() ==> (#[trigger] rows.transactions[i]).block_index
                == rows.transactions[i].relation_block + offset
        &&& forall|i: int|
            0 <= i < rows.events.len() ==> {
                let row = #[trigger] rows.events[i];
                let owner = row.relation_transaction - first.transactions;
                &&& 0 <= owner < rows.transactions.len()
                &&& event_copies(row, rows.transactions[owner])
            }
        &&& forall|i: int|
            0 <= i < rows.call_traces.len() ==> {
                let row = #[trigger] rows.call_traces[i];
                let owner = row.relation_transaction - first.transactions;
                &&& 0 <= owner < rows.transactions.len()
                &&& call_trace_copies(row, rows.transactions[owner])
            }
        &&& forall|i: int, k: int|
            0 <= i < rows.transactions.len() && 0 <= k < rows.blocks.len() && (
            #[trigger] rows.transactions[i]).relation_block == (#[trigger] rows.blocks[k]).id
                ==> copies_block(rows.transactions[i], rows.blocks[k])
        &&& self.is_open() ==> forall|i: int|
            0 <= i < rows.transactions.len() && (#[trigger] rows.transactions[i]).relation_block
                == self.current_block_id ==> follows_block(
                rows.transactions[i],
                self.in_flight.block_index,
                self.in_flight.block_tx_version,
                self.in_flight.block_metadata,
            )
    }
}

/// Opening a block keeps the rows consistent.
pub proof fn lemma_add_current_block_keeps_copies(
    s: ExporterView,
    block_metadata: BlockMetadataView,
    version: Version,
)
    requires
        s.wf(),
    ensures
        s.add_current_block(block_metadata, version).positions_wf(),
        s.add_current_block(block_metadata, version).copies_wf(),
{
}

/// Completing the current block keeps the rows consistent.
pub proof fn lemma_complete_block_keeps_copies(s: ExporterView)
    requires
        s.wf(),
    ensures
        s.complete_block().positions_wf(),
        s.complete_block().copies_wf(),
{
    if s.is_open() {
        let t = s.complete_block();
        let row = s.current_block_row();
        assert(t.staged.blocks == s.staged.blocks.push(row));
        assert forall|k: int| 0 <= k < t.staged.blocks.len() implies (
        #[trigger] t.staged.blocks[k]).block_index == t.staged.blocks[k].id + t.index_offset() by {
            if k < s.staged.blocks.len() {
                assert(t.staged.blocks[k] == s.staged.blocks[k]);
            }
        }
        assert forall|i: int, k: int|
            0 <= i < t.staged.transactions.len() && 0 <= k < t.staged.blocks.len() && (
            #[trigger] t.staged.transactions[i]).relation_block == (
            #[trigger] t.staged.blocks[k]).id implies copies_block(
            t.staged.transactions[i],
            t.staged.blocks[k],
        ) by {
            if k < s.staged.blocks.len() {
                assert(t.staged.blocks[k] == s.staged.blocks[k]);
            }
        }
    }
}

/// The first transaction of the stream is staged before any other.
proof fn lemma_first_of_stream(s: ExporterView)
    requires
        s.wf(),
        s.is_open(),
        s.in_flight.block_index == 1,
        s.transaction_index == 0,
    ensures
        s.staged.transactions.len() == 0,
{
    let links = transaction_links(s.staged.transactions);
    lemma_children_empty(links, s.current_block_id);
    if s.staged.transactions.len() > 0 {
        let row = s.staged.transactions[0];
        assert(links[0].owner == row.relation_block);
        assert(row.relation_block == s.current_block_id);
    }
}

/// Adding a transaction keeps the rows consistent.
pub proof fn lemma_add_transaction_keeps_copies(
    s: ExporterView,
    version: Version,
    transaction: TransactionView,
    info: TransactionInfoView,
    events: Seq<ContractEventView>,
    call_traces: Seq<CallTraceView>,
)
    requires
        s.wf(),
    ensures
        s.add_transaction(version, transaction, info, events, call_traces).positions_wf(),
        s.add_transaction(version, transaction, info, events, call_traces).copies_wf(),
{
    if s.add_transaction_result(version, transaction, info, events, call_traces) is Ok {
        let t = s.add_transaction(version, transaction, info, events, call_traces);
        let old_len = s.staged.transactions.len();
        let row = t.staged.transactions[old_len as int];
        if !(version > s.in_flight.tx_version) {
            lemma_first_of_stream(s);
        }
        assert forall|i: int| 0 <= i < t.staged.transactions.len() implies {
            let r = #[trigger] t.staged.transactions[i];
            &&& s.checkpointed.tx_version <= r.tx_index <= version
            &&& r.block_index == r.relation_block + t.index_offset()
            &&& i < old_len ==> r == s.staged.transactions[i] && r.tx_index < version
            &&& i == old_len ==> r.tx_index == version
        } by {
            if i < old_len {
                assert(t.staged.transactions[i] == s.staged.transactions[i]);
            }
        }
        assert(t.positions_wf());
        assert forall|i: int| 0 <= i < t.staged.events.len() implies {
            let r = #[trigger] t.staged.events[i];
            let owner = r.relation_transaction - s.checkpointed.next_ids.transactions;
            &&& 0 <= owner < t.staged.transactions.len()
            &&& event_copies(r, t.staged.transactions[owner])
        } by {
            let r = t.staged.events[i];
            let owner = r.relation_transaction - s.checkpointed.next_ids.transactions;
            if i < s.staged.events.len() {
                assert(r == s.staged.events[i]);
                assert(t.staged.transactions[owner] == s.staged.transactions[owner]);
            } else {
                assert(owner == old_len);
            }
        }
        assert forall|i: int| 0 <= i < t.staged.call_traces.len() implies {
            let r = #[trigger] t.staged.call_traces[i];
            let owner = r.relation_transaction - s.checkpointed.next_ids.transactions;
            &&& 0 <= owner < t.staged.transactions.len()
            &&& call_trace_copies(r, t.staged.transactions[owner])
        } by {
            let r = t.staged.call_traces[i];
            let owner = r.relation_transaction - s.checkpointed.next_ids.transactions;
            if i < s.staged.call_traces.len() {
                assert(r == s.staged.call_traces[i]);
                assert(t.staged.transactions[owner] == s.staged.transactions[owner]);
            } else {
                assert(owner == old_len);
            }
        }
        assert(t.copies_wf());
    }
}

} // verus!
