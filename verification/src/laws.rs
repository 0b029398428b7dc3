//! The laws of the export pipeline, proved of the exporter's states.

use vstd::prelude::*;
use crate::chain::{CallTraceView, ContractEventView, TransactionInfoView, TransactionView};
use crate::consistency::{call_trace_copies, copies_block, event_copies};
use crate::relations::{total_fee, total_size, transaction_links, Link};
use crate::rows::TX_TYPE_USER;
use crate::state::ExporterView;
use crate::types::{BlockMetadataView, Version};
use crate::validity::{
    lemma_add_current_block_keeps_wf, lemma_add_transaction_keeps_wf,
    lemma_complete_block_keeps_wf, lemma_export_keeps_wf, lemma_reset_keeps_wf,
    lemma_set_block_already_exported_keeps_wf,
};

verus! {

/// One step of feeding the stream to an exporter.
pub enum Operation {
    AddCurrentBlock { block_metadata: BlockMetadataView, version: Version },
    AddTransaction {
        version: Version,
        transaction: TransactionView,
        info: TransactionInfoView,
        events: Seq<ContractEventView>,
        call_traces: Seq<CallTraceView>,
    },
    CompleteBlock,
}

impl ExporterView {
    /// The state after one operation. A refused operation changes nothing.
    pub open spec fn apply(self, operation: Operation) -> ExporterView {
        match operation {
            Operation::AddCurrentBlock { block_metadata, version } => self.add_current_block(
                block_metadata,
                version,
            ),
            Operation::AddTransaction {
                version,
                transaction,
                info,
                events,
                call_traces,
            } => self.add_transaction(version, transaction, info, events, call_traces),
            Operation::CompleteBlock => self.complete_block(),
        }
    }

    /// The state after the operations, applied in order.
    pub open spec fn apply_all(self, operations: Seq<Operation>) -> ExporterView
        decreases operations.len(),
    {
        if operations.len() == 0 {
            self
        } else {
            self.apply(operations.first()).apply_all(operations.drop_first())
        }
    }

    /// Both states have no open block and agree on everything that an
    /// operation reads before a block is opened: the position, the
    /// checkpoint, the staged rows and the settings.
    pub open spec fn same_stream(self, other: ExporterView) -> bool {
        &&& !self.is_open()
        &&& !other.is_open()
        &&& self.in_flight == other.in_flight
        &&& self.checkpointed == other.checkpointed
        &&& self.staged == other.staged
        &&& self.chain_id == other.chain_id
        &&& self.blocks_per_export == other.blocks_per_export
        &&& self.cached_blocks_count == other.cached_blocks_count
        &&& self.completion_skipped == other.completion_skipped
    }

    /// The states are the same, or differ only in what the next block
    /// overwrites when it is opened.
    pub open spec fn equivalent(self, other: ExporterView) -> bool {
        self == other || self.same_stream(other)
    }
}

/// Every state that operations lead to from a valid state is valid: so is
/// every state that an exporter reaches, since a new exporter is in a valid
/// state and exports and rollbacks keep states valid.
pub proof fn lemma_operations_keep_valid(s: ExporterView, operations: Seq<Operation>)
    requires
        s.wf(),
    ensures
        s.apply_all(operations).wf(),
        s.apply_all(operations).export(true).wf(),
        s.apply_all(operations).export(false).wf(),
        s.apply_all(operations).reset_cached_data().wf(),
        s.apply_all(operations).set_block_already_exported().wf(),
    decreases operations.len(),
{
    if operations.len() > 0 {
        match operations.first() {
            Operation::AddCurrentBlock { block_metadata, version } => {
                lemma_add_current_block_keeps_wf(s, block_metadata, version);
            },
            Operation::AddTransaction { version, transaction, info, events, call_traces } => {
                lemma_add_transaction_keeps_wf(s, version, transaction, info, events, call_traces);
            },
            Operation::CompleteBlock => {
                lemma_complete_block_keeps_wf(s);
            },
        }
        lemma_operations_keep_valid(s.apply(operations.first()), operations.drop_first());
    } else {
        lemma_export_keeps_wf(s, true);
        lemma_export_keeps_wf(s, false);
        lemma_reset_keeps_wf(s);
        lemma_set_block_already_exported_keeps_wf(s);
    }
}

/// Idempotent completion: completing a block a second time changes
/// nothing. The first completion of an open block stages exactly one block
/// row, with the block's relation lists; the second is accepted and stages
/// none.
pub proof fn lemma_complete_block_idempotent(s: ExporterView)
    ensures
        s.complete_block().complete_block() == s.complete_block(),
        s.complete_block_result() is Ok ==> s.complete_block().complete_block_result() is Ok,
        s.is_open() ==> s.complete_block().staged.blocks == s.staged.blocks.push(
            s.current_block_row(),
        ),
        !s.is_open() ==> s.complete_block() == s,
{
}

/// Monotonic identifiers: the staged rows of the transactions, events and
/// call traces tables carry the identifiers from the checkpointed one on,
/// one by one. So do the staged rows of the blocks table, unless a block
/// was marked as exported while it was open; their identifiers rise in any
/// case. A successful export makes the next identifier the checkpointed
/// one, so that the rows of the next batch follow those of this one
/// without a gap.
pub proof fn lemma_identifiers_rise_without_gaps(s: ExporterView)
    requires
        s.wf(),
    ensures
        forall|i: int|
            0 <= i < s.staged.transactions.len() ==> (#[trigger] s.staged.transactions[i]).id
                == s.checkpointed.next_ids.transactions + i,
        forall|i: int|
            0 <= i < s.staged.events.len() ==> (#[trigger] s.staged.events[i]).id
                == s.checkpointed.next_ids.events + i,
        forall|i: int|
            0 <= i < s.staged.call_traces.len() ==> (#[trigger] s.staged.call_traces[i]).id
                == s.checkpointed.next_ids.call_traces + i,
        forall|i: int, j: int|
            0 <= i < j < s.staged.blocks.len() ==> (#[trigger] s.staged.blocks[i]).id < (
            #[trigger] s.staged.blocks[j]).id,
        !s.completion_skipped ==> forall|i: int|
            0 <= i < s.staged.blocks.len() ==> (#[trigger] s.staged.blocks[i]).id
                == s.checkpointed.next_ids.blocks + i,
        s.export_result(true) is Ok ==> {
            let after = s.export(true).checkpointed.next_ids;
            let before = s.checkpointed.next_ids;
            &&& after.transactions == before.transactions + s.staged.transactions.len()
            &&& after.events == before.events + s.staged.events.len()
            &&& after.call_traces == before.call_traces + s.staged.call_traces.len()
            &&& !s.completion_skipped ==> after.blocks == before.blocks + s.staged.blocks.len()
        },
{
}

/// Referential symmetry, transactions: the `k`-th staged transaction lists
/// exactly the staged events and the staged call traces that point to it,
/// in the order in which they were built.
pub proof fn lemma_transaction_relations(s: ExporterView, k: int)
    requires
        s.wf(),
        0 <= k < s.staged.transactions.len(),
    ensures
        s.staged.transactions[k].relation_events == s.staged.events_of_transaction(
            s.staged.transactions[k].id,
        ),
        s.staged.transactions[k].relation_call_traces == s.staged.call_traces_of_transaction(
            s.staged.transactions[k].id,
        ),
{
}

/// Referential symmetry, children: every staged event and every staged call
/// trace points to exactly one staged transaction.
pub proof fn lemma_children_have_one_transaction(s: ExporterView)
    requires
        s.wf(),
    ensures
        forall|i: int|
            0 <= i < s.staged.events.len() ==> {
                let owner = (#[trigger] s.staged.events[i]).relation_transaction
                    - s.checkpointed.next_ids.transactions;
                &&& 0 <= owner < s.staged.transactions.len()
                &&& s.staged.transactions[owner].id == s.staged.events[i].relation_transaction
            },
        forall|i: int|
            0 <= i < s.staged.call_traces.len() ==> {
                let owner = (#[trigger] s.staged.call_traces[i]).relation_transaction
                    - s.checkpointed.next_ids.transactions;
                &&& 0 <= owner < s.staged.transactions.len()
                &&& s.staged.transactions[owner].id
                    == s.staged.call_traces[i].relation_transaction
            },
        forall|j: int, k: int|
            0 <= j < k < s.staged.transactions.len() ==> (#[trigger] s.staged.transactions[j]).id
                != (#[trigger] s.staged.transactions[k]).id,
{
}

/// Referential symmetry, blocks: the `k`-th staged block lists exactly the
/// staged transactions, events and call traces that point to it, in the
/// order in which they were built.
pub proof fn lemma_block_relations(s: ExporterView, k: int)
    requires
        s.wf(),
        0 <= k < s.staged.blocks.len(),
    ensures
        s.staged.blocks[k].relation_transactions == s.staged.transactions_of_block(
            s.staged.blocks[k].id,
        ),
        s.staged.blocks[k].relation_events == s.staged.events_of_block(s.staged.blocks[k].id),
        s.staged.blocks[k].relation_call_traces == s.staged.call_traces_of_block(
            s.staged.blocks[k].id,
        ),
{
}

/// Rising versions and indices: the versions of the staged transactions
/// rise strictly, and none lies below the checkpointed version; the indices
/// of the staged blocks rise with their identifiers, one by one unless a
/// block was marked as exported while it was open.
pub proof fn lemma_versions_and_indices_rise(s: ExporterView)
    requires
        s.wf(),
    ensures
        forall|i: int, j: int|
            0 <= i < j < s.staged.transactions.len() ==> (
            #[trigger] s.staged.transactions[i]).tx_index < (
            #[trigger] s.staged.transactions[j]).tx_index,
        forall|i: int|
            0 <= i < s.staged.transactions.len() ==> s.checkpointed.tx_version <= (
            #[trigger] s.staged.transactions[i]).tx_index <= s.in_flight.tx_version,
        forall|i: int, j: int|
            0 <= i < j < s.staged.blocks.len() ==> s.checkpointed.block_index < (
            #[trigger] s.staged.blocks[i]).block_index < (
            #[trigger] s.staged.blocks[j]).block_index <= s.in_flight.block_index,
        forall|i: int|
            0 <= i < s.staged.blocks.len() ==> s.checkpointed.block_index < (
            #[trigger] s.staged.blocks[i]).block_index <= s.in_flight.block_index,
        !s.completion_skipped ==> forall|i: int|
            0 <= i < s.staged.blocks.len() ==> (#[trigger] s.staged.blocks[i]).block_index
                == s.checkpointed.block_index + 1 + i,
{
}

/// Copied fields: every staged event and every staged call trace repeats
/// the version, the hash and the block of the staged transaction that it
/// points to; every staged transaction repeats the index, the hash, the
/// time, the epoch and the first version of the staged block that it
/// points to.
pub proof fn lemma_children_copy_their_owners(s: ExporterView)
    requires
        s.wf(),
    ensures
        forall|i: int, k: int|
            0 <= i < s.staged.events.len() && 0 <= k < s.staged.transactions.len() && (
            #[trigger] s.staged.events[i]).relation_transaction == (
            #[trigger] s.staged.transactions[k]).id ==> event_copies(
                s.staged.events[i],
                s.staged.transactions[k],
            ),
        forall|i: int, k: int|
            0 <= i < s.staged.call_traces.len() && 0 <= k < s.staged.transactions.len() && (
            #[trigger] s.staged.call_traces[i]).relation_transaction == (
            #[trigger] s.staged.transactions[k]).id ==> call_trace_copies(
                s.staged.call_traces[i],
                s.staged.transactions[k],
            ),
        forall|i: int, k: int|
            0 <= i < s.staged.transactions.len() && 0 <= k < s.staged.blocks.len() && (
            #[trigger] s.staged.transactions[i]).relation_block == (
            #[trigger] s.staged.blocks[k]).id ==> copies_block(
                s.staged.transactions[i],
                s.staged.blocks[k],
            ),
{
    let first = s.checkpointed.next_ids.transactions;
    assert forall|i: int, k: int|
        0 <= i < s.staged.events.len() && 0 <= k < s.staged.transactions.len() && (
        #[trigger] s.staged.events[i]).relation_transaction == (
        #[trigger] s.staged.transactions[k]).id implies event_copies(
        s.staged.events[i],
        s.staged.transactions[k],
    ) by {
        assert(s.staged.events[i].relation_transaction - first == k);
    }
    assert forall|i: int, k: int|
        0 <= i < s.staged.call_traces.len() && 0 <= k < s.staged.transactions.len() && (
        #[trigger] s.staged.call_traces[i]).relation_transaction == (
        #[trigger] s.staged.transactions[k]).id implies call_trace_copies(
        s.staged.call_traces[i],
        s.staged.transactions[k],
    ) by {
        assert(s.staged.call_traces[i].relation_transaction - first == k);
    }
}

/// Links without a fee and without a size add up to nothing.
proof fn lemma_totals_zero(links: Seq<Link>, owner: u64)
    requires
        forall|i: int|
            0 <= i < links.len() && (#[trigger] links[i]).owner == owner ==> links[i].fee == 0
                && links[i].size == 0,
    ensures
        total_fee(links, owner) == 0,
        total_size(links, owner) == 0,
    decreases links.len(),
{
    if links.len() > 0 {
        let rest = links.drop_last();
        assert forall|i: int| 0 <= i < rest.len() && (#[trigger] rest[i]).owner == owner implies
            rest[i].fee == 0 && rest[i].size == 0 by {
            assert(rest[i] == links[i]);
        }
        lemma_totals_zero(rest, owner);
        assert(links.last() == links[links.len() - 1]);
    }
}

/// Fee and size aggregation: the fee of the `k`-th staged block is the sum
/// of the fees of the staged transactions that point to it, its size the
/// sum of their sizes, its count their number. Only a transaction that an
/// account submitted has a fee and a size; where the block holds none,
/// both sums are 0.
pub proof fn lemma_block_totals(s: ExporterView, k: int)
    requires
        s.wf(),
        0 <= k < s.staged.blocks.len(),
    ensures
        s.staged.blocks[k].total_fee == s.staged.fee_of_block(s.staged.blocks[k].id),
        s.staged.blocks[k].size == s.staged.size_of_block(s.staged.blocks[k].id),
        s.staged.blocks[k].transactions_count == s.staged.transactions_of_block(
            s.staged.blocks[k].id,
        ).len(),
        forall|i: int|
            0 <= i < s.staged.transactions.len() ==> ((#[trigger] s.staged.transactions[i]).fee
                is Some <==> s.staged.transactions[i].tx_type == TX_TYPE_USER),
        forall|i: int|
            0 <= i < s.staged.transactions.len() ==> ((#[trigger] s.staged.transactions[i]).size
                is Some <==> s.staged.transactions[i].tx_type == TX_TYPE_USER),
        (forall|i: int|
            0 <= i < s.staged.transactions.len() && (
            #[trigger] s.staged.transactions[i]).relation_block == s.staged.blocks[k].id
                ==> s.staged.transactions[i].tx_type != TX_TYPE_USER)
            ==> s.staged.blocks[k].total_fee == 0 && s.staged.blocks[k].size == 0,
{
    let block = s.staged.blocks[k].id;
    let links = transaction_links(s.staged.transactions);
    if forall|i: int|
        0 <= i < s.staged.transactions.len() && (
        #[trigger] s.staged.transactions[i]).relation_block == block
            ==> s.staged.transactions[i].tx_type != TX_TYPE_USER {
        assert forall|i: int| 0 <= i < links.len() && (#[trigger] links[i]).owner == block implies
            links[i].fee == 0 && links[i].size == 0 by {
            let row = s.staged.transactions[i];
            assert(row.relation_block == block);
        }
        lemma_totals_zero(links, block);
    }
}

/// No operation of the stream moves the checkpoint or changes the
/// settings; neither does an export that failed.
pub proof fn lemma_operations_keep_checkpoint(s: ExporterView, operations: Seq<Operation>)
    ensures
        s.apply_all(operations).checkpointed == s.checkpointed,
        s.apply_all(operations).chain_id == s.chain_id,
        s.apply_all(operations).blocks_per_export == s.blocks_per_export,
        s.export(false) == s,
    decreases operations.len(),
{
    if operations.len() > 0 {
        lemma_operations_keep_checkpoint(s.apply(operations.first()), operations.drop_first());
    }
}

/// From equivalent states, the same operations lead to equivalent states.
pub proof fn lemma_replay_from_equivalent(
    a: ExporterView,
    b: ExporterView,
    operations: Seq<Operation>,
)
    requires
        a.equivalent(b),
    ensures
        a.apply_all(operations).equivalent(b.apply_all(operations)),
    decreases operations.len(),
{
    if operations.len() > 0 {
        let operation = operations.first();
        if a != b {
            match operation {
                Operation::AddCurrentBlock { block_metadata, version } => {
                    assert(a.add_current_block_result() == b.add_current_block_result());
                    if a.add_current_block_result() is Ok {
                        assert(a.apply(operation) =~= b.apply(operation));
                    }
                },
                _ => {},
            }
        }
        assert(a.apply(operation).equivalent(b.apply(operation)));
        lemma_replay_from_equivalent(
            a.apply(operation),
            b.apply(operation),
            operations.drop_first(),
        );
    }
}

/// Rollback correctness: take a state right after construction or after a
/// successful export, and any operations. If the export that follows them
/// fails, a rollback followed by the same operations stages the same rows,
/// reaches the same position and asks for the same checkpoint as the first
/// attempt did, and an export is accepted after the one exactly if it is
/// after the other.
pub proof fn lemma_rollback_replay(clean: ExporterView, operations: Seq<Operation>)
    requires
        clean.is_clean(),
    ensures
        ({
            let attempt = clean.apply_all(operations);
            let replay = attempt.export(false).reset_cached_data().apply_all(operations);
            &&& replay.staged == attempt.staged
            &&& replay.in_flight == attempt.in_flight
            &&& replay.checkpointed == attempt.checkpointed
            &&& replay.pending_checkpoint() == attempt.pending_checkpoint()
            &&& replay.network_id() == attempt.network_id()
            &&& replay.export_result(true) == attempt.export_result(true)
            &&& replay.export(true).checkpointed == attempt.export(true).checkpointed
        }),
{
    let attempt = clean.apply_all(operations);
    let rolled_back = attempt.export(false).reset_cached_data();
    lemma_operations_keep_checkpoint(clean, operations);
    assert(rolled_back.same_stream(clean));
    lemma_replay_from_equivalent(rolled_back, clean, operations);
}

} // verus!
