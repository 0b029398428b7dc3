//! The exporter: opens a block, takes its transactions one by one,
//! completes it, and hands the rows staged since the last export to a
//! writer together with a checkpoint. What the writer reports decides
//! whether the checkpoint advances; a rollback returns to the last one.

use vstd::prelude::*;
use crate::bytes::{clone_ids, opt_view, seq_view};
use crate::chain::{CallTrace, ContractEvent, Transaction, TransactionInfo};
use crate::error::ExportError;
use crate::record::{
    build_block_row, build_call_trace_rows, build_event_rows, build_id_range, build_row_context,
    build_transaction_row, tx_type_code, BlockTotals,
};
use crate::state::{
    ExporterView, StagedRows, StagedRowsView, StreamState, StreamStateView, TableIds,
};
use crate::types::{BlockMetadata, BlockMetadataView, ChainId, LastExportData, Version};
use crate::validity::{
    lemma_add_current_block_keeps_wf, lemma_add_transaction_keeps_wf,
    lemma_complete_block_keeps_wf, lemma_export_keeps_wf, lemma_initial_wf, lemma_reset_keeps_wf,
    lemma_set_block_already_exported_keeps_wf,
};

verus! {

/// What an export hands to the writer besides the staged rows.
#[derive(Clone, Debug, PartialEq, Eq)]
pub struct ExportRequest {
    /// The position that becomes the checkpoint if the writer succeeds.
    pub checkpoint: LastExportData,
    /// The network that the batch belongs to.
    pub network_id: ChainId,
}

/// Turns the chain's stream into staged rows and checkpoints.
pub struct QueryableExporter {
    previous_block_metadata: Option<BlockMetadata>,
    in_flight: StreamState,
    checkpointed: StreamState,
    current_block_id: u64,
    current_transaction_ids: Vec<u64>,
    current_event_ids: Vec<u64>,
    current_call_trace_ids: Vec<u64>,
    block_open: bool,
    block_already_exported: bool,
    completion_skipped: Ghost<bool>,
    chain_id: Option<ChainId>,
    cached_blocks_count: u32,
    transaction_index: u32,
    block_size: u32,
    block_total_fee: u64,
    blocks_per_export: u32,
    staged: StagedRows,
}

impl View for QueryableExporter {
    type V = ExporterView;

    closed spec fn view(&self) -> ExporterView {
        ExporterView {
            previous_block_metadata: opt_view(self.previous_block_metadata),
            in_flight: self.in_flight@,
            checkpointed: self.checkpointed@,
            current_block_id: self.current_block_id,
            current_transaction_ids: self.current_transaction_ids@,
            current_event_ids: self.current_event_ids@,
            current_call_trace_ids: self.current_call_trace_ids@,
            block_open: self.block_open,
            block_already_exported: self.block_already_exported,
            completion_skipped: self.completion_skipped@,
            chain_id: self.chain_id,
            cached_blocks_count: self.cached_blocks_count,
            transaction_index: self.transaction_index,
            block_size: self.block_size,
            block_total_fee: self.block_total_fee,
            blocks_per_export: self.blocks_per_export,
            staged: self.staged@,
        }
    }
}

/// The position that a new exporter starts from: the checkpoint's, or the
/// start of the stream where there is none.
pub open spec fn resume_position(
    last_exported_data: Option<LastExportData>,
    next_ids: TableIds,
) -> StreamStateView {
    match last_exported_data {
        Some(data) => StreamStateView {
            block_metadata: data.last_block_metadata@,
            block_tx_version: data.last_block_tx_version,
            block_index: data.last_known_block_index,
            tx_version: data.last_known_tx_version,
            next_ids,
        },
        None => StreamStateView {
            block_metadata: BlockMetadataView::zero(),
            block_tx_version: 0,
            block_index: 0,
            tx_version: 0,
            next_ids,
        },
    }
}

impl QueryableExporter {
    /// An exporter that resumes from the last checkpoint, or from the start
    /// of the stream where there is none. `next_ids` are the identifiers
    /// that the tables' next rows get; `blocks_per_export` is how many
    /// blocks the writer wants in one batch.
    pub fn new(
        chain_id: Option<ChainId>,
        last_exported_data: Option<LastExportData>,
        next_ids: TableIds,
        blocks_per_export: u32,
    ) -> (exporter: QueryableExporter)
        ensures
            exporter@ == ExporterView::initial(
                chain_id,
                resume_position(last_exported_data, next_ids),
                blocks_per_export,
            ),
            exporter@.is_clean(),
            exporter@.wf(),
    {
        let position = match last_exported_data {
            Some(data) => StreamState {
                block_metadata: data.last_block_metadata,
                block_tx_version: data.last_block_tx_version,
                block_index: data.last_known_block_index,
                tx_version: data.last_known_tx_version,
                next_ids,
            },
            None => StreamState {
                block_metadata: BlockMetadata::zero(),
                block_tx_version: 0,
                block_index: 0,
                tx_version: 0,
                next_ids,
            },
        };
        let previous = if position.block_index == 0 {
            None
        } else {
            Some(position.block_metadata.clone())
        };
        let staged = StagedRows {
            blocks: Vec::new(),
            transactions: Vec::new(),
            events: Vec::new(),
            call_traces: Vec::new(),
        };
        assert(staged@ =~= StagedRowsView::empty());
        let exporter = QueryableExporter {
            previous_block_metadata: previous,
            current_block_id: position.block_index,
            checkpointed: position.clone(),
            in_flight: position,
            current_transaction_ids: Vec::new(),
            current_event_ids: Vec::new(),
            current_call_trace_ids: Vec::new(),
            block_open: false,
            block_already_exported: false,
            completion_skipped: Ghost(false),
            chain_id,
            cached_blocks_count: 0,
            transaction_index: 0,
            block_size: 0,
            block_total_fee: 0,
            blocks_per_export,
            staged,
        };
        proof {
            lemma_initial_wf(
                chain_id,
                resume_position(last_exported_data, next_ids),
                blocks_per_export,
            );
        }
        exporter
    }

    /// Makes the chain's identifier known.
    pub fn set_chain_id(&mut self, chain_id: ChainId)
        ensures
            final(self)@ == (ExporterView { chain_id: Some(chain_id), ..old(self)@ }),
            old(self)@.wf() ==> final(self)@.wf(),
    {
        self.chain_id = Some(chain_id);
    }

    /// The header of the current block.
    pub fn get_current_block(&self) -> (block: BlockMetadata)
        ensures
            block@ == self@.in_flight.block_metadata,
    {
        self.in_flight.block_metadata.clone()
    }

    /// Marks the current block as one that needs no row.
    pub fn set_block_already_exported(&mut self)
        ensures
            final(self)@ == old(self)@.set_block_already_exported(),
            old(self)@.wf() ==> final(self)@.wf(),
    {
        proof {
            if self@.wf() {
                lemma_set_block_already_exported_keeps_wf(self@);
            }
        }
        let ghost skipped = self.completion_skipped@ || (self.block_open
            && !self.block_already_exported);
        self.completion_skipped = Ghost(skipped);
        self.block_already_exported = true;
    }

    /// Opens the block `block_metadata`, whose first transaction has the
    /// version `version`.
    pub fn add_current_block(&mut self, block_metadata: BlockMetadata, version: Version) -> (result:
        Result<(), ExportError>)
        ensures
            result == old(self)@.add_current_block_result(),
            final(self)@ == old(self)@.add_current_block(block_metadata@, version),
            old(self)@.wf() ==> final(self)@.wf(),
    {
        proof {
            if self@.wf() {
                lemma_add_current_block_keeps_wf(self@, block_metadata@, version);
            }
        }
        if self.block_open && !self.block_already_exported {
            return Err(ExportError::BlockStillOpen);
        }
        if self.in_flight.block_index == u64::MAX || self.in_flight.next_ids.blocks == u64::MAX
            || self.cached_blocks_count == u32::MAX {
            return Err(ExportError::Overflow);
        }
        self.previous_block_metadata = if self.in_flight.block_index == 0 {
            None
        } else {
            Some(self.in_flight.block_metadata.clone())
        };
        self.in_flight.block_metadata = block_metadata;
        self.in_flight.block_tx_version = version;
        self.in_flight.block_index = self.in_flight.block_index + 1;
        self.current_block_id = self.in_flight.next_ids.blocks;
        self.in_flight.next_ids.blocks = self.in_flight.next_ids.blocks + 1;
        self.current_transaction_ids = Vec::new();
        self.current_event_ids = Vec::new();
        self.current_call_trace_ids = Vec::new();
        self.block_open = true;
        self.block_already_exported = false;
        self.transaction_index = 0;
        self.block_size = 0;
        self.block_total_fee = 0;
        self.cached_blocks_count = self.cached_blocks_count + 1;
        Ok(())
    }

    /// Number of blocks opened since the last export.
    pub fn get_cached_blocks_count(&self) -> (count: u32)
        ensures
            count == self@.cached_blocks_count,
    {
        self.cached_blocks_count
    }

    /// Number of blocks that the writer wants in one batch.
    pub fn get_blocks_per_export(&self) -> (count: u32)
        ensures
            count == self@.blocks_per_export,
    {
        self.blocks_per_export
    }

    /// Completes the current block: stages its row, unless the block needs
    /// none any more.
    pub fn complete_block(&mut self) -> (result: Result<(), ExportError>)
        ensures
            result == old(self)@.complete_block_result(),
            final(self)@ == old(self)@.complete_block(),
            old(self)@.wf() ==> final(self)@.wf(),
    {
        proof {
            if self@.wf() {
                lemma_complete_block_keeps_wf(self@);
            }
        }
        if self.block_already_exported {
            return Ok(());
        }
        if !self.block_open {
            return Err(ExportError::NoOpenBlock);
        }
        let totals = BlockTotals {
            transaction_ids: clone_ids(&self.current_transaction_ids),
            event_ids: clone_ids(&self.current_event_ids),
            call_trace_ids: clone_ids(&self.current_call_trace_ids),
            size: self.block_size,
            transactions_count: self.transaction_index,
            total_fee: self.block_total_fee,
        };
        let row = build_block_row(
            self.current_block_id,
            self.in_flight.block_index,
            self.in_flight.block_tx_version,
            &self.in_flight.block_metadata,
            &self.previous_block_metadata,
            totals,
        );
        let ghost before = seq_view(self.staged.blocks);
        self.staged.blocks.push(row);
        assert(seq_view(self.staged.blocks) =~= before.push(row@));
        self.block_already_exported = true;
        Ok(())
    }

    /// Adds a transaction of the open block, with what its execution left:
    /// its result, its events with their payloads decoded, and its call
    /// traces.
    pub fn add_transaction(
        &mut self,
        version: Version,
        transaction: &Transaction,
        transaction_info: &TransactionInfo,
        events: &Vec<ContractEvent>,
        call_traces: &Vec<CallTrace>,
    ) -> (result: Result<(), ExportError>)
        ensures
            result == old(self)@.add_transaction_result(
                version,
                transaction@,
                transaction_info@,
                seq_view(*events),
                seq_view(*call_traces),
            ),
            final(self)@ == old(self)@.add_transaction(
                version,
                transaction@,
                transaction_info@,
                seq_view(*events),
                seq_view(*call_traces),
            ),
            old(self)@.wf() ==> final(self)@.wf(),
    {
        proof {
            if self@.wf() {
                lemma_add_transaction_keeps_wf(
                    self@,
                    version,
                    transaction@,
                    transaction_info@,
                    seq_view(*events),
                    seq_view(*call_traces),
                );
            }
        }
        if !(self.block_open && !self.block_already_exported) {
            return Err(ExportError::NoOpenBlock);
        }
        let first_of_stream = version == 0 && self.in_flight.tx_version == 0
            && self.in_flight.block_index == 1 && self.transaction_index == 0;
        if !(version > self.in_flight.tx_version || first_of_stream) {
            return Err(ExportError::VersionNotIncreasing);
        }
        let ids = self.in_flight.next_ids;
        if self.transaction_index == u32::MAX || ids.transactions == u64::MAX || events.len()
            > u32::MAX as usize {
            return Err(ExportError::Overflow);
        }
        let next_event_id = match ids.events.checked_add(events.len() as u64) {
            Some(next) => next,
            None => {
                return Err(ExportError::Overflow);
            },
        };
        let next_call_trace_id = match ids.call_traces.checked_add(call_traces.len() as u64) {
            Some(next) => next,
            None => {
                return Err(ExportError::Overflow);
            },
        };
        let chain_id = match self.chain_id {
            Some(chain_id) => chain_id.id,
            None => 0,
        };
        let context = build_row_context(
            self.current_block_id,
            self.in_flight.block_index,
            self.in_flight.block_tx_version,
            &self.in_flight.block_metadata,
            chain_id,
        );
        let event_ids = build_id_range(ids.events, events.len());
        let call_trace_ids = build_id_range(ids.call_traces, call_traces.len());
        let row = match build_transaction_row(
            &context,
            ids.transactions,
            version,
            transaction,
            transaction_info,
            clone_ids(&event_ids),
            clone_ids(&call_trace_ids),
        ) {
            Ok(row) => row,
            Err(_) => {
                return Err(ExportError::Overflow);
            },
        };
        let fee = match row.fee {
            Some(fee) => fee,
            None => 0,
        };
        let size = match row.size {
            Some(size) => size,
            None => 0,
        };
        let block_total_fee = match self.block_total_fee.checked_add(fee) {
            Some(total) => total,
            None => {
                return Err(ExportError::Overflow);
            },
        };
        let block_size = match self.block_size.checked_add(size) {
            Some(total) => total,
            None => {
                return Err(ExportError::Overflow);
            },
        };
        let mut event_rows = build_event_rows(
            &context,
            ids.events,
            ids.transactions,
            version,
            &transaction_info.transaction_hash,
            events,
        );
        let mut call_trace_rows = build_call_trace_rows(
            &context,
            ids.call_traces,
            ids.transactions,
            version,
            &transaction_info.transaction_hash,
            tx_type_code(transaction),
            call_traces,
        );
        let mut event_ids = event_ids;
        let mut call_trace_ids = call_trace_ids;
        let ghost transactions_before = seq_view(self.staged.transactions);
        let ghost events_before = seq_view(self.staged.events);
        let ghost call_traces_before = seq_view(self.staged.call_traces);
        let ghost new_events = seq_view(event_rows);
        let ghost new_call_traces = seq_view(call_trace_rows);
        self.staged.transactions.push(row);
        self.staged.events.append(&mut event_rows);
        self.staged.call_traces.append(&mut call_trace_rows);
        assert(seq_view(self.staged.transactions) =~= transactions_before.push(row@));
        assert(seq_view(self.staged.events) =~= events_before + new_events);
        assert(seq_view(self.staged.call_traces) =~= call_traces_before + new_call_traces);
        self.current_transaction_ids.push(ids.transactions);
        self.current_event_ids.append(&mut event_ids);
        self.current_call_trace_ids.append(&mut call_trace_ids);
        self.transaction_index = self.transaction_index + 1;
        self.block_size = block_size;
        self.block_total_fee = block_total_fee;
        self.in_flight.tx_version = version;
        self.in_flight.next_ids.transactions = ids.transactions + 1;
        self.in_flight.next_ids.events = next_event_id;
        self.in_flight.next_ids.call_traces = next_call_trace_id;
        Ok(())
    }

    /// For each table, the identifier that its next row gets.
    pub fn next_ids(&self) -> (ids: TableIds)
        ensures
            ids == self@.in_flight.next_ids,
    {
        self.in_flight.next_ids
    }

    /// The rows staged since the last successful export.
    pub fn staged_rows(&self) -> (staged: &StagedRows)
        ensures
            staged@ == self@.staged,
    {
        &self.staged
    }

    /// What an export at this point hands to the writer besides the staged
    /// rows. Refused while a block is open.
    pub fn prepare_export(&self) -> (result: Result<ExportRequest, ExportError>)
        ensures
            result is Ok <==> self@.prepare_export_result() is Ok,
            result matches Err(error) ==> self@.prepare_export_result() == Err::<(), ExportError>(
                error,
            ),
            result matches Ok(request) ==> request.checkpoint@ == self@.pending_checkpoint()
                && request.network_id == self@.network_id(),
    {
        if self.block_open && !self.block_already_exported {
            return Err(ExportError::BlockStillOpen);
        }
        let checkpoint = LastExportData {
            last_known_tx_version: self.in_flight.tx_version,
            last_block_metadata: self.in_flight.block_metadata.clone(),
            last_block_tx_version: self.in_flight.block_tx_version,
            last_known_block_index: self.in_flight.block_index,
        };
        let network_id = match self.chain_id {
            Some(chain_id) => chain_id,
            None => ChainId::test(),
        };
        Ok(ExportRequest { checkpoint, network_id })
    }

    /// Ends an export. `written` says whether the writer made the staged
    /// rows and the checkpoint durable.
    pub fn export(&mut self, written: bool) -> (result: Result<(), ExportError>)
        ensures
            result == old(self)@.export_result(written),
            final(self)@ == old(self)@.export(written),
            result is Ok ==> final(self)@.is_clean(),
            old(self)@.wf() ==> final(self)@.wf(),
    {
        proof {
            if self@.wf() {
                lemma_export_keeps_wf(self@, written);
            }
        }
        if self.block_open && !self.block_already_exported {
            return Err(ExportError::BlockStillOpen);
        }
        if !written {
            return Err(ExportError::WriterFailed);
        }
        self.checkpointed = self.in_flight.clone();
        self.completion_skipped = Ghost(false);
        self.cached_blocks_count = 0;
        self.transaction_index = 0;
        self.block_size = 0;
        self.block_total_fee = 0;
        self.staged = StagedRows {
            blocks: Vec::new(),
            transactions: Vec::new(),
            events: Vec::new(),
            call_traces: Vec::new(),
        };
        assert(self.staged@ =~= StagedRowsView::empty());
        Ok(())
    }

    /// Version of the last transaction seen.
    pub fn last_tx_version(&self) -> (version: Version)
        ensures
            version == self@.in_flight.tx_version,
    {
        self.in_flight.tx_version
    }

    /// Rolls back to the last checkpoint: discards what is staged and
    /// returns to the checkpointed position. Safe in every state.
    pub fn reset_cached_data(&mut self) -> (result: Result<(), ExportError>)
        ensures
            result is Ok,
            final(self)@ == old(self)@.reset_cached_data(),
            final(self)@.wf(),
    {
        proof {
            lemma_reset_keeps_wf(self@);
        }
        self.in_flight = self.checkpointed.clone();
        self.current_transaction_ids = Vec::new();
        self.current_event_ids = Vec::new();
        self.current_call_trace_ids = Vec::new();
        self.block_open = false;
        self.block_already_exported = true;
        self.completion_skipped = Ghost(false);
        self.cached_blocks_count = 0;
        self.transaction_index = 0;
        self.block_size = 0;
        self.block_total_fee = 0;
        self.staged = StagedRows {
            blocks: Vec::new(),
            transactions: Vec::new(),
            events: Vec::new(),
            call_traces: Vec::new(),
        };
        assert(self.staged@ =~= StagedRowsView::empty());
        Ok(())
    }
}

} // verus!
