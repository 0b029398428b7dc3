//! The exporter's state as mathematical values, and each operation as a
//! function from the state before to the state after. The executable
//! exporter is held to these functions; the laws of the pipeline are proved
//! of them.

use vstd::prelude::*;
use crate::bytes::seq_view;
use crate::chain::{CallTraceView, ContractEventView, TransactionInfoView, TransactionView};
use crate::error::ExportError;
use crate::record::{
    block_row, call_trace_rows, event_rows, id_range, row_context, transaction_fee,
    transaction_fits, transaction_row, transaction_size, tx_type, BlockTotalsView, RowContextView,
};
use crate::rows::{
    BlockRow, BlockRowView, CallTraceRow, CallTraceRowView, EventRow, EventRowView, TransactionRow,
    TransactionRowView,
};
use crate::types::{BlockMetadata, BlockMetadataView, ChainId, LastExportDataView, Version};

verus! {

/// For each table, the identifier that its next row gets.
#[derive(Clone, Copy, Debug, PartialEq, Eq, Structural)]
pub struct TableIds {
    pub blocks: u64,
    pub transactions: u64,
    pub events: u64,
    pub call_traces: u64,
}

/// A position in the stream: the block reached, the last transaction seen
/// and the identifiers not yet given out. The exporter holds two: where it
/// is, and where it was at the last successful export.
#[derive(Debug, PartialEq, Eq)]
pub struct StreamState {
    pub block_metadata: BlockMetadata,
    /// Version of the block's first transaction.
    pub block_tx_version: Version,
    pub block_index: u64,
    /// Version of the last transaction seen.
    pub tx_version: Version,
    pub next_ids: TableIds,
}

/// What a [`StreamState`] holds, as mathematical values.
#[verifier::ext_equal]
pub struct StreamStateView {
    pub block_metadata: BlockMetadataView,
    pub block_tx_version: Version,
    pub block_index: u64,
    pub tx_version: Version,
    pub next_ids: TableIds,
}

impl View for StreamState {
    type V = StreamStateView;

    open spec fn view(&self) -> StreamStateView {
        StreamStateView {
            block_metadata: self.block_metadata@,
            block_tx_version: self.block_tx_version,
            block_index: self.block_index,
            tx_version: self.tx_version,
            next_ids: self.next_ids,
        }
    }
}

impl Clone for StreamState {
    fn clone(&self) -> (copy: Self)
        ensures
            copy@ == self@,
    {
        StreamState {
            block_metadata: self.block_metadata.clone(),
            block_tx_version: self.block_tx_version,
            block_index: self.block_index,
            tx_version: self.tx_version,
            next_ids: self.next_ids,
        }
    }
}

impl StreamStateView {
    /// The checkpoint that records this position.
    pub open spec fn checkpoint(self) -> LastExportDataView {
        LastExportDataView {
            last_known_tx_version: self.tx_version,
            last_block_metadata: self.block_metadata,
            last_block_tx_version: self.block_tx_version,
            last_known_block_index: self.block_index,
        }
    }
}

/// The rows built since the last successful export, table by table, in the
/// order in which they were built.
#[derive(Clone, Debug, PartialEq, Eq)]
pub struct StagedRows {
    pub blocks: Vec<BlockRow>,
    pub transactions: Vec<TransactionRow>,
    pub events: Vec<EventRow>,
    pub call_traces: Vec<CallTraceRow>,
}

/// What a [`StagedRows`] holds, as mathematical values.
#[verifier::ext_equal]
pub struct StagedRowsView {
    pub blocks: Seq<BlockRowView>,
    pub transactions: Seq<TransactionRowView>,
    pub events: Seq<EventRowView>,
    pub call_traces: Seq<CallTraceRowView>,
}

impl View for StagedRows {
    type V = StagedRowsView;

    open spec fn view(&self) -> StagedRowsView {
        StagedRowsView {
            blocks: seq_view(self.blocks),
            transactions: seq_view(self.transactions),
            events: seq_view(self.events),
            call_traces: seq_view(self.call_traces),
        }
    }
}

impl StagedRowsView {
    /// No row in any table.
    pub open spec fn empty() -> StagedRowsView {
        StagedRowsView {
            blocks: Seq::empty(),
            transactions: Seq::empty(),
            events: Seq::empty(),
            call_traces: Seq::empty(),
        }
    }
}

/// The state of an exporter.
#[verifier::ext_equal]
pub struct ExporterView {
    /// The block before the current one, where there is one.
    pub previous_block_metadata: Option<BlockMetadataView>,
    /// Where the exporter is.
    pub in_flight: StreamStateView,
    /// Where the exporter was at the last successful export.
    pub checkpointed: StreamStateView,
    pub current_block_id: u64,
    pub current_transaction_ids: Seq<u64>,
    pub current_event_ids: Seq<u64>,
    pub current_call_trace_ids: Seq<u64>,
    /// A block has been opened since the last rollback.
    pub block_open: bool,
    /// The current block needs no row any more.
    pub block_already_exported: bool,
    /// Since the last export a block was marked as exported while it was
    /// open, so that its identifier belongs to no row.
    pub completion_skipped: bool,
    pub chain_id: Option<ChainId>,
    pub cached_blocks_count: u32,
    /// Number of transactions of the current block.
    pub transaction_index: u32,
    pub block_size: u32,
    pub block_total_fee: u64,
    pub blocks_per_export: u32,
    pub staged: StagedRowsView,
}

impl ExporterView {
    /// A block is open: started, and its row not yet built.
    pub open spec fn is_open(self) -> bool {
        self.block_open && !self.block_already_exported
    }

    /// The state right after construction, or right after a successful
    /// export: nothing staged, and the position is the checkpointed one.
    pub open spec fn is_clean(self) -> bool {
        &&& !self.is_open()
        &&& self.in_flight == self.checkpointed
        &&& self.staged == StagedRowsView::empty()
        &&& self.cached_blocks_count == 0
        &&& !self.completion_skipped
    }

    /// The state of a new exporter that resumes from `position`.
    pub open spec fn initial(
        chain_id: Option<ChainId>,
        position: StreamStateView,
        blocks_per_export: u32,
    ) -> ExporterView {
        ExporterView {
            previous_block_metadata: if position.block_index == 0 {
                None
            } else {
                Some(position.block_metadata)
            },
            in_flight: position,
            checkpointed: position,
            current_block_id: position.block_index,
            current_transaction_ids: Seq::empty(),
            current_event_ids: Seq::empty(),
            current_call_trace_ids: Seq::empty(),
            block_open: false,
            block_already_exported: false,
            completion_skipped: false,
            chain_id,
            cached_blocks_count: 0,
            transaction_index: 0,
            block_size: 0,
            block_total_fee: 0,
            blocks_per_export,
            staged: StagedRowsView::empty(),
        }
    }

    /// The chain identifier written into rows: 0 while none is known.
    pub open spec fn row_chain_id(self) -> u8 {
        match self.chain_id {
            Some(chain_id) => chain_id.id,
            None => 0,
        }
    }

    /// What the rows of the current block's transactions copy from it.
    pub open spec fn context(self) -> RowContextView {
        row_context(
            self.current_block_id,
            self.in_flight.block_index,
            self.in_flight.block_tx_version,
            self.in_flight.block_metadata,
            self.row_chain_id(),
        )
    }

    /// Whether a block can be opened, and if not, why.
    pub open spec fn add_current_block_result(self) -> Result<(), ExportError> {
        if self.is_open() {
            Err(ExportError::BlockStillOpen)
        } else if self.in_flight.block_index == u64::MAX || self.in_flight.next_ids.blocks
            == u64::MAX || self.cached_blocks_count == u32::MAX {
            Err(ExportError::Overflow)
        } else {
            Ok(())
        }
    }

    /// The state after opening the block `block_metadata`, whose first
    /// transaction has the version `version`. The block that was current
    /// becomes the previous one; the new block gets the next index and a
    /// fresh identifier; its buffers and totals start empty.
    pub open spec fn add_current_block(
        self,
        block_metadata: BlockMetadataView,
        version: Version,
    ) -> ExporterView {
        if self.add_current_block_result() is Err {
            self
        } else {
            ExporterView {
                previous_block_metadata: if self.in_flight.block_index == 0 {
                    None
                } else {
                    Some(self.in_flight.block_metadata)
                },
                in_flight: StreamStateView {
                    block_metadata,
                    block_tx_version: version,
                    block_index: (self.in_flight.block_index + 1) as u64,
                    tx_version: self.in_flight.tx_version,
                    next_ids: TableIds {
                        blocks: (self.in_flight.next_ids.blocks + 1) as u64,
                        ..self.in_flight.next_ids
                    },
                },
                current_block_id: self.in_flight.next_ids.blocks,
                current_transaction_ids: Seq::empty(),
                current_event_ids: Seq::empty(),
                current_call_trace_ids: Seq::empty(),
                block_open: true,
                block_already_exported: false,
                cached_blocks_count: (self.cached_blocks_count + 1) as u32,
                transaction_index: 0,
                block_size: 0,
                block_total_fee: 0,
                ..self
            }
        }
    }

    /// A transaction of this version may follow what has been seen:
    /// versions strictly increase, and the chain's first version, 0, is
    /// accepted as the first transaction of the first block.
    pub open spec fn accepts_version(self, version: Version) -> bool {
        ||| version > self.in_flight.tx_version
        ||| (version == 0 && self.in_flight.tx_version == 0 && self.in_flight.block_index == 1
            && self.transaction_index == 0)
    }

    /// The transaction, its events and its call traces fit: their
    /// identifiers, the block's count, size and fee, and each event's index.
    pub open spec fn has_room(
        self,
        transaction: TransactionView,
        gas_used: u64,
        events: nat,
        call_traces: nat,
    ) -> bool {
        &&& transaction_fits(transaction, gas_used)
        &&& self.transaction_index < u32::MAX
        &&& self.block_size + transaction_size(transaction) <= u32::MAX
        &&& self.block_total_fee + transaction_fee(transaction, gas_used) <= u64::MAX
        &&& events <= u32::MAX
        &&& self.in_flight.next_ids.transactions < u64::MAX
        &&& self.in_flight.next_ids.events + events <= u64::MAX
        &&& self.in_flight.next_ids.call_traces + call_traces <= u64::MAX
    }

    /// Whether a transaction can be added, and if not, why.
    pub open spec fn add_transaction_result(
        self,
        version: Version,
        transaction: TransactionView,
        info: TransactionInfoView,
        events: Seq<ContractEventView>,
        call_traces: Seq<CallTraceView>,
    ) -> Result<(), ExportError> {
        if !self.is_open() {
            Err(ExportError::NoOpenBlock)
        } else if !self.accepts_version(version) {
            Err(ExportError::VersionNotIncreasing)
        } else if !self.has_room(transaction, info.gas_used, events.len(), call_traces.len()) {
            Err(ExportError::Overflow)
        } else {
            Ok(())
        }
    }

    /// The state after adding a transaction of the open block. One
    /// transaction row, one row for each event and one for each call trace
    /// are staged, each under a fresh identifier; the identifiers join the
    /// block's buffers; the block's count, size and fee grow by this
    /// transaction's; the last version seen becomes `version`.
    pub open spec fn add_transaction(
        self,
        version: Version,
        transaction: TransactionView,
        info: TransactionInfoView,
        events: Seq<ContractEventView>,
        call_traces: Seq<CallTraceView>,
    ) -> ExporterView {
        if self.add_transaction_result(version, transaction, info, events, call_traces) is Err {
            self
        } else {
            let ids = self.in_flight.next_ids;
            let event_ids = id_range(ids.events, events.len());
            let call_trace_ids = id_range(ids.call_traces, call_traces.len());
            ExporterView {
                in_flight: StreamStateView {
                    tx_version: version,
                    next_ids: TableIds {
                        blocks: ids.blocks,
                        transactions: (ids.transactions + 1) as u64,
                        events: (ids.events + events.len()) as u64,
                        call_traces: (ids.call_traces + call_traces.len()) as u64,
                    },
                    ..self.in_flight
                },
                current_transaction_ids: self.current_transaction_ids.push(ids.transactions),
                current_event_ids: self.current_event_ids + event_ids,
                current_call_trace_ids: self.current_call_trace_ids + call_trace_ids,
                transaction_index: (self.transaction_index + 1) as u32,
                block_size: (self.block_size + transaction_size(transaction)) as u32,
                block_total_fee: (self.block_total_fee + transaction_fee(
                    transaction,
                    info.gas_used,
                )) as u64,
                staged: StagedRowsView {
                    blocks: self.staged.blocks,
                    transactions: self.staged.transactions.push(
                        transaction_row(
                            self.context(),
                            ids.transactions,
                            version,
                            transaction,
                            info,
                            event_ids,
                            call_trace_ids,
                        ),
                    ),
                    events: self.staged.events + event_rows(
                        self.context(),
                        ids.events,
                        ids.transactions,
                        version,
                        info.transaction_hash,
                        events,
                    ),
                    call_traces: self.staged.call_traces + call_trace_rows(
                        self.context(),
                        ids.call_traces,
                        ids.transactions,
                        version,
                        info.transaction_hash,
                        tx_type(transaction),
                        call_traces,
                    ),
                },
                ..self
            }
        }
    }

    /// Whether the current block can be completed, and if not, why. A block
    /// that needs no row any more is completed already.
    pub open spec fn complete_block_result(self) -> Result<(), ExportError> {
        if self.block_already_exported || self.block_open {
            Ok(())
        } else {
            Err(ExportError::NoOpenBlock)
        }
    }

    /// What the current block has gathered.
    pub open spec fn totals(self) -> BlockTotalsView {
        BlockTotalsView {
            transaction_ids: self.current_transaction_ids,
            event_ids: self.current_event_ids,
            call_trace_ids: self.current_call_trace_ids,
            size: self.block_size,
            transactions_count: self.transaction_index,
            total_fee: self.block_total_fee,
        }
    }

    /// The row of the current block.
    pub open spec fn current_block_row(self) -> BlockRowView {
        block_row(
            self.current_block_id,
            self.in_flight.block_index,
            self.in_flight.block_tx_version,
            self.in_flight.block_metadata,
            self.previous_block_metadata,
            self.totals(),
        )
    }

    /// The state after completing the current block: its row is staged and
    /// the block needs no row any more. Where it needed none, nothing
    /// changes.
    pub open spec fn complete_block(self) -> ExporterView {
        if self.is_open() {
            ExporterView {
                block_already_exported: true,
                staged: StagedRowsView {
                    blocks: self.staged.blocks.push(self.current_block_row()),
                    ..self.staged
                },
                ..self
            }
        } else {
            self
        }
    }

    /// The state after marking the current block as one that needs no row.
    pub open spec fn set_block_already_exported(self) -> ExporterView {
        ExporterView {
            block_already_exported: true,
            completion_skipped: self.completion_skipped || self.is_open(),
            ..self
        }
    }

    /// The checkpoint that an export at this point records.
    pub open spec fn pending_checkpoint(self) -> LastExportDataView {
        self.in_flight.checkpoint()
    }

    /// The network that an export at this point names: the chain's, or the
    /// test network while none is known.
    pub open spec fn network_id(self) -> ChainId {
        match self.chain_id {
            Some(chain_id) => chain_id,
            None => ChainId::spec_test(),
        }
    }

    /// Whether an export can be prepared, and if not, why: no checkpoint
    /// describes a position inside a block.
    pub open spec fn prepare_export_result(self) -> Result<(), ExportError> {
        if self.is_open() {
            Err(ExportError::BlockStillOpen)
        } else {
            Ok(())
        }
    }

    /// How an export ends, given whether the writer made the batch durable.
    pub open spec fn export_result(self, written: bool) -> Result<(), ExportError> {
        if self.is_open() {
            Err(ExportError::BlockStillOpen)
        } else if !written {
            Err(ExportError::WriterFailed)
        } else {
            Ok(())
        }
    }

    /// The state after an export. Where it succeeded, the position reached
    /// becomes the checkpointed one, nothing is staged any more, and the
    /// counters of the export start again from zero. Where it failed,
    /// nothing changes.
    pub open spec fn export(self, written: bool) -> ExporterView {
        if self.export_result(written) is Err {
            self
        } else {
            ExporterView {
                checkpointed: self.in_flight,
                completion_skipped: false,
                cached_blocks_count: 0,
                transaction_index: 0,
                block_size: 0,
                block_total_fee: 0,
                staged: StagedRowsView::empty(),
                ..self
            }
        }
    }

    /// The state after a rollback: the position is the checkpointed one
    /// again, nothing is staged, no block is open, and the block that was
    /// current needs no row.
    pub open spec fn reset_cached_data(self) -> ExporterView {
        ExporterView {
            in_flight: self.checkpointed,
            current_transaction_ids: Seq::empty(),
            current_event_ids: Seq::empty(),
            current_call_trace_ids: Seq::empty(),
            block_open: false,
            block_already_exported: true,
            completion_skipped: false,
            cached_blocks_count: 0,
            transaction_index: 0,
            block_size: 0,
            block_total_fee: 0,
            staged: StagedRowsView::empty(),
            ..self
        }
    }
}

} // verus!
