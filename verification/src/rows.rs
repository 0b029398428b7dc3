//! One row of each of the four tables. A field that a row may lack is an
//! `Option`; a relation list holds the identifiers of the rows it points to,
//! in the order in which they were produced.

use vstd::prelude::*;
use crate::bytes::{opt_seq_view, opt_view, seq_view};

verus! {

/// Version of the row layout, written into every row.
pub const RECORD_VERSION: u8 = 1;

/// Transaction kind of a transaction that an account submitted.
pub const TX_TYPE_USER: u8 = 1;

/// Transaction kind of the transaction that starts the chain.
pub const TX_TYPE_GENESIS: u8 = 2;

/// Transaction kind of the transaction that opens a block.
pub const TX_TYPE_BLOCK_METADATA: u8 = 3;

/// Transaction kind of the transaction that seals a state.
pub const TX_TYPE_STATE_CHECKPOINT: u8 = 4;

/// Payload kind of a transaction that carries no payload.
pub const PAYLOAD_TYPE_NONE: u8 = 0;

/// Payload kind of a script.
pub const PAYLOAD_TYPE_SCRIPT: u8 = 1;

/// Payload kind of a bundle of modules.
pub const PAYLOAD_TYPE_MODULE_BUNDLE: u8 = 2;

/// Payload kind of a call of a published function.
pub const PAYLOAD_TYPE_ENTRY_FUNCTION: u8 = 3;

/// Call kind of a direct call.
pub const CALL_TYPE_CALL: u8 = 1;

/// Call kind of a call with type arguments.
pub const CALL_TYPE_CALL_GENERIC: u8 = 2;

/// A row of the blocks table.
#[derive(Clone, Debug, PartialEq, Eq)]
pub struct BlockRow {
    pub id: u64,
    pub relation_transactions: Vec<u64>,
    pub relation_events: Vec<u64>,
    pub relation_call_traces: Vec<u64>,
    pub record_version: u8,
    pub block_index: u64,
    pub time_index: u64,
    pub block_tx_index: u64,
    pub epoch: u64,
    pub round: u64,
    pub hash: Vec<u8>,
    pub parent_hash: Option<Vec<u8>>,
    pub proposer: Vec<u8>,
    pub previous_block_votes: Vec<u8>,
    pub time: u64,
    pub size: u32,
    pub transactions_count: u32,
    pub total_minted: u64,
    pub total_fee: u64,
}

/// What a [`BlockRow`] holds, as mathematical values.
#[verifier::ext_equal]
pub struct BlockRowView {
    pub id: u64,
    pub relation_transactions: Seq<u64>,
    pub relation_events: Seq<u64>,
    pub relation_call_traces: Seq<u64>,
    pub record_version: u8,
    pub block_index: u64,
    pub time_index: u64,
    pub block_tx_index: u64,
    pub epoch: u64,
    pub round: u64,
    pub hash: Seq<u8>,
    pub parent_hash: Option<Seq<u8>>,
    pub proposer: Seq<u8>,
    pub previous_block_votes: Seq<u8>,
    pub time: u64,
    pub size: u32,
    pub transactions_count: u32,
    pub total_minted: u64,
    pub total_fee: u64,
}

impl View for BlockRow {
    type V = BlockRowView;

    open spec fn view(&self) -> BlockRowView {
        BlockRowView {
            id: self.id,
            relation_transactions: self.relation_transactions@,
            relation_events: self.relation_events@,
            relation_call_traces: self.relation_call_traces@,
            record_version: self.record_version,
            block_index: self.block_index,
            time_index: self.time_index,
            block_tx_index: self.block_tx_index,
            epoch: self.epoch,
            round: self.round,
            hash: self.hash@,
            parent_hash: opt_view(self.parent_hash),
            proposer: self.proposer@,
            previous_block_votes: self.previous_block_votes@,
            time: self.time,
            size: self.size,
            transactions_count: self.transactions_count,
            total_minted: self.total_minted,
            total_fee: self.total_fee,
        }
    }
}

/// A row of the transactions table.
#[derive(Clone, Debug, PartialEq, Eq)]
pub struct TransactionRow {
    pub id: u64,
    pub relation_block: u64,
    pub relation_events: Vec<u64>,
    pub relation_call_traces: Vec<u64>,
    pub record_version: u8,
    pub tx_index: u64,
    pub block_index: u64,
    pub time_index: u64,
    pub block_tx_index: u64,
    pub block_hash: Vec<u8>,
    pub tx_hash: Vec<u8>,
    pub epoch: u64,
    pub chain_id: u8,
    pub state_change_hash: Vec<u8>,
    pub event_root_hash: Vec<u8>,
    pub success: bool,
    pub detailed_status: Vec<u8>,
    pub tx_type: u8,
    pub sender: Option<Vec<u8>>,
    pub sequence_number: Option<u64>,
    pub gas_limit: Option<u64>,
    pub gas_price: Option<u64>,
    pub gas_used: u64,
    pub expiration_timestamp_secs: Option<u64>,
    pub payload_type: u8,
    pub payload_code: Option<Vec<u8>>,
    pub payload_module_address: Option<Vec<u8>>,
    pub payload_method_name: Option<Vec<u8>>,
    pub payload_ty_args: Option<Vec<Vec<u8>>>,
    pub payload_arg_types: Option<Vec<Vec<u8>>>,
    pub payload_arg_values: Option<Vec<Vec<u8>>>,
    pub signature: Option<Vec<u8>>,
    pub state_checkpoint: Option<Vec<u8>>,
    pub proposer: Option<Vec<u8>>,
    pub size: Option<u32>,
    pub time: u64,
    pub fee: Option<u64>,
}

/// What a [`TransactionRow`] holds, as mathematical values.
#[verifier::ext_equal]
pub struct TransactionRowView {
    pub id: u64,
    pub relation_block: u64,
    pub relation_events: Seq<u64>,
    pub relation_call_traces: Seq<u64>,
    pub record_version: u8,
    pub tx_index: u64,
    pub block_index: u64,
    pub time_index: u64,
    pub block_tx_index: u64,
    pub block_hash: Seq<u8>,
    pub tx_hash: Seq<u8>,
    pub epoch: u64,
    pub chain_id: u8,
    pub state_change_hash: Seq<u8>,
    pub event_root_hash: Seq<u8>,
    pub success: bool,
    pub detailed_status: Seq<u8>,
    pub tx_type: u8,
    pub sender: Option<Seq<u8>>,
    pub sequence_number: Option<u64>,
    pub gas_limit: Option<u64>,
    pub gas_price: Option<u64>,
    pub gas_used: u64,
    pub expiration_timestamp_secs: Option<u64>,
    pub payload_type: u8,
    pub payload_code: Option<Seq<u8>>,
    pub payload_module_address: Option<Seq<u8>>,
    pub payload_method_name: Option<Seq<u8>>,
    pub payload_ty_args: Option<Seq<Seq<u8>>>,
    pub payload_arg_types: Option<Seq<Seq<u8>>>,
    pub payload_arg_values: Option<Seq<Seq<u8>>>,
    pub signature: Option<Seq<u8>>,
    pub state_checkpoint: Option<Seq<u8>>,
    pub proposer: Option<Seq<u8>>,
    pub size: Option<u32>,
    pub time: u64,
    pub fee: Option<u64>,
}

impl View for TransactionRow {
    type V = TransactionRowView;

    open spec fn view(&self) -> TransactionRowView {
        TransactionRowView {
            id: self.id,
            relation_block: self.relation_block,
            relation_events: self.relation_events@,
            relation_call_traces: self.relation_call_traces@,
            record_version: self.record_version,
            tx_index: self.tx_index,
            block_index: self.block_index,
            time_index: self.time_index,
            block_tx_index: self.block_tx_index,
            block_hash: self.block_hash@,
            tx_hash: self.tx_hash@,
            epoch: self.epoch,
            chain_id: self.chain_id,
            state_change_hash: self.state_change_hash@,
            event_root_hash: self.event_root_hash@,
            success: self.success,
            detailed_status: self.detailed_status@,
            tx_type: self.tx_type,
            sender: opt_view(self.sender),
            sequence_number: self.sequence_number,
            gas_limit: self.gas_limit,
            gas_price: self.gas_price,
            gas_used: self.gas_used,
            expiration_timestamp_secs: self.expiration_timestamp_secs,
            payload_type: self.payload_type,
            payload_code: opt_view(self.payload_code),
            payload_module_address: opt_view(self.payload_module_address),
            payload_method_name: opt_view(self.payload_method_name),
            payload_ty_args: opt_seq_view(self.payload_ty_args),
            payload_arg_types: opt_seq_view(self.payload_arg_types),
            payload_arg_values: opt_seq_view(self.payload_arg_values),
            signature: opt_view(self.signature),
            state_checkpoint: opt_view(self.state_checkpoint),
            proposer: opt_view(self.proposer),
            size: self.size,
            time: self.time,
            fee: self.fee,
        }
    }
}

/// A row of the events table.
#[derive(Clone, Debug, PartialEq, Eq)]
pub struct EventRow {
    pub id: u64,
    pub relation_block: u64,
    pub relation_transaction: u64,
    pub record_version: u8,
    pub tx_index: u64,
    pub block_index: u64,
    pub time_index: u64,
    pub block_tx_index: u64,
    pub block_hash: Vec<u8>,
    pub tx_hash: Vec<u8>,
    /// Position of the event within its transaction, from 0.
    pub index: u32,
    pub module_address: Option<Vec<u8>>,
    pub event_name: Option<Vec<u8>>,
    pub payload_arg_types: Vec<Vec<u8>>,
    pub payload_arg_names: Vec<Vec<u8>>,
    pub payload_arg_values: Vec<Vec<u8>>,
    pub creation_number: u64,
}

/// What a [`EventRow`] holds, as mathematical values.
#[verifier::ext_equal]
pub struct EventRowView {
    pub id: u64,
    pub relation_block: u64,
    pub relation_transaction: u64,
    pub record_version: u8,
    pub tx_index: u64,
    pub block_index: u64,
    pub time_index: u64,
    pub block_tx_index: u64,
    pub block_hash: Seq<u8>,
    pub tx_hash: Seq<u8>,
    pub index: u32,
    pub module_address: Option<Seq<u8>>,
    pub event_name: Option<Seq<u8>>,
    pub payload_arg_types: Seq<Seq<u8>>,
    pub payload_arg_names: Seq<Seq<u8>>,
    pub payload_arg_values: Seq<Seq<u8>>,
    pub creation_number: u64,
}

impl View for EventRow {
    type V = EventRowView;

    open spec fn view(&self) -> EventRowView {
        EventRowView {
            id: self.id,
            relation_block: self.relation_block,
            relation_transaction: self.relation_transaction,
            record_version: self.record_version,
            tx_index: self.tx_index,
            block_index: self.block_index,
            time_index: self.time_index,
            block_tx_index: self.block_tx_index,
            block_hash: self.block_hash@,
            tx_hash: self.tx_hash@,
            index: self.index,
            module_address: opt_view(self.module_address),
            event_name: opt_view(self.event_name),
            payload_arg_types: seq_view(self.payload_arg_types),
            payload_arg_names: seq_view(self.payload_arg_names),
            payload_arg_values: seq_view(self.payload_arg_values),
            creation_number: self.creation_number,
        }
    }
}

/// A row of the call traces table.
#[derive(Clone, Debug, PartialEq, Eq)]
pub struct CallTraceRow {
    pub id: u64,
    pub relation_block: u64,
    pub relation_transaction: u64,
    pub record_version: u8,
    pub tx_index: u64,
    pub block_index: u64,
    pub time_index: u64,
    pub block_tx_index: u64,
    pub block_hash: Vec<u8>,
    pub tx_hash: Vec<u8>,
    pub tx_type: u8,
    pub depth: u32,
    pub call_type: u8,
    pub module_address: Option<Vec<u8>>,
    pub method_name: Vec<u8>,
    pub ty_args: Vec<Vec<u8>>,
    pub arg_types: Vec<Vec<u8>>,
    pub arg_values: Vec<Vec<u8>>,
    pub gas_used: u64,
    pub err: Option<Vec<u8>>,
}

/// What a [`CallTraceRow`] holds, as mathematical values.
#[verifier::ext_equal]
pub struct CallTraceRowView {
    pub id: u64,
    pub relation_block: u64,
    pub relation_transaction: u64,
    pub record_version: u8,
    pub tx_index: u64,
    pub block_index: u64,
    pub time_index: u64,
    pub block_tx_index: u64,
    pub block_hash: Seq<u8>,
    pub tx_hash: Seq<u8>,
    pub tx_type: u8,
    pub depth: u32,
    pub call_type: u8,
    pub module_address: Option<Seq<u8>>,
    pub method_name: Seq<u8>,
    pub ty_args: Seq<Seq<u8>>,
    pub arg_types: Seq<Seq<u8>>,
    pub arg_values: Seq<Seq<u8>>,
    pub gas_used: u64,
    pub err: Option<Seq<u8>>,
}

impl View for CallTraceRow {
    type V = CallTraceRowView;

    open spec fn view(&self) -> CallTraceRowView {
        CallTraceRowView {
            id: self.id,
            relation_block: self.relation_block,
            relation_transaction: self.relation_transaction,
            record_version: self.record_version,
            tx_index: self.tx_index,
            block_index: self.block_index,
            time_index: self.time_index,
            block_tx_index: self.block_tx_index,
            block_hash: self.block_hash@,
            tx_hash: self.tx_hash@,
            tx_type: self.tx_type,
            depth: self.depth,
            call_type: self.call_type,
            module_address: opt_view(self.module_address),
            method_name: self.method_name@,
            ty_args: seq_view(self.ty_args),
            arg_types: seq_view(self.arg_types),
            arg_values: seq_view(self.arg_values),
            gas_used: self.gas_used,
            err: opt_view(self.err),
        }
    }
}

} // verus!
