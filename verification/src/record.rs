//! The record builder: pure mappings from a block, a transaction, an event
//! or a call trace to the row that stands for it. Each mapping is stated
//! once as a spec function over views and implemented by an executable
//! function that returns exactly that row.

use vstd::prelude::*;
use crate::bytes::{
    be_bytes, clone_bytes, clone_bytes_list, clone_optional_bytes, opt_view, seq_view,
    u128_to_be_bytes, u64_to_be_bytes,
};
use crate::chain::{
    AnnotatedFieldView, AnnotatedMoveValue, AnnotatedMoveValueView, CallTrace, CallTraceView,
    CallType, ContractEvent, ContractEventView, Transaction, TransactionArgument,
    TransactionArgumentView, TransactionInfo, TransactionInfoView, TransactionPayload,
    TransactionPayloadView, TransactionView, TypeTag, TypeTagView,
};
use crate::error::ExportError;
use crate::rows::{
    BlockRow, BlockRowView, CallTraceRow, CallTraceRowView, EventRow, EventRowView, TransactionRow,
    TransactionRowView, CALL_TYPE_CALL, CALL_TYPE_CALL_GENERIC, PAYLOAD_TYPE_ENTRY_FUNCTION,
    PAYLOAD_TYPE_MODULE_BUNDLE, PAYLOAD_TYPE_NONE, PAYLOAD_TYPE_SCRIPT, RECORD_VERSION,
    TX_TYPE_BLOCK_METADATA, TX_TYPE_GENESIS, TX_TYPE_STATE_CHECKPOINT, TX_TYPE_USER,
};
use crate::types::{BlockMetadata, BlockMetadataView, Version};

verus! {

/// The kinds of value that a row names by a fixed word.
#[derive(Clone, Copy, Debug, PartialEq, Eq, Structural)]
pub enum ValueKind {
    U8,
    U64,
    U128,
    Address,
    VecU8,
    Bool,
}

impl ValueKind {
    /// The word that names the kind, in ASCII: `u8`, `u64`, `u128`,
    /// `address`, `vec_u8` or `bool`.
    pub open spec fn name(self) -> Seq<u8> {
        match self {
            ValueKind::U8 => seq![117u8, 56u8],
            ValueKind::U64 => seq![117u8, 54u8, 52u8],
            ValueKind::U128 => seq![117u8, 49u8, 50u8, 56u8],
            ValueKind::Address => seq![97u8, 100u8, 100u8, 114u8, 101u8, 115u8, 115u8],
            ValueKind::VecU8 => seq![118u8, 101u8, 99u8, 95u8, 117u8, 56u8],
            ValueKind::Bool => seq![98u8, 111u8, 111u8, 108u8],
        }
    }

    /// The word that names the kind.
    pub fn name_bytes(self) -> (name: Vec<u8>)
        ensures
            name@ == self.name(),
    {
        let name = match self {
            ValueKind::U8 => vec![117u8, 56u8],
            ValueKind::U64 => vec![117u8, 54u8, 52u8],
            ValueKind::U128 => vec![117u8, 49u8, 50u8, 56u8],
            ValueKind::Address => vec![97u8, 100u8, 100u8, 114u8, 101u8, 115u8, 115u8],
            ValueKind::VecU8 => vec![118u8, 101u8, 99u8, 95u8, 117u8, 56u8],
            ValueKind::Bool => vec![98u8, 111u8, 111u8, 108u8],
        };
        assert(name@ =~= self.name());
        name
    }
}

/// The single byte that stands for a boolean: 1 for true, 0 for false.
pub open spec fn bool_byte(value: bool) -> u8 {
    if value {
        1
    } else {
        0
    }
}

/// The kind of a script argument.
pub open spec fn argument_kind(argument: TransactionArgumentView) -> ValueKind {
    match argument {
        TransactionArgumentView::U8(_) => ValueKind::U8,
        TransactionArgumentView::U64(_) => ValueKind::U64,
        TransactionArgumentView::U128(_) => ValueKind::U128,
        TransactionArgumentView::Address(_) => ValueKind::Address,
        TransactionArgumentView::U8Vector(_) => ValueKind::VecU8,
        TransactionArgumentView::Bool(_) => ValueKind::Bool,
    }
}

/// The bytes that stand for a script argument: numbers big-endian, a
/// boolean as one byte, addresses and byte strings as they are.
pub open spec fn argument_value(argument: TransactionArgumentView) -> Seq<u8> {
    match argument {
        TransactionArgumentView::U8(value) => seq![value],
        TransactionArgumentView::U64(value) => be_bytes(value as nat, 8),
        TransactionArgumentView::U128(value) => be_bytes(value as nat, 16),
        TransactionArgumentView::Address(value) => value,
        TransactionArgumentView::U8Vector(value) => value,
        TransactionArgumentView::Bool(value) => seq![bool_byte(value)],
    }
}

/// The payload columns of a transaction row.
#[derive(Clone, Debug, PartialEq, Eq)]
pub struct PayloadColumns {
    pub payload_type: u8,
    pub code: Option<Vec<u8>>,
    pub module_address: Option<Vec<u8>>,
    pub method_name: Option<Vec<u8>>,
    pub ty_args: Option<Vec<Vec<u8>>>,
    pub arg_types: Option<Vec<Vec<u8>>>,
    pub arg_values: Option<Vec<Vec<u8>>>,
}

/// What a [`PayloadColumns`] holds, as mathematical values.
#[verifier::ext_equal]
pub struct PayloadColumnsView {
    pub payload_type: u8,
    pub code: Option<Seq<u8>>,
    pub module_address: Option<Seq<u8>>,
    pub method_name: Option<Seq<u8>>,
    pub ty_args: Option<Seq<Seq<u8>>>,
    pub arg_types: Option<Seq<Seq<u8>>>,
    pub arg_values: Option<Seq<Seq<u8>>>,
}

impl View for PayloadColumns {
    type V = PayloadColumnsView;

    open spec fn view(&self) -> PayloadColumnsView {
        PayloadColumnsView {
            payload_type: self.payload_type,
            code: opt_view(self.code),
            module_address: opt_view(self.module_address),
            method_name: opt_view(self.method_name),
            ty_args: crate::bytes::opt_seq_view(self.ty_args),
            arg_types: crate::bytes::opt_seq_view(self.arg_types),
            arg_values: crate::bytes::opt_seq_view(self.arg_values),
        }
    }
}

/// The payload columns of a transaction that carries no payload.
pub open spec fn no_payload() -> PayloadColumnsView {
    PayloadColumnsView {
        payload_type: PAYLOAD_TYPE_NONE,
        code: None,
        module_address: None,
        method_name: None,
        ty_args: None,
        arg_types: None,
        arg_values: None,
    }
}

/// The payload columns of a user transaction, by the kind of its payload.
/// A script gives its code, its type arguments and, for each argument, the
/// word for its kind and its bytes. A module bundle gives its kind only. An
/// entry function gives the module's address, the function's name, its
/// type arguments and its arguments as they came.
pub open spec fn payload_columns(payload: TransactionPayloadView) -> PayloadColumnsView {
    match payload {
        TransactionPayloadView::Script(script) => PayloadColumnsView {
            payload_type: PAYLOAD_TYPE_SCRIPT,
            code: Some(script.code),
            module_address: None,
            method_name: None,
            ty_args: Some(script.ty_args),
            arg_types: Some(
                script.args.map_values(|a: TransactionArgumentView| argument_kind(a).name()),
            ),
            arg_values: Some(
                script.args.map_values(|a: TransactionArgumentView| argument_value(a)),
            ),
        },
        TransactionPayloadView::ModuleBundle => PayloadColumnsView {
            payload_type: PAYLOAD_TYPE_MODULE_BUNDLE,
            ..no_payload()
        },
        TransactionPayloadView::EntryFunction(entry) => PayloadColumnsView {
            payload_type: PAYLOAD_TYPE_ENTRY_FUNCTION,
            code: None,
            module_address: Some(entry.module_address),
            method_name: Some(entry.function),
            ty_args: Some(entry.ty_args),
            arg_types: None,
            arg_values: Some(entry.args),
        },
    }
}

/// The word for the kind of a script argument.
fn argument_type_bytes(argument: &TransactionArgument) -> (name: Vec<u8>)
    ensures
        name@ == argument_kind(argument@).name(),
{
    match argument {
        TransactionArgument::U8(_) => ValueKind::U8.name_bytes(),
        TransactionArgument::U64(_) => ValueKind::U64.name_bytes(),
        TransactionArgument::U128(_) => ValueKind::U128.name_bytes(),
        TransactionArgument::Address(_) => ValueKind::Address.name_bytes(),
        TransactionArgument::U8Vector(_) => ValueKind::VecU8.name_bytes(),
        TransactionArgument::Bool(_) => ValueKind::Bool.name_bytes(),
    }
}

/// The single byte that stands for a boolean, as a byte string.
fn bool_bytes(value: bool) -> (bytes: Vec<u8>)
    ensures
        bytes@ == seq![bool_byte(value)],
{
    let bytes = if value {
        vec![1u8]
    } else {
        vec![0u8]
    };
    assert(bytes@ =~= seq![bool_byte(value)]);
    bytes
}

/// The bytes that stand for a script argument.
fn argument_value_bytes(argument: &TransactionArgument) -> (bytes: Vec<u8>)
    ensures
        bytes@ == argument_value(argument@),
{
    match argument {
        TransactionArgument::U8(value) => {
            let bytes = vec![*value];
            assert(bytes@ =~= seq![*value]);
            bytes
        },
        TransactionArgument::U64(value) => u64_to_be_bytes(*value),
        TransactionArgument::U128(value) => u128_to_be_bytes(*value),
        TransactionArgument::Address(value) => clone_bytes(value),
        TransactionArgument::U8Vector(value) => clone_bytes(value),
        TransactionArgument::Bool(value) => bool_bytes(*value),
    }
}

/// Maps the payload of a user transaction to its columns.
pub fn build_payload_columns(payload: &TransactionPayload) -> (columns: PayloadColumns)
    ensures
        columns@ == payload_columns(payload@),
{
    match payload {
        TransactionPayload::Script(script) => {
            let mut arg_types: Vec<Vec<u8>> = Vec::new();
            let mut arg_values: Vec<Vec<u8>> = Vec::new();
            let ghost args = seq_view(script.args);
            let mut i: usize = 0;
            while i < script.args.len()
                invariant
                    i <= script.args.len(),
                    args == seq_view(script.args),
                    seq_view(arg_types) =~= args.map_values(
                        |a: TransactionArgumentView| argument_kind(a).name(),
                    ).subrange(0, i as int),
                    seq_view(arg_values) =~= args.map_values(
                        |a: TransactionArgumentView| argument_value(a),
                    ).subrange(0, i as int),
                decreases script.args.len() - i,
            {
                let name = argument_type_bytes(&script.args[i]);
                let value = argument_value_bytes(&script.args[i]);
                let ghost types_before = seq_view(arg_types);
                let ghost values_before = seq_view(arg_values);
                arg_types.push(name);
                arg_values.push(value);
                assert(seq_view(arg_types) =~= types_before.push(name@));
                assert(seq_view(arg_values) =~= values_before.push(value@));
                i = i + 1;
            }
            proof {
                let types = args.map_values(|a: TransactionArgumentView| argument_kind(a).name());
                let values = args.map_values(|a: TransactionArgumentView| argument_value(a));
                assert(types.subrange(0, args.len() as int) =~= types);
                assert(values.subrange(0, args.len() as int) =~= values);
            }
            PayloadColumns {
                payload_type: PAYLOAD_TYPE_SCRIPT,
                code: Some(clone_bytes(&script.code)),
                module_address: None,
                method_name: None,
                ty_args: Some(clone_bytes_list(&script.ty_args)),
                arg_types: Some(arg_types),
                arg_values: Some(arg_values),
            }
        },
        TransactionPayload::ModuleBundle => PayloadColumns {
            payload_type: PAYLOAD_TYPE_MODULE_BUNDLE,
            code: None,
            module_address: None,
            method_name: None,
            ty_args: None,
            arg_types: None,
            arg_values: None,
        },
        TransactionPayload::EntryFunction(entry) => PayloadColumns {
            payload_type: PAYLOAD_TYPE_ENTRY_FUNCTION,
            code: None,
            module_address: Some(clone_bytes(&entry.module_address)),
            method_name: Some(clone_bytes(&entry.function)),
            ty_args: Some(clone_bytes_list(&entry.ty_args)),
            arg_types: None,
            arg_values: Some(clone_bytes_list(&entry.args)),
        },
    }
}

/// The payload columns of an event row: three lists of equal standing.
#[derive(Clone, Debug, PartialEq, Eq)]
pub struct EventPayload {
    pub types: Vec<Vec<u8>>,
    pub names: Vec<Vec<u8>>,
    pub values: Vec<Vec<u8>>,
}

/// What a [`EventPayload`] holds, as mathematical values.
#[verifier::ext_equal]
pub struct EventPayloadView {
    pub types: Seq<Seq<u8>>,
    pub names: Seq<Seq<u8>>,
    pub values: Seq<Seq<u8>>,
}

impl View for EventPayload {
    type V = EventPayloadView;

    open spec fn view(&self) -> EventPayloadView {
        EventPayloadView {
            types: seq_view(self.types),
            names: seq_view(self.names),
            values: seq_view(self.values),
        }
    }
}

/// The payload columns of a value that is no struct: one type, one value,
/// no name.
pub open spec fn scalar_payload(kind_name: Seq<u8>, value: Seq<u8>) -> EventPayloadView {
    EventPayloadView { types: seq![kind_name], names: Seq::empty(), values: seq![value] }
}

/// The payload columns of a decoded event value. A number gives its
/// big-endian bytes, a boolean one byte, an address or a byte string its
/// bytes, each under the word for its kind. A vector gives the text of its
/// element type and its elements as serialised. A struct gives, for each
/// field in the order of declaration, the field's type, name and value.
pub open spec fn event_payload(value: AnnotatedMoveValueView) -> EventPayloadView {
    match value {
        AnnotatedMoveValueView::U8(v) => scalar_payload(ValueKind::U8.name(), seq![v]),
        AnnotatedMoveValueView::U64(v) => scalar_payload(
            ValueKind::U64.name(),
            be_bytes(v as nat, 8),
        ),
        AnnotatedMoveValueView::U128(v) => scalar_payload(
            ValueKind::U128.name(),
            be_bytes(v as nat, 16),
        ),
        AnnotatedMoveValueView::Bool(v) => scalar_payload(
            ValueKind::Bool.name(),
            seq![bool_byte(v)],
        ),
        AnnotatedMoveValueView::Address(v) => scalar_payload(ValueKind::Address.name(), v),
        AnnotatedMoveValueView::Vector(element_type, elements) => scalar_payload(
            element_type,
            elements,
        ),
        AnnotatedMoveValueView::Bytes(v) => scalar_payload(ValueKind::VecU8.name(), v),
        AnnotatedMoveValueView::Struct(fields) => EventPayloadView {
            types: fields.map_values(|f: AnnotatedFieldView| f.type_tag),
            names: fields.map_values(|f: AnnotatedFieldView| f.name),
            values: fields.map_values(|f: AnnotatedFieldView| f.value),
        },
    }
}

/// Wraps one type and one value as the payload of a value that is no struct.
fn build_scalar_payload(kind_name: Vec<u8>, value: Vec<u8>) -> (payload: EventPayload)
    ensures
        payload@ == scalar_payload(kind_name@, value@),
{
    let types = vec![kind_name];
    let values = vec![value];
    let names: Vec<Vec<u8>> = Vec::new();
    assert(seq_view(types) =~= seq![kind_name@]);
    assert(seq_view(values) =~= seq![value@]);
    assert(seq_view(names) =~= Seq::<Seq<u8>>::empty());
    EventPayload { types, names, values }
}

/// Maps a decoded event value to its payload columns.
pub fn build_event_payload(value: &AnnotatedMoveValue) -> (payload: EventPayload)
    ensures
        payload@ == event_payload(value@),
{
    match value {
        AnnotatedMoveValue::U8(v) => {
            let bytes = vec![*v];
            assert(bytes@ =~= seq![*v]);
            build_scalar_payload(ValueKind::U8.name_bytes(), bytes)
        },
        AnnotatedMoveValue::U64(v) => build_scalar_payload(
            ValueKind::U64.name_bytes(),
            u64_to_be_bytes(*v),
        ),
        AnnotatedMoveValue::U128(v) => build_scalar_payload(
            ValueKind::U128.name_bytes(),
            u128_to_be_bytes(*v),
        ),
        AnnotatedMoveValue::Bool(v) => build_scalar_payload(
            ValueKind::Bool.name_bytes(),
            bool_bytes(*v),
        ),
        AnnotatedMoveValue::Address(v) => build_scalar_payload(
            ValueKind::Address.name_bytes(),
            clone_bytes(v),
        ),
        AnnotatedMoveValue::Vector(element_type, elements) => build_scalar_payload(
            clone_bytes(element_type),
            clone_bytes(elements),
        ),
        AnnotatedMoveValue::Bytes(v) => build_scalar_payload(
            ValueKind::VecU8.name_bytes(),
            clone_bytes(v),
        ),
        AnnotatedMoveValue::Struct(fields) => {
            let mut types: Vec<Vec<u8>> = Vec::new();
            let mut names: Vec<Vec<u8>> = Vec::new();
            let mut values: Vec<Vec<u8>> = Vec::new();
            let ghost all = seq_view(*fields);
            let mut i: usize = 0;
            while i < fields.len()
                invariant
                    i <= fields.len(),
                    all == seq_view(*fields),
                    seq_view(types) =~= all.map_values(
                        |f: AnnotatedFieldView| f.type_tag,
                    ).subrange(0, i as int),
                    seq_view(names) =~= all.map_values(|f: AnnotatedFieldView| f.name).subrange(
                        0,
                        i as int,
                    ),
                    seq_view(values) =~= all.map_values(
                        |f: AnnotatedFieldView| f.value,
                    ).subrange(0, i as int),
                decreases fields.len() - i,
            {
                let field = &fields[i];
                let type_tag = clone_bytes(&field.type_tag);
                let name = clone_bytes(&field.name);
                let value = clone_bytes(&field.value);
                let ghost types_before = seq_view(types);
                let ghost names_before = seq_view(names);
                let ghost values_before = seq_view(values);
                types.push(type_tag);
                names.push(name);
                values.push(value);
                assert(seq_view(types) =~= types_before.push(type_tag@));
                assert(seq_view(names) =~= names_before.push(name@));
                assert(seq_view(values) =~= values_before.push(value@));
                i = i + 1;
            }
            proof {
                let t = all.map_values(|f: AnnotatedFieldView| f.type_tag);
                let n = all.map_values(|f: AnnotatedFieldView| f.name);
                let v = all.map_values(|f: AnnotatedFieldView| f.value);
                assert(t.subrange(0, all.len() as int) =~= t);
                assert(n.subrange(0, all.len() as int) =~= n);
                assert(v.subrange(0, all.len() as int) =~= v);
            }
            EventPayload { types, names, values }
        },
    }
}

/// What every row of a transaction, and of its events and call traces,
/// copies from the block that holds it.
#[derive(Clone, Debug, PartialEq, Eq)]
pub struct RowContext {
    /// Identifier of the block's row.
    pub block_id: u64,
    pub block_index: u64,
    /// Version of the block's first transaction.
    pub block_tx_index: u64,
    pub block_hash: Vec<u8>,
    /// The block's timestamp.
    pub time: u64,
    pub epoch: u64,
    pub chain_id: u8,
}

/// What a [`RowContext`] holds, as mathematical values.
#[verifier::ext_equal]
pub struct RowContextView {
    pub block_id: u64,
    pub block_index: u64,
    pub block_tx_index: u64,
    pub block_hash: Seq<u8>,
    pub time: u64,
    pub epoch: u64,
    pub chain_id: u8,
}

impl View for RowContext {
    type V = RowContextView;

    open spec fn view(&self) -> RowContextView {
        RowContextView {
            block_id: self.block_id,
            block_index: self.block_index,
            block_tx_index: self.block_tx_index,
            block_hash: self.block_hash@,
            time: self.time,
            epoch: self.epoch,
            chain_id: self.chain_id,
        }
    }
}

/// The context that a block gives to the rows of its transactions.
pub open spec fn row_context(
    block_id: u64,
    block_index: u64,
    block_tx_index: u64,
    block: BlockMetadataView,
    chain_id: u8,
) -> RowContextView {
    RowContextView {
        block_id,
        block_index,
        block_tx_index,
        block_hash: block.id,
        time: block.timestamp_usecs,
        epoch: block.epoch,
        chain_id,
    }
}

/// Collects what the rows of a block's transactions copy from the block.
pub fn build_row_context(
    block_id: u64,
    block_index: u64,
    block_tx_index: u64,
    block: &BlockMetadata,
    chain_id: u8,
) -> (context: RowContext)
    ensures
        context@ == row_context(block_id, block_index, block_tx_index, block@, chain_id),
{
    RowContext {
        block_id,
        block_index,
        block_tx_index,
        block_hash: clone_bytes(&block.id),
        time: block.timestamp_usecs,
        epoch: block.epoch,
        chain_id,
    }
}

/// The code of a transaction's kind: 1 user, 2 genesis, 3 block metadata,
/// 4 state checkpoint.
pub open spec fn tx_type(transaction: TransactionView) -> u8 {
    match transaction {
        TransactionView::UserTransaction(_) => TX_TYPE_USER,
        TransactionView::GenesisTransaction => TX_TYPE_GENESIS,
        TransactionView::BlockMetadata(_) => TX_TYPE_BLOCK_METADATA,
        TransactionView::StateCheckpoint(_) => TX_TYPE_STATE_CHECKPOINT,
    }
}

/// The code of a transaction's kind.
pub fn tx_type_code(transaction: &Transaction) -> (code: u8)
    ensures
        code == tx_type(transaction@),
{
    match transaction {
        Transaction::UserTransaction(_) => TX_TYPE_USER,
        Transaction::GenesisTransaction => TX_TYPE_GENESIS,
        Transaction::BlockMetadata(_) => TX_TYPE_BLOCK_METADATA,
        Transaction::StateCheckpoint(_) => TX_TYPE_STATE_CHECKPOINT,
    }
}

/// The fee of a transaction: the price of a unit of gas times the gas
/// used. Only a user transaction pays one.
pub open spec fn transaction_fee(transaction: TransactionView, gas_used: u64) -> int {
    match transaction {
        TransactionView::UserTransaction(signed) => signed.gas_unit_price * gas_used,
        _ => 0,
    }
}

/// The size of a transaction in bytes. Only a user transaction counts.
pub open spec fn transaction_size(transaction: TransactionView) -> int {
    match transaction {
        TransactionView::UserTransaction(signed) => signed.raw_txn_bytes_len as int,
        _ => 0,
    }
}

/// The fee and the size of the transaction fit their columns.
pub open spec fn transaction_fits(transaction: TransactionView, gas_used: u64) -> bool {
    &&& transaction_fee(transaction, gas_used) <= u64::MAX
    &&& transaction_size(transaction) <= u32::MAX
}

/// The row of a transaction. Block fields come from the context. Status,
/// hashes and gas used come from the execution result. Sender, sequence
/// number, gas limit and price, expiration, payload, signature, size and
/// fee are present for a user transaction only; the proposer for a block
/// metadata transaction only; the state checkpoint for a state checkpoint
/// transaction only.
pub open spec fn transaction_row(
    context: RowContextView,
    id: u64,
    version: Version,
    transaction: TransactionView,
    info: TransactionInfoView,
    event_ids: Seq<u64>,
    call_trace_ids: Seq<u64>,
) -> TransactionRowView {
    let user = match transaction {
        TransactionView::UserTransaction(signed) => Some(signed),
        _ => None,
    };
    let payload = match user {
        Some(signed) => payload_columns(signed.payload),
        None => no_payload(),
    };
    TransactionRowView {
        id,
        relation_block: context.block_id,
        relation_events: event_ids,
        relation_call_traces: call_trace_ids,
        record_version: RECORD_VERSION,
        tx_index: version,
        block_index: context.block_index,
        time_index: context.time,
        block_tx_index: context.block_tx_index,
        block_hash: context.block_hash,
        tx_hash: info.transaction_hash,
        epoch: context.epoch,
        chain_id: context.chain_id,
        state_change_hash: info.state_change_hash,
        event_root_hash: info.event_root_hash,
        success: info.status.success,
        detailed_status: info.status.detail,
        tx_type: tx_type(transaction),
        sender: match user {
            Some(signed) => Some(signed.sender),
            None => None,
        },
        sequence_number: match user {
            Some(signed) => Some(signed.sequence_number),
            None => None,
        },
        gas_limit: match user {
            Some(signed) => Some(signed.max_gas_amount),
            None => None,
        },
        gas_price: match user {
            Some(signed) => Some(signed.gas_unit_price),
            None => None,
        },
        gas_used: info.gas_used,
        expiration_timestamp_secs: match user {
            Some(signed) => Some(signed.expiration_timestamp_secs),
            None => None,
        },
        payload_type: payload.payload_type,
        payload_code: payload.code,
        payload_module_address: payload.module_address,
        payload_method_name: payload.method_name,
        payload_ty_args: payload.ty_args,
        payload_arg_types: payload.arg_types,
        payload_arg_values: payload.arg_values,
        signature: match user {
            Some(signed) => Some(signed.authenticator),
            None => None,
        },
        state_checkpoint: match transaction {
            TransactionView::StateCheckpoint(hash) => Some(hash),
            _ => None,
        },
        proposer: match transaction {
            TransactionView::BlockMetadata(metadata) => Some(metadata.proposer),
            _ => None,
        },
        size: match user {
            Some(signed) => Some(signed.raw_txn_bytes_len as u32),
            None => None,
        },
        time: context.time,
        fee: match user {
            Some(signed) => Some((signed.gas_unit_price * info.gas_used) as u64),
            None => None,
        },
    }
}

/// Builds the row of a transaction, or reports that its fee or its size
/// does not fit.
pub fn build_transaction_row(
    context: &RowContext,
    id: u64,
    version: Version,
    transaction: &Transaction,
    info: &TransactionInfo,
    event_ids: Vec<u64>,
    call_trace_ids: Vec<u64>,
) -> (result: Result<TransactionRow, ExportError>)
    ensures
        result is Ok <==> transaction_fits(transaction@, info.gas_used),
        result matches Err(error) ==> error == ExportError::Overflow,
        result matches Ok(row) ==> row@ == transaction_row(
            context@,
            id,
            version,
            transaction@,
            info@,
            event_ids@,
            call_trace_ids@,
        ),
{
    let mut row = TransactionRow {
        id,
        relation_block: context.block_id,
        relation_events: event_ids,
        relation_call_traces: call_trace_ids,
        record_version: RECORD_VERSION,
        tx_index: version,
        block_index: context.block_index,
        time_index: context.time,
        block_tx_index: context.block_tx_index,
        block_hash: clone_bytes(&context.block_hash),
        tx_hash: clone_bytes(&info.transaction_hash),
        epoch: context.epoch,
        chain_id: context.chain_id,
        state_change_hash: clone_bytes(&info.state_change_hash),
        event_root_hash: clone_bytes(&info.event_root_hash),
        success: info.status.success,
        detailed_status: clone_bytes(&info.status.detail),
        tx_type: tx_type_code(transaction),
        sender: None,
        sequence_number: None,
        gas_limit: None,
        gas_price: None,
        gas_used: info.gas_used,
        expiration_timestamp_secs: None,
        payload_type: PAYLOAD_TYPE_NONE,
        payload_code: None,
        payload_module_address: None,
        payload_method_name: None,
        payload_ty_args: None,
        payload_arg_types: None,
        payload_arg_values: None,
        signature: None,
        state_checkpoint: None,
        proposer: None,
        size: None,
        time: context.time,
        fee: None,
    };
    match transaction {
        Transaction::UserTransaction(signed) => {
            let fee = match signed.gas_unit_price.checked_mul(info.gas_used) {
                Some(fee) => fee,
                None => {
                    return Err(ExportError::Overflow);
                },
            };
            if signed.raw_txn_bytes_len > u32::MAX as usize {
                return Err(ExportError::Overflow);
            }
            let payload = build_payload_columns(&signed.payload);
            row.sender = Some(clone_bytes(&signed.sender));
            row.sequence_number = Some(signed.sequence_number);
            row.gas_limit = Some(signed.max_gas_amount);
            row.gas_price = Some(signed.gas_unit_price);
            row.expiration_timestamp_secs = Some(signed.expiration_timestamp_secs);
            row.payload_type = payload.payload_type;
            row.payload_code = payload.code;
            row.payload_module_address = payload.module_address;
            row.payload_method_name = payload.method_name;
            row.payload_ty_args = payload.ty_args;
            row.payload_arg_types = payload.arg_types;
            row.payload_arg_values = payload.arg_values;
            row.signature = Some(clone_bytes(&signed.authenticator));
            row.size = Some(signed.raw_txn_bytes_len as u32);
            row.fee = Some(fee);
        },
        Transaction::GenesisTransaction => {},
        Transaction::BlockMetadata(metadata) => {
            row.proposer = Some(clone_bytes(&metadata.proposer));
        },
        Transaction::StateCheckpoint(hash) => {
            row.state_checkpoint = Some(clone_bytes(hash));
        },
    }
    Ok(row)
}

/// The row of an event: the `index`-th that the transaction `transaction_id`
/// emitted. The module and the name are present only where the event's
/// type is a struct.
pub open spec fn event_row(
    context: RowContextView,
    id: u64,
    transaction_id: u64,
    version: Version,
    tx_hash: Seq<u8>,
    index: u32,
    event: ContractEventView,
) -> EventRowView {
    let payload = event_payload(event.data);
    EventRowView {
        id,
        relation_block: context.block_id,
        relation_transaction: transaction_id,
        record_version: RECORD_VERSION,
        tx_index: version,
        block_index: context.block_index,
        time_index: context.time,
        block_tx_index: context.block_tx_index,
        block_hash: context.block_hash,
        tx_hash,
        index,
        module_address: match event.type_tag {
            TypeTagView::Struct { module_id, name } => Some(module_id),
            TypeTagView::Other => None,
        },
        event_name: match event.type_tag {
            TypeTagView::Struct { module_id, name } => Some(name),
            TypeTagView::Other => None,
        },
        payload_arg_types: payload.types,
        payload_arg_names: payload.names,
        payload_arg_values: payload.values,
        creation_number: event.creation_number,
    }
}

/// Builds the row of an event.
pub fn build_event_row(
    context: &RowContext,
    id: u64,
    transaction_id: u64,
    version: Version,
    tx_hash: &Vec<u8>,
    index: u32,
    event: &ContractEvent,
) -> (row: EventRow)
    ensures
        row@ == event_row(context@, id, transaction_id, version, tx_hash@, index, event@),
{
    let payload = build_event_payload(&event.data);
    let (module_address, event_name) = match &event.type_tag {
        TypeTag::Struct { module_id, name } => (
            Some(clone_bytes(module_id)),
            Some(clone_bytes(name)),
        ),
        TypeTag::Other => (None, None),
    };
    EventRow {
        id,
        relation_block: context.block_id,
        relation_transaction: transaction_id,
        record_version: RECORD_VERSION,
        tx_index: version,
        block_index: context.block_index,
        time_index: context.time,
        block_tx_index: context.block_tx_index,
        block_hash: clone_bytes(&context.block_hash),
        tx_hash: clone_bytes(tx_hash),
        index,
        module_address,
        event_name,
        payload_arg_types: payload.types,
        payload_arg_names: payload.names,
        payload_arg_values: payload.values,
        creation_number: event.creation_number,
    }
}

/// The identifiers `first`, `first + 1`, ..., `count` of them.
pub open spec fn id_range(first: u64, count: nat) -> Seq<u64> {
    Seq::new(count, |j: int| (first + j) as u64)
}

/// The identifiers `first`, `first + 1`, ..., `count` of them.
pub fn build_id_range(first: u64, count: usize) -> (ids: Vec<u64>)
    requires
        first + count <= u64::MAX,
    ensures
        ids@ == id_range(first, count as nat),
{
    let mut ids: Vec<u64> = Vec::new();
    let mut j: usize = 0;
    while j < count
        invariant
            j <= count,
            first + count <= u64::MAX,
            ids@ =~= id_range(first, j as nat),
        decreases count - j,
    {
        ids.push(first + j as u64);
        j = j + 1;
    }
    ids
}

/// The rows of the events of the transaction `transaction_id`, in the order
/// in which it emitted them: the `j`-th event gets the identifier
/// `first_id + j` and the index `j`.
pub open spec fn event_rows(
    context: RowContextView,
    first_id: u64,
    transaction_id: u64,
    version: Version,
    tx_hash: Seq<u8>,
    events: Seq<ContractEventView>,
) -> Seq<EventRowView> {
    Seq::new(
        events.len(),
        |j: int|
            event_row(
                context,
                (first_id + j) as u64,
                transaction_id,
                version,
                tx_hash,
                j as u32,
                events[j],
            ),
    )
}

/// Builds the rows of a transaction's events.
pub fn build_event_rows(
    context: &RowContext,
    first_id: u64,
    transaction_id: u64,
    version: Version,
    tx_hash: &Vec<u8>,
    events: &Vec<ContractEvent>,
) -> (rows: Vec<EventRow>)
    requires
        first_id + events.len() <= u64::MAX,
        events.len() <= u32::MAX,
    ensures
        seq_view(rows) == event_rows(
            context@,
            first_id,
            transaction_id,
            version,
            tx_hash@,
            seq_view(*events),
        ),
{
    let mut rows: Vec<EventRow> = Vec::new();
    let ghost expected = event_rows(
        context@,
        first_id,
        transaction_id,
        version,
        tx_hash@,
        seq_view(*events),
    );
    let mut j: usize = 0;
    while j < events.len()
        invariant
            j <= events.len(),
            first_id + events.len() <= u64::MAX,
            events.len() <= u32::MAX,
            expected == event_rows(
                context@,
                first_id,
                transaction_id,
                version,
                tx_hash@,
                seq_view(*events),
            ),
            seq_view(rows) =~= expected.subrange(0, j as int),
        decreases events.len() - j,
    {
        let row = build_event_row(
            context,
            first_id + j as u64,
            transaction_id,
            version,
            tx_hash,
            j as u32,
            &events[j],
        );
        let ghost before = seq_view(rows);
        rows.push(row);
        assert(seq_view(rows) =~= before.push(row@));
        j = j + 1;
    }
    assert(expected.subrange(0, events.len() as int) =~= expected);
    rows
}

/// The code of a call's kind: 1 for a direct call, 2 for a generic one.
pub open spec fn call_type(kind: CallType) -> u8 {
    match kind {
        CallType::Call => CALL_TYPE_CALL,
        CallType::CallGeneric => CALL_TYPE_CALL_GENERIC,
    }
}

/// The code of a call's kind.
pub fn call_type_code(kind: CallType) -> (code: u8)
    ensures
        code == call_type(kind),
{
    match kind {
        CallType::Call => CALL_TYPE_CALL,
        CallType::CallGeneric => CALL_TYPE_CALL_GENERIC,
    }
}

/// The row of a call trace of the transaction `transaction_id`, whose kind
/// has the code `tx_type`. Type arguments, argument types and argument
/// values pass through as they came; the error is present only where the
/// call failed.
pub open spec fn call_trace_row(
    context: RowContextView,
    id: u64,
    transaction_id: u64,
    version: Version,
    tx_hash: Seq<u8>,
    tx_type: u8,
    trace: CallTraceView,
) -> CallTraceRowView {
    CallTraceRowView {
        id,
        relation_block: context.block_id,
        relation_transaction: transaction_id,
        record_version: RECORD_VERSION,
        tx_index: version,
        block_index: context.block_index,
        time_index: context.time,
        block_tx_index: context.block_tx_index,
        block_hash: context.block_hash,
        tx_hash,
        tx_type,
        depth: trace.depth,
        call_type: call_type(trace.call_type),
        module_address: trace.module_id,
        method_name: trace.function,
        ty_args: trace.ty_args,
        arg_types: trace.args_types,
        arg_values: trace.args_values,
        gas_used: trace.gas_used,
        err: trace.err,
    }
}

/// Builds the row of a call trace.
pub fn build_call_trace_row(
    context: &RowContext,
    id: u64,
    transaction_id: u64,
    version: Version,
    tx_hash: &Vec<u8>,
    tx_type: u8,
    trace: &CallTrace,
) -> (row: CallTraceRow)
    ensures
        row@ == call_trace_row(context@, id, transaction_id, version, tx_hash@, tx_type, trace@),
{
    CallTraceRow {
        id,
        relation_block: context.block_id,
        relation_transaction: transaction_id,
        record_version: RECORD_VERSION,
        tx_index: version,
        block_index: context.block_index,
        time_index: context.time,
        block_tx_index: context.block_tx_index,
        block_hash: clone_bytes(&context.block_hash),
        tx_hash: clone_bytes(tx_hash),
        tx_type,
        depth: trace.depth,
        call_type: call_type_code(trace.call_type),
        module_address: clone_optional_bytes(&trace.module_id),
        method_name: clone_bytes(&trace.function),
        ty_args: clone_bytes_list(&trace.ty_args),
        arg_types: clone_bytes_list(&trace.args_types),
        arg_values: clone_bytes_list(&trace.args_values),
        gas_used: trace.gas_used,
        err: clone_optional_bytes(&trace.err),
    }
}

/// The rows of the call traces of the transaction `transaction_id`, in
/// their order: the `j`-th trace gets the identifier `first_id + j`.
pub open spec fn call_trace_rows(
    context: RowContextView,
    first_id: u64,
    transaction_id: u64,
    version: Version,
    tx_hash: Seq<u8>,
    tx_type: u8,
    call_traces: Seq<CallTraceView>,
) -> Seq<CallTraceRowView> {
    Seq::new(
        call_traces.len(),
        |j: int|
            call_trace_row(
                context,
                (first_id + j) as u64,
                transaction_id,
                version,
                tx_hash,
                tx_type,
                call_traces[j],
            ),
    )
}

/// Builds the rows of a transaction's call traces.
pub fn build_call_trace_rows(
    context: &RowContext,
    first_id: u64,
    transaction_id: u64,
    version: Version,
    tx_hash: &Vec<u8>,
    tx_type: u8,
    call_traces: &Vec<CallTrace>,
) -> (rows: Vec<CallTraceRow>)
    requires
        first_id + call_traces.len() <= u64::MAX,
    ensures
        seq_view(rows) == call_trace_rows(
            context@,
            first_id,
            transaction_id,
            version,
            tx_hash@,
            tx_type,
            seq_view(*call_traces),
        ),
{
    let mut rows: Vec<CallTraceRow> = Vec::new();
    let ghost expected = call_trace_rows(
        context@,
        first_id,
        transaction_id,
        version,
        tx_hash@,
        tx_type,
        seq_view(*call_traces),
    );
    let mut j: usize = 0;
    while j < call_traces.len()
        invariant
            j <= call_traces.len(),
            first_id + call_traces.len() <= u64::MAX,
            expected == call_trace_rows(
                context@,
                first_id,
                transaction_id,
                version,
                tx_hash@,
                tx_type,
                seq_view(*call_traces),
            ),
            seq_view(rows) =~= expected.subrange(0, j as int),
        decreases call_traces.len() - j,
    {
        let row = build_call_trace_row(
            context,
            first_id + j as u64,
            transaction_id,
            version,
            tx_hash,
            tx_type,
            &call_traces[j],
        );
        let ghost before = seq_view(rows);
        rows.push(row);
        assert(seq_view(rows) =~= before.push(row@));
        j = j + 1;
    }
    assert(expected.subrange(0, call_traces.len() as int) =~= expected);
    rows
}

/// What a block has gathered from its transactions when it is completed.
#[derive(Clone, Debug, PartialEq, Eq)]
pub struct BlockTotals {
    pub transaction_ids: Vec<u64>,
    pub event_ids: Vec<u64>,
    pub call_trace_ids: Vec<u64>,
    /// Sum of the sizes of the block's transactions.
    pub size: u32,
    pub transactions_count: u32,
    /// Sum of the fees of the block's transactions.
    pub total_fee: u64,
}

/// What a [`BlockTotals`] holds, as mathematical values.
#[verifier::ext_equal]
pub struct BlockTotalsView {
    pub transaction_ids: Seq<u64>,
    pub event_ids: Seq<u64>,
    pub call_trace_ids: Seq<u64>,
    pub size: u32,
    pub transactions_count: u32,
    pub total_fee: u64,
}

impl View for BlockTotals {
    type V = BlockTotalsView;

    open spec fn view(&self) -> BlockTotalsView {
        BlockTotalsView {
            transaction_ids: self.transaction_ids@,
            event_ids: self.event_ids@,
            call_trace_ids: self.call_trace_ids@,
            size: self.size,
            transactions_count: self.transactions_count,
            total_fee: self.total_fee,
        }
    }
}

/// The row of a block. The parent hash is the hash of the block before it,
/// where there is one. Nothing is minted.
pub open spec fn block_row(
    id: u64,
    block_index: u64,
    block_tx_index: Version,
    block: BlockMetadataView,
    previous: Option<BlockMetadataView>,
    totals: BlockTotalsView,
) -> BlockRowView {
    BlockRowView {
        id,
        relation_transactions: totals.transaction_ids,
        relation_events: totals.event_ids,
        relation_call_traces: totals.call_trace_ids,
        record_version: RECORD_VERSION,
        block_index,
        time_index: block.timestamp_usecs,
        block_tx_index,
        epoch: block.epoch,
        round: block.round,
        hash: block.id,
        parent_hash: match previous {
            Some(parent) => Some(parent.id),
            None => None,
        },
        proposer: block.proposer,
        previous_block_votes: block.previous_block_votes_bitvec,
        time: block.timestamp_usecs,
        size: totals.size,
        transactions_count: totals.transactions_count,
        total_minted: 0,
        total_fee: totals.total_fee,
    }
}

/// Builds the row of a block.
pub fn build_block_row(
    id: u64,
    block_index: u64,
    block_tx_index: Version,
    block: &BlockMetadata,
    previous: &Option<BlockMetadata>,
    totals: BlockTotals,
) -> (row: BlockRow)
    ensures
        row@ == block_row(id, block_index, block_tx_index, block@, opt_view(*previous), totals@),
{
    BlockRow {
        id,
        relation_transactions: totals.transaction_ids,
        relation_events: totals.event_ids,
        relation_call_traces: totals.call_trace_ids,
        record_version: RECORD_VERSION,
        block_index,
        time_index: block.timestamp_usecs,
        block_tx_index,
        epoch: block.epoch,
        round: block.round,
        hash: clone_bytes(&block.id),
        parent_hash: match previous {
            Some(parent) => Some(clone_bytes(&parent.id)),
            None => None,
        },
        proposer: clone_bytes(&block.proposer),
        previous_block_votes: clone_bytes(&block.previous_block_votes_bitvec),
        time: block.timestamp_usecs,
        size: totals.size,
        transactions_count: totals.transactions_count,
        total_minted: 0,
        total_fee: totals.total_fee,
    }
}

} // verus!
