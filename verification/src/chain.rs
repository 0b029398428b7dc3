//! The chain's data as the export pipeline reads it: transactions with
//! their payloads, execution results, events with their decoded values, and
//! call traces. Hashes, addresses, names and type tags are byte strings;
//! values that the chain hands over already serialised stay as they are.

use vstd::prelude::*;
use crate::bytes::{opt_view, seq_view};
use crate::types::{BlockMetadata, BlockMetadataView};

verus! {

/// An argument of a script call.
#[derive(Clone, Debug, PartialEq, Eq)]
pub enum TransactionArgument {
    U8(u8),
    U64(u64),
    U128(u128),
    Address(Vec<u8>),
    U8Vector(Vec<u8>),
    Bool(bool),
}

/// What a [`TransactionArgument`] holds, as mathematical values.
#[verifier::ext_equal]
pub enum TransactionArgumentView {
    U8(u8),
    U64(u64),
    U128(u128),
    Address(Seq<u8>),
    U8Vector(Seq<u8>),
    Bool(bool),
}

impl View for TransactionArgument {
    type V = TransactionArgumentView;

    open spec fn view(&self) -> TransactionArgumentView {
        match *self {
            TransactionArgument::U8(value) => TransactionArgumentView::U8(value),
            TransactionArgument::U64(value) => TransactionArgumentView::U64(value),
            TransactionArgument::U128(value) => TransactionArgumentView::U128(value),
            TransactionArgument::Address(value) => TransactionArgumentView::Address(value@),
            TransactionArgument::U8Vector(value) => TransactionArgumentView::U8Vector(value@),
            TransactionArgument::Bool(value) => TransactionArgumentView::Bool(value),
        }
    }
}

/// A transaction that runs code it carries.
#[derive(Clone, Debug, PartialEq, Eq)]
pub struct Script {
    pub code: Vec<u8>,
    /// Each type argument in its canonical text.
    pub ty_args: Vec<Vec<u8>>,
    pub args: Vec<TransactionArgument>,
}

/// What a [`Script`] holds, as mathematical values.
#[verifier::ext_equal]
pub struct ScriptView {
    pub code: Seq<u8>,
    pub ty_args: Seq<Seq<u8>>,
    pub args: Seq<TransactionArgumentView>,
}

impl View for Script {
    type V = ScriptView;

    open spec fn view(&self) -> ScriptView {
        ScriptView {
            code: self.code@,
            ty_args: seq_view(self.ty_args),
            args: seq_view(self.args),
        }
    }
}

/// A call of a function published on the chain.
#[derive(Clone, Debug, PartialEq, Eq)]
pub struct EntryFunction {
    pub module_address: Vec<u8>,
    pub function: Vec<u8>,
    /// Each type argument in its canonical text.
    pub ty_args: Vec<Vec<u8>>,
    /// Each argument as the chain serialised it.
    pub args: Vec<Vec<u8>>,
}

/// What a [`EntryFunction`] holds, as mathematical values.
#[verifier::ext_equal]
pub struct EntryFunctionView {
    pub module_address: Seq<u8>,
    pub function: Seq<u8>,
    pub ty_args: Seq<Seq<u8>>,
    pub args: Seq<Seq<u8>>,
}

impl View for EntryFunction {
    type V = EntryFunctionView;

    open spec fn view(&self) -> EntryFunctionView {
        EntryFunctionView {
            module_address: self.module_address@,
            function: self.function@,
            ty_args: seq_view(self.ty_args),
            args: seq_view(self.args),
        }
    }
}

/// What a user transaction asks the chain to run.
#[derive(Clone, Debug, PartialEq, Eq)]
pub enum TransactionPayload {
    Script(Script),
    /// Publishes modules; nothing of it is decoded.
    ModuleBundle,
    EntryFunction(EntryFunction),
}

/// What a [`TransactionPayload`] holds, as mathematical values.
#[verifier::ext_equal]
pub enum TransactionPayloadView {
    Script(ScriptView),
    ModuleBundle,
    EntryFunction(EntryFunctionView),
}

impl View for TransactionPayload {
    type V = TransactionPayloadView;

    open spec fn view(&self) -> TransactionPayloadView {
        match *self {
            TransactionPayload::Script(script) => TransactionPayloadView::Script(script@),
            TransactionPayload::ModuleBundle => TransactionPayloadView::ModuleBundle,
            TransactionPayload::EntryFunction(entry) => TransactionPayloadView::EntryFunction(
                entry@,
            ),
        }
    }
}

/// A transaction signed and submitted by an account.
#[derive(Clone, Debug, PartialEq, Eq)]
pub struct SignedTransaction {
    pub sender: Vec<u8>,
    pub sequence_number: u64,
    pub payload: TransactionPayload,
    pub max_gas_amount: u64,
    pub gas_unit_price: u64,
    pub expiration_timestamp_secs: u64,
    /// The authenticator in its serialised form.
    pub authenticator: Vec<u8>,
    /// Number of bytes of the raw transaction.
    pub raw_txn_bytes_len: usize,
}

/// What a [`SignedTransaction`] holds, as mathematical values.
#[verifier::ext_equal]
pub struct SignedTransactionView {
    pub sender: Seq<u8>,
    pub sequence_number: u64,
    pub payload: TransactionPayloadView,
    pub max_gas_amount: u64,
    pub gas_unit_price: u64,
    pub expiration_timestamp_secs: u64,
    pub authenticator: Seq<u8>,
    pub raw_txn_bytes_len: usize,
}

impl View for SignedTransaction {
    type V = SignedTransactionView;

    open spec fn view(&self) -> SignedTransactionView {
        SignedTransactionView {
            sender: self.sender@,
            sequence_number: self.sequence_number,
            payload: self.payload@,
            max_gas_amount: self.max_gas_amount,
            gas_unit_price: self.gas_unit_price,
            expiration_timestamp_secs: self.expiration_timestamp_secs,
            authenticator: self.authenticator@,
            raw_txn_bytes_len: self.raw_txn_bytes_len,
        }
    }
}

/// One entry of the chain's transaction sequence.
#[derive(Clone, Debug, PartialEq, Eq)]
pub enum Transaction {
    UserTransaction(SignedTransaction),
    GenesisTransaction,
    BlockMetadata(BlockMetadata),
    /// Carries the hash of the state it seals.
    StateCheckpoint(Vec<u8>),
}

/// What a [`Transaction`] holds, as mathematical values.
#[verifier::ext_equal]
pub enum TransactionView {
    UserTransaction(SignedTransactionView),
    GenesisTransaction,
    BlockMetadata(BlockMetadataView),
    StateCheckpoint(Seq<u8>),
}

impl View for Transaction {
    type V = TransactionView;

    open spec fn view(&self) -> TransactionView {
        match *self {
            Transaction::UserTransaction(signed) => TransactionView::UserTransaction(signed@),
            Transaction::GenesisTransaction => TransactionView::GenesisTransaction,
            Transaction::BlockMetadata(metadata) => TransactionView::BlockMetadata(metadata@),
            Transaction::StateCheckpoint(hash) => TransactionView::StateCheckpoint(hash@),
        }
    }
}

/// How a transaction's execution ended.
#[derive(Clone, Debug, PartialEq, Eq)]
pub struct ExecutionStatus {
    pub success: bool,
    /// The full status in its serialised form.
    pub detail: Vec<u8>,
}

/// What a [`ExecutionStatus`] holds, as mathematical values.
#[verifier::ext_equal]
pub struct ExecutionStatusView {
    pub success: bool,
    pub detail: Seq<u8>,
}

impl View for ExecutionStatus {
    type V = ExecutionStatusView;

    open spec fn view(&self) -> ExecutionStatusView {
        ExecutionStatusView { success: self.success, detail: self.detail@ }
    }
}

/// What the chain recorded about a transaction's execution.
#[derive(Clone, Debug, PartialEq, Eq)]
pub struct TransactionInfo {
    pub transaction_hash: Vec<u8>,
    pub state_change_hash: Vec<u8>,
    pub event_root_hash: Vec<u8>,
    pub gas_used: u64,
    pub status: ExecutionStatus,
}

/// What a [`TransactionInfo`] holds, as mathematical values.
#[verifier::ext_equal]
pub struct TransactionInfoView {
    pub transaction_hash: Seq<u8>,
    pub state_change_hash: Seq<u8>,
    pub event_root_hash: Seq<u8>,
    pub gas_used: u64,
    pub status: ExecutionStatusView,
}

impl View for TransactionInfo {
    type V = TransactionInfoView;

    open spec fn view(&self) -> TransactionInfoView {
        TransactionInfoView {
            transaction_hash: self.transaction_hash@,
            state_change_hash: self.state_change_hash@,
            event_root_hash: self.event_root_hash@,
            gas_used: self.gas_used,
            status: self.status@,
        }
    }
}

/// The type of an event's payload, as far as a row names it.
#[derive(Clone, Debug, PartialEq, Eq)]
pub enum TypeTag {
    /// A struct type: the module that declares it and its name.
    Struct { module_id: Vec<u8>, name: Vec<u8> },
    /// Any type that is not a struct.
    Other,
}

/// What a [`TypeTag`] holds, as mathematical values.
#[verifier::ext_equal]
pub enum TypeTagView {
    Struct { module_id: Seq<u8>, name: Seq<u8> },
    Other,
}

impl View for TypeTag {
    type V = TypeTagView;

    open spec fn view(&self) -> TypeTagView {
        match *self {
            TypeTag::Struct { module_id, name } => TypeTagView::Struct {
                module_id: module_id@,
                name: name@,
            },
            TypeTag::Other => TypeTagView::Other,
        }
    }
}

/// One field of a decoded struct value.
#[derive(Clone, Debug, PartialEq, Eq)]
pub struct AnnotatedField {
    pub name: Vec<u8>,
    /// The field's type in its serialised form.
    pub type_tag: Vec<u8>,
    /// The field's value in its serialised form.
    pub value: Vec<u8>,
}

/// What a [`AnnotatedField`] holds, as mathematical values.
#[verifier::ext_equal]
pub struct AnnotatedFieldView {
    pub name: Seq<u8>,
    pub type_tag: Seq<u8>,
    pub value: Seq<u8>,
}

impl View for AnnotatedField {
    type V = AnnotatedFieldView;

    open spec fn view(&self) -> AnnotatedFieldView {
        AnnotatedFieldView { name: self.name@, type_tag: self.type_tag@, value: self.value@ }
    }
}

/// A decoded on-chain value.
#[derive(Clone, Debug, PartialEq, Eq)]
pub enum AnnotatedMoveValue {
    U8(u8),
    U64(u64),
    U128(u128),
    Bool(bool),
    Address(Vec<u8>),
    /// The element type in its canonical text, and the elements serialised.
    Vector(Vec<u8>, Vec<u8>),
    Bytes(Vec<u8>),
    /// The fields in the order of their declaration.
    Struct(Vec<AnnotatedField>),
}

/// What a [`AnnotatedMoveValue`] holds, as mathematical values.
#[verifier::ext_equal]
pub enum AnnotatedMoveValueView {
    U8(u8),
    U64(u64),
    U128(u128),
    Bool(bool),
    Address(Seq<u8>),
    Vector(Seq<u8>, Seq<u8>),
    Bytes(Seq<u8>),
    Struct(Seq<AnnotatedFieldView>),
}

impl View for AnnotatedMoveValue {
    type V = AnnotatedMoveValueView;

    open spec fn view(&self) -> AnnotatedMoveValueView {
        match *self {
            AnnotatedMoveValue::U8(value) => AnnotatedMoveValueView::U8(value),
            AnnotatedMoveValue::U64(value) => AnnotatedMoveValueView::U64(value),
            AnnotatedMoveValue::U128(value) => AnnotatedMoveValueView::U128(value),
            AnnotatedMoveValue::Bool(value) => AnnotatedMoveValueView::Bool(value),
            AnnotatedMoveValue::Address(value) => AnnotatedMoveValueView::Address(value@),
            AnnotatedMoveValue::Vector(element_type, elements) => AnnotatedMoveValueView::Vector(
                element_type@,
                elements@,
            ),
            AnnotatedMoveValue::Bytes(value) => AnnotatedMoveValueView::Bytes(value@),
            AnnotatedMoveValue::Struct(fields) => AnnotatedMoveValueView::Struct(
                seq_view(fields),
            ),
        }
    }
}

/// An event that a transaction emitted, with its payload decoded.
#[derive(Clone, Debug, PartialEq, Eq)]
pub struct ContractEvent {
    /// The creation number of the event's key.
    pub creation_number: u64,
    pub type_tag: TypeTag,
    pub data: AnnotatedMoveValue,
}

/// What a [`ContractEvent`] holds, as mathematical values.
#[verifier::ext_equal]
pub struct ContractEventView {
    pub creation_number: u64,
    pub type_tag: TypeTagView,
    pub data: AnnotatedMoveValueView,
}

impl View for ContractEvent {
    type V = ContractEventView;

    open spec fn view(&self) -> ContractEventView {
        ContractEventView {
            creation_number: self.creation_number,
            type_tag: self.type_tag@,
            data: self.data@,
        }
    }
}

/// How a traced function was called.
#[derive(Clone, Copy, Debug, PartialEq, Eq, Structural)]
pub enum CallType {
    Call,
    CallGeneric,
}

/// One frame of a transaction's execution.
#[derive(Clone, Debug, PartialEq, Eq)]
pub struct CallTrace {
    pub depth: u32,
    pub call_type: CallType,
    /// Absent for a call inside a script.
    pub module_id: Option<Vec<u8>>,
    pub function: Vec<u8>,
    pub ty_args: Vec<Vec<u8>>,
    pub args_types: Vec<Vec<u8>>,
    pub args_values: Vec<Vec<u8>>,
    pub gas_used: u64,
    /// The failure in its serialised form; absent where the call succeeded.
    pub err: Option<Vec<u8>>,
}

/// What a [`CallTrace`] holds, as mathematical values.
#[verifier::ext_equal]
pub struct CallTraceView {
    pub depth: u32,
    pub call_type: CallType,
    pub module_id: Option<Seq<u8>>,
    pub function: Seq<u8>,
    pub ty_args: Seq<Seq<u8>>,
    pub args_types: Seq<Seq<u8>>,
    pub args_values: Seq<Seq<u8>>,
    pub gas_used: u64,
    pub err: Option<Seq<u8>>,
}

impl View for CallTrace {
    type V = CallTraceView;

    open spec fn view(&self) -> CallTraceView {
        CallTraceView {
            depth: self.depth,
            call_type: self.call_type,
            module_id: opt_view(self.module_id),
            function: self.function@,
            ty_args: seq_view(self.ty_args),
            args_types: seq_view(self.args_types),
            args_values: seq_view(self.args_values),
            gas_used: self.gas_used,
            err: opt_view(self.err),
        }
    }
}

} // verus!
