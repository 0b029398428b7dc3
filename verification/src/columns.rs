//! A row as the columns that a writer takes: each value under the name of
//! its column, in the order in which the table declares its columns. A row
//! gives a value for every declared column and for no other, of the
//! declared type, and leaves out only what the declaration lets it leave
//! out.

use vstd::prelude::*;
use crate::bytes::{
    clone_bytes, clone_bytes_list, clone_ids, clone_optional_bytes, opt_seq_view, opt_view,
    seq_view,
};
use crate::rows::{
    BlockRow, BlockRowView, CallTraceRow, CallTraceRowView, EventRow, EventRowView,
    TransactionRow, TransactionRowView,
};
use crate::schema::{EntityFieldType, EntityFieldView, EntityView};
use crate::tables::{blocks_entity, call_traces_entity, events_entity, transactions_entity};
use crate::types::{
    ENTITY_FIELD_BLOCK_HASH, ENTITY_FIELD_BLOCK_INDEX, ENTITY_FIELD_BLOCK_TX_INDEX,
    ENTITY_FIELD_ID, ENTITY_FIELD_RECORD_VERSION, ENTITY_FIELD_TIME_INDEX,
    ENTITY_FIELD_TX_HASH, ENTITY_FIELD_TX_INDEX,
};

verus! {

/// The value of one column in one row; `None` where the row has none.
#[derive(Clone, Debug, PartialEq, Eq)]
pub enum ColumnValue {
    Uint8(Option<u8>),
    Uint32(Option<u32>),
    Uint64(Option<u64>),
    Boolean(Option<bool>),
    Binary(Option<Vec<u8>>),
    ListUint64(Option<Vec<u64>>),
    ListBinary(Option<Vec<Vec<u8>>>),
}

/// What a [`ColumnValue`] holds, as mathematical values.
#[verifier::ext_equal]
pub enum ColumnValueView {
    Uint8(Option<u8>),
    Uint32(Option<u32>),
    Uint64(Option<u64>),
    Boolean(Option<bool>),
    Binary(Option<Seq<u8>>),
    ListUint64(Option<Seq<u64>>),
    ListBinary(Option<Seq<Seq<u8>>>),
}

impl View for ColumnValue {
    type V = ColumnValueView;

    open spec fn view(&self) -> ColumnValueView {
        match *self {
            ColumnValue::Uint8(value) => ColumnValueView::Uint8(value),
            ColumnValue::Uint32(value) => ColumnValueView::Uint32(value),
            ColumnValue::Uint64(value) => ColumnValueView::Uint64(value),
            ColumnValue::Boolean(value) => ColumnValueView::Boolean(value),
            ColumnValue::Binary(value) => ColumnValueView::Binary(opt_view(value)),
            ColumnValue::ListUint64(value) => ColumnValueView::ListUint64(opt_view(value)),
            ColumnValue::ListBinary(value) => ColumnValueView::ListBinary(opt_seq_view(value)),
        }
    }
}

/// A value under the name of its column.
#[derive(Clone, Debug, PartialEq, Eq)]
pub struct Column {
    pub name: String,
    pub value: ColumnValue,
}

/// What a [`Column`] holds, as mathematical values.
#[verifier::ext_equal]
pub struct ColumnView {
    pub name: Seq<char>,
    pub value: ColumnValueView,
}

impl View for Column {
    type V = ColumnView;

    open spec fn view(&self) -> ColumnView {
        ColumnView { name: self.name@, value: self.value@ }
    }
}

/// A value under the name of its column.
pub open spec fn column(name: Seq<char>, value: ColumnValueView) -> ColumnView {
    ColumnView { name, value }
}

/// The value is one that the declared column takes: of the declared type,
/// a list exactly where a list is declared, and present where the
/// declaration requires a value.
pub open spec fn fits(field: EntityFieldView, value: ColumnValueView) -> bool {
    match field.list {
        None => match (field.field_type, value) {
            (EntityFieldType::Uint8(required), ColumnValueView::Uint8(v)) => required ==> v
                is Some,
            (EntityFieldType::Uint32(required), ColumnValueView::Uint32(v)) => required ==> v
                is Some,
            (EntityFieldType::Uint64(required), ColumnValueView::Uint64(v)) => required ==> v
                is Some,
            (EntityFieldType::Boolean(required), ColumnValueView::Boolean(v)) => required ==> v
                is Some,
            (EntityFieldType::Binary(required), ColumnValueView::Binary(v)) => required ==> v
                is Some,
            _ => false,
        },
        Some(required) => match (field.field_type, value) {
            (EntityFieldType::Uint64(_), ColumnValueView::ListUint64(v)) => required ==> v
                is Some,
            (EntityFieldType::Binary(_), ColumnValueView::ListBinary(v)) => required ==> v
                is Some,
            _ => false,
        },
    }
}

/// The columns are those that the entity declares, in the order of their
/// declaration, each with a value that its column takes.
pub open spec fn conforms(entity: EntityView, columns: Seq<ColumnView>) -> bool {
    &&& columns.len() == entity.fields.len()
    &&& forall|i: int|
        0 <= i < columns.len() ==> (#[trigger] columns[i]).name == entity.fields[i].name && fits(
            entity.fields[i],
            columns[i].value,
        )
}

/// A copy of a list of byte strings, where there is one.
fn clone_optional_bytes_list(list: &Option<Vec<Vec<u8>>>) -> (copy: Option<Vec<Vec<u8>>>)
    ensures
        opt_seq_view(copy) == opt_seq_view(*list),
{
    match list {
        Some(items) => Some(clone_bytes_list(items)),
        None => None,
    }
}

fn push_column(columns: &mut Vec<Column>, name: &str, value: ColumnValue)
    ensures
        seq_view(*final(columns)) == seq_view(*old(columns)).push(column(name@, value@)),
{
    let built = Column { name: name.to_owned(), value };
    let ghost before = seq_view(*columns);
    columns.push(built);
    assert(seq_view(*columns) =~= before.push(built@));
}

/// The columns of a row of the blocks table.
pub open spec fn block_columns(row: BlockRowView) -> Seq<ColumnView> {
    Seq::empty()
        .push(column(ENTITY_FIELD_ID@, ColumnValueView::Uint64(Some(row.id))))
        .push(
            column(
                "relation_transactions"@,
                ColumnValueView::ListUint64(Some(row.relation_transactions)),
            ),
        )
        .push(column("relation_events"@, ColumnValueView::ListUint64(Some(row.relation_events))))
        .push(
            column(
                "relation_call_traces"@,
                ColumnValueView::ListUint64(Some(row.relation_call_traces)),
            ),
        )
        .push(
            column(
                ENTITY_FIELD_RECORD_VERSION@,
                ColumnValueView::Uint8(Some(row.record_version)),
            ),
        )
        .push(column(ENTITY_FIELD_BLOCK_INDEX@, ColumnValueView::Uint64(Some(row.block_index))))
        .push(column(ENTITY_FIELD_TIME_INDEX@, ColumnValueView::Uint64(Some(row.time_index))))
        .push(
            column(
                ENTITY_FIELD_BLOCK_TX_INDEX@,
                ColumnValueView::Uint64(Some(row.block_tx_index)),
            ),
        )
        .push(column("epoch"@, ColumnValueView::Uint64(Some(row.epoch))))
        .push(column("round"@, ColumnValueView::Uint64(Some(row.round))))
        .push(column("hash"@, ColumnValueView::Binary(Some(row.hash))))
        .push(column("parent_hash"@, ColumnValueView::Binary(row.parent_hash)))
        .push(column("proposer"@, ColumnValueView::Binary(Some(row.proposer))))
        .push(
            column(
                "previous_block_votes"@,
                ColumnValueView::Binary(Some(row.previous_block_votes)),
            ),
        )
        .push(column("time"@, ColumnValueView::Uint64(Some(row.time))))
        .push(column("size"@, ColumnValueView::Uint32(Some(row.size))))
        .push(column("transactions_count"@, ColumnValueView::Uint32(Some(row.transactions_count))))
        .push(column("total_minted"@, ColumnValueView::Uint64(Some(row.total_minted))))
        .push(column("total_fee"@, ColumnValueView::Uint64(Some(row.total_fee))))
}

/// A row of the blocks table gives exactly the columns that the table
/// declares.
pub proof fn lemma_block_columns_conform(row: BlockRowView)
    ensures
        conforms(blocks_entity(), block_columns(row)),
{
    let fields = blocks_entity().fields;
    let columns = block_columns(row);
    assert(columns.len() == 19);
    assert(fields.len() == 19);
}

impl BlockRow {
    /// The row as columns, in the order in which the blocks table
    /// declares them.
    pub fn columns(&self) -> (columns: Vec<Column>)
        ensures
            seq_view(columns) == block_columns(self@),
            conforms(blocks_entity(), seq_view(columns)),
    {
        let row = self;
        let mut columns: Vec<Column> = Vec::new();
        assert(seq_view(columns) =~= Seq::empty());
        push_column(&mut columns, ENTITY_FIELD_ID, ColumnValue::Uint64(Some(row.id)));
        push_column(
            &mut columns,
            "relation_transactions",
            ColumnValue::ListUint64(Some(clone_ids(&row.relation_transactions))),
        );
        push_column(
            &mut columns,
            "relation_events",
            ColumnValue::ListUint64(Some(clone_ids(&row.relation_events))),
        );
        push_column(
            &mut columns,
            "relation_call_traces",
            ColumnValue::ListUint64(Some(clone_ids(&row.relation_call_traces))),
        );
        push_column(
            &mut columns,
            ENTITY_FIELD_RECORD_VERSION,
            ColumnValue::Uint8(Some(row.record_version)),
        );
        push_column(
            &mut columns,
            ENTITY_FIELD_BLOCK_INDEX,
            ColumnValue::Uint64(Some(row.block_index)),
        );
        push_column(
            &mut columns,
            ENTITY_FIELD_TIME_INDEX,
            ColumnValue::Uint64(Some(row.time_index)),
        );
        push_column(
            &mut columns,
            ENTITY_FIELD_BLOCK_TX_INDEX,
            ColumnValue::Uint64(Some(row.block_tx_index)),
        );
        push_column(&mut columns, "epoch", ColumnValue::Uint64(Some(row.epoch)));
        push_column(&mut columns, "round", ColumnValue::Uint64(Some(row.round)));
        push_column(&mut columns, "hash", ColumnValue::Binary(Some(clone_bytes(&row.hash))));
        push_column(
            &mut columns,
            "parent_hash",
            ColumnValue::Binary(clone_optional_bytes(&row.parent_hash)),
        );
        push_column(
            &mut columns,
            "proposer",
            ColumnValue::Binary(Some(clone_bytes(&row.proposer))),
        );
        push_column(
            &mut columns,
            "previous_block_votes",
            ColumnValue::Binary(Some(clone_bytes(&row.previous_block_votes))),
        );
        push_column(&mut columns, "time", ColumnValue::Uint64(Some(row.time)));
        push_column(&mut columns, "size", ColumnValue::Uint32(Some(row.size)));
        push_column(
            &mut columns,
            "transactions_count",
            ColumnValue::Uint32(Some(row.transactions_count)),
        );
        push_column(&mut columns, "total_minted", ColumnValue::Uint64(Some(row.total_minted)));
        push_column(&mut columns, "total_fee", ColumnValue::Uint64(Some(row.total_fee)));
        proof {
            lemma_block_columns_conform(self@);
        }
        columns
    }
}

/// The columns of a row of the transactions table.
pub open spec fn transaction_columns(row: TransactionRowView) -> Seq<ColumnView> {
    Seq::empty()
        .push(column(ENTITY_FIELD_ID@, ColumnValueView::Uint64(Some(row.id))))
        .push(column("relation_block"@, ColumnValueView::Uint64(Some(row.relation_block))))
        .push(column("relation_events"@, ColumnValueView::ListUint64(Some(row.relation_events))))
        .push(
            column(
                "relation_call_traces"@,
                ColumnValueView::ListUint64(Some(row.relation_call_traces)),
            ),
        )
        .push(
            column(
                ENTITY_FIELD_RECORD_VERSION@,
                ColumnValueView::Uint8(Some(row.record_version)),
            ),
        )
        .push(column(ENTITY_FIELD_TX_INDEX@, ColumnValueView::Uint64(Some(row.tx_index))))
        .push(column(ENTITY_FIELD_BLOCK_INDEX@, ColumnValueView::Uint64(Some(row.block_index))))
        .push(column(ENTITY_FIELD_TIME_INDEX@, ColumnValueView::Uint64(Some(row.time_index))))
        .push(
            column(
                ENTITY_FIELD_BLOCK_TX_INDEX@,
                ColumnValueView::Uint64(Some(row.block_tx_index)),
            ),
        )
        .push(column(ENTITY_FIELD_BLOCK_HASH@, ColumnValueView::Binary(Some(row.block_hash))))
        .push(column(ENTITY_FIELD_TX_HASH@, ColumnValueView::Binary(Some(row.tx_hash))))
        .push(column("epoch"@, ColumnValueView::Uint64(Some(row.epoch))))
        .push(column("chain_id"@, ColumnValueView::Uint8(Some(row.chain_id))))
        .push(column("state_change_hash"@, ColumnValueView::Binary(Some(row.state_change_hash))))
        .push(column("event_root_hash"@, ColumnValueView::Binary(Some(row.event_root_hash))))
        .push(column("success"@, ColumnValueView::Boolean(Some(row.success))))
        .push(column("detailed_status"@, ColumnValueView::Binary(Some(row.detailed_status))))
        .push(column("tx_type"@, ColumnValueView::Uint8(Some(row.tx_type))))
        .push(column("sender"@, ColumnValueView::Binary(row.sender)))
        .push(column("sequence_number"@, ColumnValueView::Uint64(row.sequence_number)))
        .push(column("gas_limit"@, ColumnValueView::Uint64(row.gas_limit)))
        .push(column("gas_price"@, ColumnValueView::Uint64(row.gas_price)))
        .push(column("gas_used"@, ColumnValueView::Uint64(Some(row.gas_used))))
        .push(
            column(
                "expiration_timestamp_secs"@,
                ColumnValueView::Uint64(row.expiration_timestamp_secs),
            ),
        )
        .push(column("payload_type"@, ColumnValueView::Uint8(Some(row.payload_type))))
        .push(column("payload_code"@, ColumnValueView::Binary(row.payload_code)))
        .push(
            column(
                "payload_module_address"@,
                ColumnValueView::Binary(row.payload_module_address),
            ),
        )
        .push(column("payload_method_name"@, ColumnValueView::Binary(row.payload_method_name)))
        .push(column("payload_ty_args"@, ColumnValueView::ListBinary(row.payload_ty_args)))
        .push(column("payload_arg_types"@, ColumnValueView::ListBinary(row.payload_arg_types)))
        .push(column("payload_arg_values"@, ColumnValueView::ListBinary(row.payload_arg_values)))
        .push(column("signature"@, ColumnValueView::Binary(row.signature)))
        .push(column("state_checkpoint"@, ColumnValueView::Binary(row.state_checkpoint)))
        .push(column("proposer"@, ColumnValueView::Binary(row.proposer)))
        .push(column("size"@, ColumnValueView::Uint32(row.size)))
        .push(column("time"@, ColumnValueView::Uint64(Some(row.time))))
        .push(column("fee"@, ColumnValueView::Uint64(row.fee)))
}

/// A row of the transactions table gives exactly the columns that the table
/// declares.
pub proof fn lemma_transaction_columns_conform(row: TransactionRowView)
    ensures
        conforms(transactions_entity(), transaction_columns(row)),
{
    let fields = transactions_entity().fields;
    let columns = transaction_columns(row);
    assert(columns.len() == 37);
    assert(fields.len() == 37);
}

impl TransactionRow {
    /// The row as columns, in the order in which the transactions table
    /// declares them.
    pub fn columns(&self) -> (columns: Vec<Column>)
        ensures
            seq_view(columns) == transaction_columns(self@),
            conforms(transactions_entity(), seq_view(columns)),
    {
        let row = self;
        let mut columns: Vec<Column> = Vec::new();
        assert(seq_view(columns) =~= Seq::empty());
        push_column(&mut columns, ENTITY_FIELD_ID, ColumnValue::Uint64(Some(row.id)));
        push_column(&mut columns, "relation_block", ColumnValue::Uint64(Some(row.relation_block)));
        push_column(
            &mut columns,
            "relation_events",
            ColumnValue::ListUint64(Some(clone_ids(&row.relation_events))),
        );
        push_column(
            &mut columns,
            "relation_call_traces",
            ColumnValue::ListUint64(Some(clone_ids(&row.relation_call_traces))),
        );
        push_column(
            &mut columns,
            ENTITY_FIELD_RECORD_VERSION,
            ColumnValue::Uint8(Some(row.record_version)),
        );
        push_column(&mut columns, ENTITY_FIELD_TX_INDEX, ColumnValue::Uint64(Some(row.tx_index)));
        push_column(
            &mut columns,
            ENTITY_FIELD_BLOCK_INDEX,
            ColumnValue::Uint64(Some(row.block_index)),
        );
        push_column(
            &mut columns,
            ENTITY_FIELD_TIME_INDEX,
            ColumnValue::Uint64(Some(row.time_index)),
        );
        push_column(
            &mut columns,
            ENTITY_FIELD_BLOCK_TX_INDEX,
            ColumnValue::Uint64(Some(row.block_tx_index)),
        );
        push_column(
            &mut columns,
            ENTITY_FIELD_BLOCK_HASH,
            ColumnValue::Binary(Some(clone_bytes(&row.block_hash))),
        );
        push_column(
            &mut columns,
            ENTITY_FIELD_TX_HASH,
            ColumnValue::Binary(Some(clone_bytes(&row.tx_hash))),
        );
        push_column(&mut columns, "epoch", ColumnValue::Uint64(Some(row.epoch)));
        push_column(&mut columns, "chain_id", ColumnValue::Uint8(Some(row.chain_id)));
        push_column(
            &mut columns,
            "state_change_hash",
            ColumnValue::Binary(Some(clone_bytes(&row.state_change_hash))),
        );
        push_column(
            &mut columns,
            "event_root_hash",
            ColumnValue::Binary(Some(clone_bytes(&row.event_root_hash))),
        );
        push_column(&mut columns, "success", ColumnValue::Boolean(Some(row.success)));
        push_column(
            &mut columns,
            "detailed_status",
            ColumnValue::Binary(Some(clone_bytes(&row.detailed_status))),
        );
        push_column(&mut columns, "tx_type", ColumnValue::Uint8(Some(row.tx_type)));
        push_column(&mut columns, "sender", ColumnValue::Binary(clone_optional_bytes(&row.sender)));
        push_column(&mut columns, "sequence_number", ColumnValue::Uint64(row.sequence_number));
        push_column(&mut columns, "gas_limit", ColumnValue::Uint64(row.gas_limit));
        push_column(&mut columns, "gas_price", ColumnValue::Uint64(row.gas_price));
        push_column(&mut columns, "gas_used", ColumnValue::Uint64(Some(row.gas_used)));
        push_column(
            &mut columns,
            "expiration_timestamp_secs",
            ColumnValue::Uint64(row.expiration_timestamp_secs),
        );
        push_column(&mut columns, "payload_type", ColumnValue::Uint8(Some(row.payload_type)));
        push_column(
            &mut columns,
            "payload_code",
            ColumnValue::Binary(clone_optional_bytes(&row.payload_code)),
        );
        push_column(
            &mut columns,
            "payload_module_address",
            ColumnValue::Binary(clone_optional_bytes(&row.payload_module_address)),
        );
        push_column(
            &mut columns,
            "payload_method_name",
            ColumnValue::Binary(clone_optional_bytes(&row.payload_method_name)),
        );
        push_column(
            &mut columns,
            "payload_ty_args",
            ColumnValue::ListBinary(clone_optional_bytes_list(&row.payload_ty_args)),
        );
        push_column(
            &mut columns,
            "payload_arg_types",
            ColumnValue::ListBinary(clone_optional_bytes_list(&row.payload_arg_types)),
        );
        push_column(
            &mut columns,
            "payload_arg_values",
            ColumnValue::ListBinary(clone_optional_bytes_list(&row.payload_arg_values)),
        );
        push_column(
            &mut columns,
            "signature",
            ColumnValue::Binary(clone_optional_bytes(&row.signature)),
        );
        push_column(
            &mut columns,
            "state_checkpoint",
            ColumnValue::Binary(clone_optional_bytes(&row.state_checkpoint)),
        );
        push_column(
            &mut columns,
            "proposer",
            ColumnValue::Binary(clone_optional_bytes(&row.proposer)),
        );
        push_column(&mut columns, "size", ColumnValue::Uint32(row.size));
        push_column(&mut columns, "time", ColumnValue::Uint64(Some(row.time)));
        push_column(&mut columns, "fee", ColumnValue::Uint64(row.fee));
        proof {
            lemma_transaction_columns_conform(self@);
        }
        columns
    }
}

/// The columns of a row of the events table.
pub open spec fn event_columns(row: EventRowView) -> Seq<ColumnView> {
    Seq::empty()
        .push(column(ENTITY_FIELD_ID@, ColumnValueView::Uint64(Some(row.id))))
        .push(column("relation_block"@, ColumnValueView::Uint64(Some(row.relation_block))))
        .push(
            column(
                "relation_transaction"@,
                ColumnValueView::Uint64(Some(row.relation_transaction)),
            ),
        )
        .push(
            column(
                ENTITY_FIELD_RECORD_VERSION@,
                ColumnValueView::Uint8(Some(row.record_version)),
            ),
        )
        .push(column(ENTITY_FIELD_TX_INDEX@, ColumnValueView::Uint64(Some(row.tx_index))))
        .push(column(ENTITY_FIELD_BLOCK_INDEX@, ColumnValueView::Uint64(Some(row.block_index))))
        .push(column(ENTITY_FIELD_TIME_INDEX@, ColumnValueView::Uint64(Some(row.time_index))))
        .push(
            column(
                ENTITY_FIELD_BLOCK_TX_INDEX@,
                ColumnValueView::Uint64(Some(row.block_tx_index)),
            ),
        )
        .push(column(ENTITY_FIELD_BLOCK_HASH@, ColumnValueView::Binary(Some(row.block_hash))))
        .push(column(ENTITY_FIELD_TX_HASH@, ColumnValueView::Binary(Some(row.tx_hash))))
        .push(column("index"@, ColumnValueView::Uint32(Some(row.index))))
        .push(column("module_address"@, ColumnValueView::Binary(row.module_address)))
        .push(column("event_name"@, ColumnValueView::Binary(row.event_name)))
        .push(
            column(
                "payload_arg_types"@,
                ColumnValueView::ListBinary(Some(row.payload_arg_types)),
            ),
        )
        .push(
            column(
                "payload_arg_names"@,
                ColumnValueView::ListBinary(Some(row.payload_arg_names)),
            ),
        )
        .push(
            column(
                "payload_arg_values"@,
                ColumnValueView::ListBinary(Some(row.payload_arg_values)),
            ),
        )
        .push(column("creation_number"@, ColumnValueView::Uint64(Some(row.creation_number))))
}

/// A row of the events table gives exactly the columns that the table
/// declares.
pub proof fn lemma_event_columns_conform(row: EventRowView)
    ensures
        conforms(events_entity(), event_columns(row)),
{
    let fields = events_entity().fields;
    let columns = event_columns(row);
    assert(columns.len() == 17);
    assert(fields.len() == 17);
}

impl EventRow {
    /// The row as columns, in the order in which the events table
    /// declares them.
    pub fn columns(&self) -> (columns: Vec<Column>)
        ensures
            seq_view(columns) == event_columns(self@),
            conforms(events_entity(), seq_view(columns)),
    {
        let row = self;
        let mut columns: Vec<Column> = Vec::new();
        assert(seq_view(columns) =~= Seq::empty());
        push_column(&mut columns, ENTITY_FIELD_ID, ColumnValue::Uint64(Some(row.id)));
        push_column(&mut columns, "relation_block", ColumnValue::Uint64(Some(row.relation_block)));
        push_column(
            &mut columns,
            "relation_transaction",
            ColumnValue::Uint64(Some(row.relation_transaction)),
        );
        push_column(
            &mut columns,
            ENTITY_FIELD_RECORD_VERSION,
            ColumnValue::Uint8(Some(row.record_version)),
        );
        push_column(&mut columns, ENTITY_FIELD_TX_INDEX, ColumnValue::Uint64(Some(row.tx_index)));
        push_column(
            &mut columns,
            ENTITY_FIELD_BLOCK_INDEX,
            ColumnValue::Uint64(Some(row.block_index)),
        );
        push_column(
            &mut columns,
            ENTITY_FIELD_TIME_INDEX,
            ColumnValue::Uint64(Some(row.time_index)),
        );
        push_column(
            &mut columns,
            ENTITY_FIELD_BLOCK_TX_INDEX,
            ColumnValue::Uint64(Some(row.block_tx_index)),
        );
        push_column(
            &mut columns,
            ENTITY_FIELD_BLOCK_HASH,
            ColumnValue::Binary(Some(clone_bytes(&row.block_hash))),
        );
        push_column(
            &mut columns,
            ENTITY_FIELD_TX_HASH,
            ColumnValue::Binary(Some(clone_bytes(&row.tx_hash))),
        );
        push_column(&mut columns, "index", ColumnValue::Uint32(Some(row.index)));
        push_column(
            &mut columns,
            "module_address",
            ColumnValue::Binary(clone_optional_bytes(&row.module_address)),
        );
        push_column(
            &mut columns,
            "event_name",
            ColumnValue::Binary(clone_optional_bytes(&row.event_name)),
        );
        push_column(
            &mut columns,
            "payload_arg_types",
            ColumnValue::ListBinary(Some(clone_bytes_list(&row.payload_arg_types))),
        );
        push_column(
            &mut columns,
            "payload_arg_names",
            ColumnValue::ListBinary(Some(clone_bytes_list(&row.payload_arg_names))),
        );
        push_column(
            &mut columns,
            "payload_arg_values",
            ColumnValue::ListBinary(Some(clone_bytes_list(&row.payload_arg_values))),
        );
        push_column(
            &mut columns,
            "creation_number",
            ColumnValue::Uint64(Some(row.creation_number)),
        );
        proof {
            lemma_event_columns_conform(self@);
        }
        columns
    }
}

/// The columns of a row of the call traces table.
pub open spec fn call_trace_columns(row: CallTraceRowView) -> Seq<ColumnView> {
    Seq::empty()
        .push(column(ENTITY_FIELD_ID@, ColumnValueView::Uint64(Some(row.id))))
        .push(column("relation_block"@, ColumnValueView::Uint64(Some(row.relation_block))))
        .push(
            column(
                "relation_transaction"@,
                ColumnValueView::Uint64(Some(row.relation_transaction)),
            ),
        )
        .push(
            column(
                ENTITY_FIELD_RECORD_VERSION@,
                ColumnValueView::Uint8(Some(row.record_version)),
            ),
        )
        .push(column(ENTITY_FIELD_TX_INDEX@, ColumnValueView::Uint64(Some(row.tx_index))))
        .push(column(ENTITY_FIELD_BLOCK_INDEX@, ColumnValueView::Uint64(Some(row.block_index))))
        .push(column(ENTITY_FIELD_TIME_INDEX@, ColumnValueView::Uint64(Some(row.time_index))))
        .push(
            column(
                ENTITY_FIELD_BLOCK_TX_INDEX@,
                ColumnValueView::Uint64(Some(row.block_tx_index)),
            ),
        )
        .push(column(ENTITY_FIELD_BLOCK_HASH@, ColumnValueView::Binary(Some(row.block_hash))))
        .push(column(ENTITY_FIELD_TX_HASH@, ColumnValueView::Binary(Some(row.tx_hash))))
        .push(column("tx_type"@, ColumnValueView::Uint8(Some(row.tx_type))))
        .push(column("depth"@, ColumnValueView::Uint32(Some(row.depth))))
        .push(column("call_type"@, ColumnValueView::Uint8(Some(row.call_type))))
        .push(column("module_address"@, ColumnValueView::Binary(row.module_address)))
        .push(column("method_name"@, ColumnValueView::Binary(Some(row.method_name))))
        .push(column("ty_args"@, ColumnValueView::ListBinary(Some(row.ty_args))))
        .push(column("arg_types"@, ColumnValueView::ListBinary(Some(row.arg_types))))
        .push(column("arg_values"@, ColumnValueView::ListBinary(Some(row.arg_values))))
        .push(column("gas_used"@, ColumnValueView::Uint64(Some(row.gas_used))))
        .push(column("err"@, ColumnValueView::Binary(row.err)))
}

/// A row of the call traces table gives exactly the columns that the table
/// declares.
pub proof fn lemma_call_trace_columns_conform(row: CallTraceRowView)
    ensures
        conforms(call_traces_entity(), call_trace_columns(row)),
{
    let fields = call_traces_entity().fields;
    let columns = call_trace_columns(row);
    assert(columns.len() == 20);
    assert(fields.len() == 20);
}

impl CallTraceRow {
    /// The row as columns, in the order in which the call traces table
    /// declares them.
    pub fn columns(&self) -> (columns: Vec<Column>)
        ensures
            seq_view(columns) == call_trace_columns(self@),
            conforms(call_traces_entity(), seq_view(columns)),
    {
        let row = self;
        let mut columns: Vec<Column> = Vec::new();
        assert(seq_view(columns) =~= Seq::empty());
        push_column(&mut columns, ENTITY_FIELD_ID, ColumnValue::Uint64(Some(row.id)));
        push_column(&mut columns, "relation_block", ColumnValue::Uint64(Some(row.relation_block)));
        push_column(
            &mut columns,
            "relation_transaction",
            ColumnValue::Uint64(Some(row.relation_transaction)),
        );
        push_column(
            &mut columns,
            ENTITY_FIELD_RECORD_VERSION,
            ColumnValue::Uint8(Some(row.record_version)),
        );
        push_column(&mut columns, ENTITY_FIELD_TX_INDEX, ColumnValue::Uint64(Some(row.tx_index)));
        push_column(
            &mut columns,
            ENTITY_FIELD_BLOCK_INDEX,
            ColumnValue::Uint64(Some(row.block_index)),
        );
        push_column(
            &mut columns,
            ENTITY_FIELD_TIME_INDEX,
            ColumnValue::Uint64(Some(row.time_index)),
        );
        push_column(
            &mut columns,
            ENTITY_FIELD_BLOCK_TX_INDEX,
            ColumnValue::Uint64(Some(row.block_tx_index)),
        );
        push_column(
            &mut columns,
            ENTITY_FIELD_BLOCK_HASH,
            ColumnValue::Binary(Some(clone_bytes(&row.block_hash))),
        );
        push_column(
            &mut columns,
            ENTITY_FIELD_TX_HASH,
            ColumnValue::Binary(Some(clone_bytes(&row.tx_hash))),
        );
        push_column(&mut columns, "tx_type", ColumnValue::Uint8(Some(row.tx_type)));
        push_column(&mut columns, "depth", ColumnValue::Uint32(Some(row.depth)));
        push_column(&mut columns, "call_type", ColumnValue::Uint8(Some(row.call_type)));
        push_column(
            &mut columns,
            "module_address",
            ColumnValue::Binary(clone_optional_bytes(&row.module_address)),
        );
        push_column(
            &mut columns,
            "method_name",
            ColumnValue::Binary(Some(clone_bytes(&row.method_name))),
        );
        push_column(
            &mut columns,
            "ty_args",
            ColumnValue::ListBinary(Some(clone_bytes_list(&row.ty_args))),
        );
        push_column(
            &mut columns,
            "arg_types",
            ColumnValue::ListBinary(Some(clone_bytes_list(&row.arg_types))),
        );
        push_column(
            &mut columns,
            "arg_values",
            ColumnValue::ListBinary(Some(clone_bytes_list(&row.arg_values))),
        );
        push_column(&mut columns, "gas_used", ColumnValue::Uint64(Some(row.gas_used)));
        push_column(&mut columns, "err", ColumnValue::Binary(clone_optional_bytes(&row.err)));
        proof {
            lemma_call_trace_columns_conform(self@);
        }
        columns
    }
}

} // verus!
