use queryable::columns::{Column, ColumnValue};
use queryable::rows::{BlockRow, CallTraceRow, EventRow, TransactionRow};
use queryable::schema::{Entity, EntityFieldType};
use queryable::tables::export_schema;

fn block_row() -> BlockRow {
    BlockRow {
        id: 3,
        relation_transactions: vec![7, 8],
        relation_events: vec![],
        relation_call_traces: vec![9],
        record_version: 1,
        block_index: 3,
        time_index: 500,
        block_tx_index: 40,
        epoch: 2,
        round: 6,
        hash: vec![1; 32],
        parent_hash: None,
        proposer: vec![2; 32],
        previous_block_votes: vec![3],
        time: 500,
        size: 120,
        transactions_count: 2,
        total_minted: 0,
        total_fee: 50,
    }
}

fn transaction_row(user: bool) -> TransactionRow {
    TransactionRow {
        id: 7,
        relation_block: 3,
        relation_events: vec![1],
        relation_call_traces: vec![],
        record_version: 1,
        tx_index: 40,
        block_index: 3,
        time_index: 500,
        block_tx_index: 40,
        block_hash: vec![1; 32],
        tx_hash: vec![4; 32],
        epoch: 2,
        chain_id: 4,
        state_change_hash: vec![5; 32],
        event_root_hash: vec![6; 32],
        success: true,
        detailed_status: vec![7],
        tx_type: if user { 1 } else { 2 },
        sender: if user { Some(vec![8; 32]) } else { None },
        sequence_number: if user { Some(1) } else { None },
        gas_limit: if user { Some(100) } else { None },
        gas_price: if user { Some(5) } else { None },
        gas_used: 10,
        expiration_timestamp_secs: if user { Some(9) } else { None },
        payload_type: if user { 3 } else { 0 },
        payload_code: None,
        payload_module_address: if user { Some(vec![1; 32]) } else { None },
        payload_method_name: if user { Some(b"f".to_vec()) } else { None },
        payload_ty_args: if user { Some(vec![b"u8".to_vec()]) } else { None },
        payload_arg_types: None,
        payload_arg_values: if user { Some(vec![vec![1]]) } else { None },
        signature: if user { Some(vec![9]) } else { None },
        state_checkpoint: None,
        proposer: None,
        size: if user { Some(120) } else { None },
        time: 500,
        fee: if user { Some(50) } else { None },
    }
}

fn event_row() -> EventRow {
    EventRow {
        id: 1,
        relation_block: 3,
        relation_transaction: 7,
        record_version: 1,
        tx_index: 40,
        block_index: 3,
        time_index: 500,
        block_tx_index: 40,
        block_hash: vec![1; 32],
        tx_hash: vec![4; 32],
        index: 0,
        module_address: None,
        event_name: Some(b"E".to_vec()),
        payload_arg_types: vec![b"u64".to_vec()],
        payload_arg_names: vec![],
        payload_arg_values: vec![vec![0; 8]],
        creation_number: 2,
    }
}

fn call_trace_row() -> CallTraceRow {
    CallTraceRow {
        id: 9,
        relation_block: 3,
        relation_transaction: 7,
        record_version: 1,
        tx_index: 40,
        block_index: 3,
        time_index: 500,
        block_tx_index: 40,
        block_hash: vec![1; 32],
        tx_hash: vec![4; 32],
        tx_type: 1,
        depth: 1,
        call_type: 2,
        module_address: None,
        method_name: b"m".to_vec(),
        ty_args: vec![],
        arg_types: vec![b"u8".to_vec()],
        arg_values: vec![vec![1]],
        gas_used: 3,
        err: Some(b"e".to_vec()),
    }
}

/// The columns are the declared ones, in order, each of the declared type
/// and present where required.
fn assert_conforms(entity: &Entity, columns: &[Column]) {
    assert_eq!(columns.len(), entity.fields.len());
    for (column, field) in columns.iter().zip(entity.fields.iter()) {
        assert_eq!(column.name, field.name);
        let (required, present) = match (field.list, field.field_type, &column.value) {
            (None, EntityFieldType::Uint8(required), ColumnValue::Uint8(value)) => (required, value.is_some()),
            (None, EntityFieldType::Uint32(required), ColumnValue::Uint32(value)) => (required, value.is_some()),
            (None, EntityFieldType::Uint64(required), ColumnValue::Uint64(value)) => (required, value.is_some()),
            (None, EntityFieldType::Boolean(required), ColumnValue::Boolean(value)) => (required, value.is_some()),
            (None, EntityFieldType::Binary(required), ColumnValue::Binary(value)) => (required, value.is_some()),
            (Some(required), EntityFieldType::Uint64(_), ColumnValue::ListUint64(value)) => (required, value.is_some()),
            (Some(required), EntityFieldType::Binary(_), ColumnValue::ListBinary(value)) => (required, value.is_some()),
            _ => panic!("column {} has not the declared type", column.name),
        };
        assert!(present || !required, "column {} lacks a required value", column.name);
    }
}

fn value<'a>(columns: &'a [Column], name: &str) -> &'a ColumnValue {
    &columns.iter().find(|column| column.name == name).unwrap().value
}

#[test]
fn rows_give_the_columns_that_their_tables_declare() {
    let registry = export_schema().unwrap();
    let entities = registry.entities();
    assert_conforms(&entities[0], &block_row().columns());
    assert_conforms(&entities[1], &transaction_row(true).columns());
    assert_conforms(&entities[1], &transaction_row(false).columns());
    assert_conforms(&entities[2], &event_row().columns());
    assert_conforms(&entities[3], &call_trace_row().columns());
}

#[test]
fn block_columns_carry_the_values_of_the_row() {
    let columns = block_row().columns();
    assert_eq!(columns[0], Column { name: "_id".to_string(), value: ColumnValue::Uint64(Some(3)) });
    assert_eq!(value(&columns, "relation_transactions"), &ColumnValue::ListUint64(Some(vec![7, 8])));
    assert_eq!(value(&columns, "relation_events"), &ColumnValue::ListUint64(Some(vec![])));
    assert_eq!(value(&columns, "relation_call_traces"), &ColumnValue::ListUint64(Some(vec![9])));
    assert_eq!(value(&columns, "record_version"), &ColumnValue::Uint8(Some(1)));
    assert_eq!(value(&columns, "block_index"), &ColumnValue::Uint64(Some(3)));
    assert_eq!(value(&columns, "time_index"), &ColumnValue::Uint64(Some(500)));
    assert_eq!(value(&columns, "block_tx_index"), &ColumnValue::Uint64(Some(40)));
    assert_eq!(value(&columns, "epoch"), &ColumnValue::Uint64(Some(2)));
    assert_eq!(value(&columns, "round"), &ColumnValue::Uint64(Some(6)));
    assert_eq!(value(&columns, "hash"), &ColumnValue::Binary(Some(vec![1; 32])));
    assert_eq!(value(&columns, "parent_hash"), &ColumnValue::Binary(None));
    assert_eq!(value(&columns, "proposer"), &ColumnValue::Binary(Some(vec![2; 32])));
    assert_eq!(value(&columns, "previous_block_votes"), &ColumnValue::Binary(Some(vec![3])));
    assert_eq!(value(&columns, "time"), &ColumnValue::Uint64(Some(500)));
    assert_eq!(value(&columns, "size"), &ColumnValue::Uint32(Some(120)));
    assert_eq!(value(&columns, "transactions_count"), &ColumnValue::Uint32(Some(2)));
    assert_eq!(value(&columns, "total_minted"), &ColumnValue::Uint64(Some(0)));
    assert_eq!(value(&columns, "total_fee"), &ColumnValue::Uint64(Some(50)));
}

#[test]
fn transaction_columns_are_null_where_the_row_has_no_value() {
    let columns = transaction_row(false).columns();
    for name in ["sender", "payload_code", "payload_module_address", "payload_method_name", "signature", "state_checkpoint", "proposer"] {
        assert_eq!(value(&columns, name), &ColumnValue::Binary(None));
    }
    for name in ["sequence_number", "gas_limit", "gas_price", "expiration_timestamp_secs", "fee"] {
        assert_eq!(value(&columns, name), &ColumnValue::Uint64(None));
    }
    for name in ["payload_ty_args", "payload_arg_types", "payload_arg_values"] {
        assert_eq!(value(&columns, name), &ColumnValue::ListBinary(None));
    }
    assert_eq!(value(&columns, "size"), &ColumnValue::Uint32(None));
    assert_eq!(value(&columns, "tx_type"), &ColumnValue::Uint8(Some(2)));
    assert_eq!(value(&columns, "payload_type"), &ColumnValue::Uint8(Some(0)));
    assert_eq!(value(&columns, "gas_used"), &ColumnValue::Uint64(Some(10)));
    assert_eq!(value(&columns, "success"), &ColumnValue::Boolean(Some(true)));
    let user = transaction_row(true).columns();
    assert_eq!(value(&user, "sender"), &ColumnValue::Binary(Some(vec![8; 32])));
    assert_eq!(value(&user, "fee"), &ColumnValue::Uint64(Some(50)));
    assert_eq!(value(&user, "size"), &ColumnValue::Uint32(Some(120)));
    assert_eq!(value(&user, "payload_ty_args"), &ColumnValue::ListBinary(Some(vec![b"u8".to_vec()])));
    assert_eq!(value(&user, "payload_arg_types"), &ColumnValue::ListBinary(None));
    assert_eq!(value(&user, "relation_block"), &ColumnValue::Uint64(Some(3)));
    assert_eq!(value(&user, "relation_events"), &ColumnValue::ListUint64(Some(vec![1])));
    assert_eq!(value(&user, "tx_hash"), &ColumnValue::Binary(Some(vec![4; 32])));
    assert_eq!(value(&user, "chain_id"), &ColumnValue::Uint8(Some(4)));
}

#[test]
fn event_and_call_trace_columns_carry_the_values_of_the_row() {
    let columns = event_row().columns();
    assert_eq!(value(&columns, "relation_transaction"), &ColumnValue::Uint64(Some(7)));
    assert_eq!(value(&columns, "index"), &ColumnValue::Uint32(Some(0)));
    assert_eq!(value(&columns, "module_address"), &ColumnValue::Binary(None));
    assert_eq!(value(&columns, "event_name"), &ColumnValue::Binary(Some(b"E".to_vec())));
    assert_eq!(value(&columns, "payload_arg_types"), &ColumnValue::ListBinary(Some(vec![b"u64".to_vec()])));
    assert_eq!(value(&columns, "payload_arg_names"), &ColumnValue::ListBinary(Some(vec![])));
    assert_eq!(value(&columns, "payload_arg_values"), &ColumnValue::ListBinary(Some(vec![vec![0; 8]])));
    assert_eq!(value(&columns, "creation_number"), &ColumnValue::Uint64(Some(2)));
    let columns = call_trace_row().columns();
    assert_eq!(value(&columns, "tx_type"), &ColumnValue::Uint8(Some(1)));
    assert_eq!(value(&columns, "depth"), &ColumnValue::Uint32(Some(1)));
    assert_eq!(value(&columns, "call_type"), &ColumnValue::Uint8(Some(2)));
    assert_eq!(value(&columns, "module_address"), &ColumnValue::Binary(None));
    assert_eq!(value(&columns, "method_name"), &ColumnValue::Binary(Some(b"m".to_vec())));
    assert_eq!(value(&columns, "ty_args"), &ColumnValue::ListBinary(Some(vec![])));
    assert_eq!(value(&columns, "arg_types"), &ColumnValue::ListBinary(Some(vec![b"u8".to_vec()])));
    assert_eq!(value(&columns, "arg_values"), &ColumnValue::ListBinary(Some(vec![vec![1]])));
    assert_eq!(value(&columns, "gas_used"), &ColumnValue::Uint64(Some(3)));
    assert_eq!(value(&columns, "err"), &ColumnValue::Binary(Some(b"e".to_vec())));
}
