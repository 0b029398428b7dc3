use queryable::chain::{
    AnnotatedField, AnnotatedMoveValue, CallTrace, CallType, ContractEvent, EntryFunction,
    ExecutionStatus, Script, SignedTransaction, Transaction, TransactionArgument,
    TransactionInfo, TransactionPayload, TypeTag,
};
use queryable::error::ExportError;
use queryable::record::{
    build_block_row, build_call_trace_row, build_call_trace_rows, build_event_payload,
    build_event_row, build_event_rows, build_id_range, build_payload_columns, build_row_context,
    build_transaction_row, call_type_code, tx_type_code, BlockTotals, RowContext, ValueKind,
};
use queryable::types::BlockMetadata;

fn header() -> BlockMetadata {
    BlockMetadata::new(vec![0xB1; 32], 3, 17, vec![0xA0; 32], vec![0xFF, 0x01], vec![2], 1_000_000)
}

fn context() -> RowContext {
    build_row_context(11, 5, 90, &header(), 4)
}

fn info(gas_used: u64, success: bool) -> TransactionInfo {
    TransactionInfo {
        transaction_hash: vec![0x71; 32],
        state_change_hash: vec![0x72; 32],
        event_root_hash: vec![0x73; 32],
        gas_used,
        status: ExecutionStatus { success, detail: b"\"Success\"".to_vec() },
    }
}

fn signed(payload: TransactionPayload) -> SignedTransaction {
    SignedTransaction {
        sender: vec![0x5E; 32],
        sequence_number: 12,
        payload,
        max_gas_amount: 4000,
        gas_unit_price: 5,
        expiration_timestamp_secs: 1_700_000_123,
        authenticator: b"{\"auth\":1}".to_vec(),
        raw_txn_bytes_len: 120,
    }
}

fn script() -> TransactionPayload {
    TransactionPayload::Script(Script {
        code: vec![0xCA, 0xFE],
        ty_args: vec![b"u64".to_vec(), b"0x1::coin::Coin".to_vec()],
        args: vec![
            TransactionArgument::U8(7),
            TransactionArgument::U64(258),
            TransactionArgument::U128(1 << 64),
            TransactionArgument::Address(vec![0xAD; 32]),
            TransactionArgument::U8Vector(vec![1, 2, 3]),
            TransactionArgument::Bool(true),
            TransactionArgument::Bool(false),
        ],
    })
}

#[test]
fn row_context_copies_the_block() {
    let context = context();
    assert_eq!(context.block_id, 11);
    assert_eq!(context.block_index, 5);
    assert_eq!(context.block_tx_index, 90);
    assert_eq!(context.block_hash, vec![0xB1; 32]);
    assert_eq!(context.time, 1_000_000);
    assert_eq!(context.epoch, 3);
    assert_eq!(context.chain_id, 4);
}

#[test]
fn value_kinds_have_their_words() {
    assert_eq!(ValueKind::U8.name_bytes(), b"u8".to_vec());
    assert_eq!(ValueKind::U64.name_bytes(), b"u64".to_vec());
    assert_eq!(ValueKind::U128.name_bytes(), b"u128".to_vec());
    assert_eq!(ValueKind::Address.name_bytes(), b"address".to_vec());
    assert_eq!(ValueKind::VecU8.name_bytes(), b"vec_u8".to_vec());
    assert_eq!(ValueKind::Bool.name_bytes(), b"bool".to_vec());
}

#[test]
fn script_payload_gives_types_and_values_of_its_arguments() {
    let columns = build_payload_columns(&script());
    assert_eq!(columns.payload_type, 1);
    assert_eq!(columns.code, Some(vec![0xCA, 0xFE]));
    assert_eq!(columns.module_address, None);
    assert_eq!(columns.method_name, None);
    assert_eq!(columns.ty_args, Some(vec![b"u64".to_vec(), b"0x1::coin::Coin".to_vec()]));
    assert_eq!(
        columns.arg_types,
        Some(vec![
            b"u8".to_vec(),
            b"u64".to_vec(),
            b"u128".to_vec(),
            b"address".to_vec(),
            b"vec_u8".to_vec(),
            b"bool".to_vec(),
            b"bool".to_vec(),
        ])
    );
    assert_eq!(
        columns.arg_values,
        Some(vec![
            vec![7],
            258u64.to_be_bytes().to_vec(),
            (1u128 << 64).to_be_bytes().to_vec(),
            vec![0xAD; 32],
            vec![1, 2, 3],
            vec![1],
            vec![0],
        ])
    );
    assert_eq!(columns.arg_values.as_ref().unwrap()[1], vec![0, 0, 0, 0, 0, 0, 1, 2]);
}

#[test]
fn module_bundle_payload_gives_its_kind_only() {
    let columns = build_payload_columns(&TransactionPayload::ModuleBundle);
    assert_eq!(columns.payload_type, 2);
    assert_eq!(columns.code, None);
    assert_eq!(columns.module_address, None);
    assert_eq!(columns.method_name, None);
    assert_eq!(columns.ty_args, None);
    assert_eq!(columns.arg_types, None);
    assert_eq!(columns.arg_values, None);
}

#[test]
fn entry_function_payload_passes_its_arguments_through() {
    let columns = build_payload_columns(&TransactionPayload::EntryFunction(EntryFunction {
        module_address: vec![0x01; 32],
        function: b"transfer".to_vec(),
        ty_args: vec![b"0x1::aptos_coin::AptosCoin".to_vec()],
        args: vec![vec![9, 8, 7], vec![]],
    }));
    assert_eq!(columns.payload_type, 3);
    assert_eq!(columns.code, None);
    assert_eq!(columns.module_address, Some(vec![0x01; 32]));
    assert_eq!(columns.method_name, Some(b"transfer".to_vec()));
    assert_eq!(columns.ty_args, Some(vec![b"0x1::aptos_coin::AptosCoin".to_vec()]));
    assert_eq!(columns.arg_types, None);
    assert_eq!(columns.arg_values, Some(vec![vec![9, 8, 7], vec![]]));
}

#[test]
fn user_transaction_row_has_every_field() {
    let transaction = Transaction::UserTransaction(signed(script()));
    let row = build_transaction_row(&context(), 77, 91, &transaction, &info(10, true), vec![5, 6], vec![9])
        .unwrap();
    assert_eq!(row.id, 77);
    assert_eq!(row.relation_block, 11);
    assert_eq!(row.relation_events, vec![5, 6]);
    assert_eq!(row.relation_call_traces, vec![9]);
    assert_eq!(row.record_version, 1);
    assert_eq!(row.tx_index, 91);
    assert_eq!(row.block_index, 5);
    assert_eq!(row.time_index, 1_000_000);
    assert_eq!(row.block_tx_index, 90);
    assert_eq!(row.block_hash, vec![0xB1; 32]);
    assert_eq!(row.tx_hash, vec![0x71; 32]);
    assert_eq!(row.epoch, 3);
    assert_eq!(row.chain_id, 4);
    assert_eq!(row.state_change_hash, vec![0x72; 32]);
    assert_eq!(row.event_root_hash, vec![0x73; 32]);
    assert_eq!(row.success, true);
    assert_eq!(row.detailed_status, b"\"Success\"".to_vec());
    assert_eq!(row.tx_type, 1);
    assert_eq!(row.sender, Some(vec![0x5E; 32]));
    assert_eq!(row.sequence_number, Some(12));
    assert_eq!(row.gas_limit, Some(4000));
    assert_eq!(row.gas_price, Some(5));
    assert_eq!(row.gas_used, 10);
    assert_eq!(row.expiration_timestamp_secs, Some(1_700_000_123));
    assert_eq!(row.payload_type, 1);
    assert_eq!(row.payload_code, Some(vec![0xCA, 0xFE]));
    assert_eq!(row.signature, Some(b"{\"auth\":1}".to_vec()));
    assert_eq!(row.state_checkpoint, None);
    assert_eq!(row.proposer, None);
    assert_eq!(row.size, Some(120));
    assert_eq!(row.time, 1_000_000);
    assert_eq!(row.fee, Some(50));
}

#[test]
fn genesis_and_state_checkpoint_rows_lack_the_user_fields() {
    let genesis = build_transaction_row(
        &context(),
        1,
        0,
        &Transaction::GenesisTransaction,
        &info(0, true),
        vec![],
        vec![],
    )
    .unwrap();
    let checkpoint = build_transaction_row(
        &context(),
        2,
        1,
        &Transaction::StateCheckpoint(vec![0xC4; 32]),
        &info(0, true),
        vec![],
        vec![],
    )
    .unwrap();
    assert_eq!(genesis.tx_type, 2);
    assert_eq!(checkpoint.tx_type, 4);
    for row in [&genesis, &checkpoint] {
        assert_eq!(row.sender, None);
        assert_eq!(row.sequence_number, None);
        assert_eq!(row.gas_limit, None);
        assert_eq!(row.gas_price, None);
        assert_eq!(row.expiration_timestamp_secs, None);
        assert_eq!(row.payload_type, 0);
        assert_eq!(row.payload_code, None);
        assert_eq!(row.payload_module_address, None);
        assert_eq!(row.payload_method_name, None);
        assert_eq!(row.payload_ty_args, None);
        assert_eq!(row.payload_arg_types, None);
        assert_eq!(row.payload_arg_values, None);
        assert_eq!(row.signature, None);
        assert_eq!(row.proposer, None);
        assert_eq!(row.size, None);
        assert_eq!(row.fee, None);
        assert_eq!(row.gas_used, 0);
    }
    assert_eq!(genesis.state_checkpoint, None);
    assert_eq!(checkpoint.state_checkpoint, Some(vec![0xC4; 32]));
}

#[test]
fn block_metadata_row_has_the_proposer_only() {
    let row = build_transaction_row(
        &context(),
        3,
        90,
        &Transaction::BlockMetadata(header()),
        &info(0, false),
        vec![],
        vec![],
    )
    .unwrap();
    assert_eq!(row.tx_type, 3);
    assert_eq!(row.proposer, Some(vec![0xA0; 32]));
    assert_eq!(row.sender, None);
    assert_eq!(row.fee, None);
    assert_eq!(row.size, None);
    assert_eq!(row.state_checkpoint, None);
    assert_eq!(row.success, false);
}

#[test]
fn fee_or_size_that_does_not_fit_is_refused() {
    let mut expensive = signed(TransactionPayload::ModuleBundle);
    expensive.gas_unit_price = u64::MAX / 2 + 1;
    let result = build_transaction_row(
        &context(),
        1,
        1,
        &Transaction::UserTransaction(expensive.clone()),
        &info(2, true),
        vec![],
        vec![],
    );
    assert_eq!(result, Err(ExportError::Overflow));
    let fits = build_transaction_row(
        &context(),
        1,
        1,
        &Transaction::UserTransaction(expensive),
        &info(1, true),
        vec![],
        vec![],
    )
    .unwrap();
    assert_eq!(fits.fee, Some(u64::MAX / 2 + 1));
    let mut large = signed(TransactionPayload::ModuleBundle);
    large.raw_txn_bytes_len = u32::MAX as usize + 1;
    let result = build_transaction_row(
        &context(),
        1,
        1,
        &Transaction::UserTransaction(large.clone()),
        &info(1, true),
        vec![],
        vec![],
    );
    assert_eq!(result, Err(ExportError::Overflow));
    large.raw_txn_bytes_len = u32::MAX as usize;
    let row = build_transaction_row(
        &context(),
        1,
        1,
        &Transaction::UserTransaction(large),
        &info(1, true),
        vec![],
        vec![],
    )
    .unwrap();
    assert_eq!(row.size, Some(u32::MAX));
}

#[test]
fn transaction_kinds_have_their_codes() {
    assert_eq!(tx_type_code(&Transaction::UserTransaction(signed(TransactionPayload::ModuleBundle))), 1);
    assert_eq!(tx_type_code(&Transaction::GenesisTransaction), 2);
    assert_eq!(tx_type_code(&Transaction::BlockMetadata(header())), 3);
    assert_eq!(tx_type_code(&Transaction::StateCheckpoint(vec![])), 4);
    assert_eq!(call_type_code(CallType::Call), 1);
    assert_eq!(call_type_code(CallType::CallGeneric), 2);
}

#[test]
fn scalar_event_values_give_one_type_and_one_value() {
    let payload = build_event_payload(&AnnotatedMoveValue::U8(200));
    assert_eq!(payload.types, vec![b"u8".to_vec()]);
    assert_eq!(payload.names, Vec::<Vec<u8>>::new());
    assert_eq!(payload.values, vec![vec![200]]);
    let payload = build_event_payload(&AnnotatedMoveValue::U64(0x0102030405060708));
    assert_eq!(payload.types, vec![b"u64".to_vec()]);
    assert_eq!(payload.values, vec![vec![1, 2, 3, 4, 5, 6, 7, 8]]);
    let payload = build_event_payload(&AnnotatedMoveValue::U128(0x0102030405060708090A0B0C0D0E0F10));
    assert_eq!(payload.types, vec![b"u128".to_vec()]);
    assert_eq!(payload.values, vec![vec![1, 2, 3, 4, 5, 6, 7, 8, 9, 10, 11, 12, 13, 14, 15, 16]]);
    let payload = build_event_payload(&AnnotatedMoveValue::Bool(true));
    assert_eq!(payload.types, vec![b"bool".to_vec()]);
    assert_eq!(payload.values, vec![vec![1]]);
    let payload = build_event_payload(&AnnotatedMoveValue::Bool(false));
    assert_eq!(payload.values, vec![vec![0]]);
    let payload = build_event_payload(&AnnotatedMoveValue::Address(vec![0xAB; 32]));
    assert_eq!(payload.types, vec![b"address".to_vec()]);
    assert_eq!(payload.values, vec![vec![0xAB; 32]]);
    let payload = build_event_payload(&AnnotatedMoveValue::Bytes(vec![4, 5]));
    assert_eq!(payload.types, vec![b"vec_u8".to_vec()]);
    assert_eq!(payload.values, vec![vec![4, 5]]);
    assert_eq!(payload.names, Vec::<Vec<u8>>::new());
}

#[test]
fn vector_event_value_gives_its_element_type_and_its_elements() {
    let payload = build_event_payload(&AnnotatedMoveValue::Vector(b"u64".to_vec(), b"[1,2]".to_vec()));
    assert_eq!(payload.types, vec![b"u64".to_vec()]);
    assert_eq!(payload.names, Vec::<Vec<u8>>::new());
    assert_eq!(payload.values, vec![b"[1,2]".to_vec()]);
}

#[test]
fn struct_event_value_gives_one_triple_for_each_field() {
    let payload = build_event_payload(&AnnotatedMoveValue::Struct(vec![
        AnnotatedField { name: b"amount".to_vec(), type_tag: b"\"u64\"".to_vec(), value: b"{\"U64\":5}".to_vec() },
        AnnotatedField { name: b"to".to_vec(), type_tag: b"\"address\"".to_vec(), value: b"{\"Address\":\"01\"}".to_vec() },
    ]));
    assert_eq!(payload.types, vec![b"\"u64\"".to_vec(), b"\"address\"".to_vec()]);
    assert_eq!(payload.names, vec![b"amount".to_vec(), b"to".to_vec()]);
    assert_eq!(payload.values, vec![b"{\"U64\":5}".to_vec(), b"{\"Address\":\"01\"}".to_vec()]);
    let empty = build_event_payload(&AnnotatedMoveValue::Struct(vec![]));
    assert_eq!(empty.types, Vec::<Vec<u8>>::new());
    assert_eq!(empty.names, Vec::<Vec<u8>>::new());
    assert_eq!(empty.values, Vec::<Vec<u8>>::new());
}

#[test]
fn event_row_names_its_module_only_for_a_struct() {
    let event = ContractEvent {
        creation_number: 6,
        type_tag: TypeTag::Struct { module_id: b"0x1::coin".to_vec(), name: b"WithdrawEvent".to_vec() },
        data: AnnotatedMoveValue::U64(3),
    };
    let row = build_event_row(&context(), 40, 77, 91, &vec![0x71; 32], 2, &event);
    assert_eq!(row.id, 40);
    assert_eq!(row.relation_block, 11);
    assert_eq!(row.relation_transaction, 77);
    assert_eq!(row.record_version, 1);
    assert_eq!(row.tx_index, 91);
    assert_eq!(row.block_index, 5);
    assert_eq!(row.time_index, 1_000_000);
    assert_eq!(row.block_tx_index, 90);
    assert_eq!(row.block_hash, vec![0xB1; 32]);
    assert_eq!(row.tx_hash, vec![0x71; 32]);
    assert_eq!(row.index, 2);
    assert_eq!(row.module_address, Some(b"0x1::coin".to_vec()));
    assert_eq!(row.event_name, Some(b"WithdrawEvent".to_vec()));
    assert_eq!(row.payload_arg_types, vec![b"u64".to_vec()]);
    assert_eq!(row.payload_arg_names, Vec::<Vec<u8>>::new());
    assert_eq!(row.payload_arg_values, vec![vec![0, 0, 0, 0, 0, 0, 0, 3]]);
    assert_eq!(row.creation_number, 6);
    let plain = ContractEvent { creation_number: 1, type_tag: TypeTag::Other, data: AnnotatedMoveValue::Bool(true) };
    let row = build_event_row(&context(), 41, 77, 91, &vec![0x71; 32], 3, &plain);
    assert_eq!(row.module_address, None);
    assert_eq!(row.event_name, None);
}

#[test]
fn event_rows_count_identifiers_and_indices_up() {
    let events = vec![
        ContractEvent { creation_number: 1, type_tag: TypeTag::Other, data: AnnotatedMoveValue::U8(1) },
        ContractEvent { creation_number: 2, type_tag: TypeTag::Other, data: AnnotatedMoveValue::U8(2) },
        ContractEvent { creation_number: 3, type_tag: TypeTag::Other, data: AnnotatedMoveValue::U8(3) },
    ];
    let rows = build_event_rows(&context(), 100, 77, 91, &vec![0x71; 32], &events);
    assert_eq!(rows.len(), 3);
    assert_eq!(rows.iter().map(|row| row.id).collect::<Vec<u64>>(), vec![100, 101, 102]);
    assert_eq!(rows.iter().map(|row| row.index).collect::<Vec<u32>>(), vec![0, 1, 2]);
    assert_eq!(rows.iter().map(|row| row.creation_number).collect::<Vec<u64>>(), vec![1, 2, 3]);
    assert!(rows.iter().all(|row| row.relation_transaction == 77));
    assert_eq!(build_id_range(100, 3), vec![100, 101, 102]);
    assert_eq!(build_id_range(5, 0), Vec::<u64>::new());
}

#[test]
fn call_trace_row_passes_the_trace_through() {
    let trace = CallTrace {
        depth: 2,
        call_type: CallType::CallGeneric,
        module_id: Some(b"0x1::coin".to_vec()),
        function: b"withdraw".to_vec(),
        ty_args: vec![vec![7]],
        args_types: vec![b"address".to_vec(), b"u64".to_vec()],
        args_values: vec![vec![1; 32], vec![0, 0, 0, 0, 0, 0, 0, 9]],
        gas_used: 33,
        err: Some(b"\"aborted\"".to_vec()),
    };
    let row = build_call_trace_row(&context(), 8, 77, 91, &vec![0x71; 32], 1, &trace);
    assert_eq!(row.id, 8);
    assert_eq!(row.relation_block, 11);
    assert_eq!(row.relation_transaction, 77);
    assert_eq!(row.record_version, 1);
    assert_eq!(row.tx_index, 91);
    assert_eq!(row.block_index, 5);
    assert_eq!(row.time_index, 1_000_000);
    assert_eq!(row.block_tx_index, 90);
    assert_eq!(row.block_hash, vec![0xB1; 32]);
    assert_eq!(row.tx_hash, vec![0x71; 32]);
    assert_eq!(row.tx_type, 1);
    assert_eq!(row.depth, 2);
    assert_eq!(row.call_type, 2);
    assert_eq!(row.module_address, Some(b"0x1::coin".to_vec()));
    assert_eq!(row.method_name, b"withdraw".to_vec());
    assert_eq!(row.ty_args, vec![vec![7]]);
    assert_eq!(row.arg_types, vec![b"address".to_vec(), b"u64".to_vec()]);
    assert_eq!(row.arg_values, vec![vec![1; 32], vec![0, 0, 0, 0, 0, 0, 0, 9]]);
    assert_eq!(row.gas_used, 33);
    assert_eq!(row.err, Some(b"\"aborted\"".to_vec()));
}

#[test]
fn call_trace_of_a_script_has_no_module_and_success_has_no_error() {
    let trace = CallTrace {
        depth: 0,
        call_type: CallType::Call,
        module_id: None,
        function: b"test".to_vec(),
        ty_args: vec![],
        args_types: vec![],
        args_values: vec![],
        gas_used: 0,
        err: None,
    };
    let rows = build_call_trace_rows(&context(), 50, 77, 91, &vec![0x71; 32], 3, &vec![trace.clone(), trace]);
    assert_eq!(rows.len(), 2);
    assert_eq!(rows[0].id, 50);
    assert_eq!(rows[1].id, 51);
    assert_eq!(rows[0].call_type, 1);
    assert_eq!(rows[0].module_address, None);
    assert_eq!(rows[0].err, None);
    assert_eq!(rows[0].method_name, b"test".to_vec());
    assert_eq!(rows[1].tx_type, 3);
}

#[test]
fn block_row_has_every_field() {
    let previous = BlockMetadata::new(vec![0xB0; 32], 3, 16, vec![0xA1; 32], vec![], vec![], 999_000);
    let totals = BlockTotals {
        transaction_ids: vec![1, 2],
        event_ids: vec![3],
        call_trace_ids: vec![4, 5, 6],
        size: 200,
        transactions_count: 2,
        total_fee: 64,
    };
    let row = build_block_row(11, 5, 90, &header(), &Some(previous), totals.clone());
    assert_eq!(row.id, 11);
    assert_eq!(row.relation_transactions, vec![1, 2]);
    assert_eq!(row.relation_events, vec![3]);
    assert_eq!(row.relation_call_traces, vec![4, 5, 6]);
    assert_eq!(row.record_version, 1);
    assert_eq!(row.block_index, 5);
    assert_eq!(row.time_index, 1_000_000);
    assert_eq!(row.block_tx_index, 90);
    assert_eq!(row.epoch, 3);
    assert_eq!(row.round, 17);
    assert_eq!(row.hash, vec![0xB1; 32]);
    assert_eq!(row.parent_hash, Some(vec![0xB0; 32]));
    assert_eq!(row.proposer, vec![0xA0; 32]);
    assert_eq!(row.previous_block_votes, vec![0xFF, 0x01]);
    assert_eq!(row.time, 1_000_000);
    assert_eq!(row.size, 200);
    assert_eq!(row.transactions_count, 2);
    assert_eq!(row.total_minted, 0);
    assert_eq!(row.total_fee, 64);
    let first = build_block_row(11, 5, 90, &header(), &None, totals);
    assert_eq!(first.parent_hash, None);
}
