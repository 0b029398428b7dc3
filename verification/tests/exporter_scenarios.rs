use queryable::chain::{
    AnnotatedMoveValue, CallTrace, CallType, ContractEvent, EntryFunction, ExecutionStatus,
    SignedTransaction, Transaction, TransactionInfo, TransactionPayload, TypeTag,
};
use queryable::error::ExportError;
use queryable::exporter::QueryableExporter;
use queryable::state::TableIds;
use queryable::types::{BlockMetadata, ChainId, LastExportData};

const T: u64 = 1_666_000_000_000_000;

fn block(seed: u8, time: u64) -> BlockMetadata {
    BlockMetadata::new(vec![seed; 32], 7, seed as u64, vec![0xAA; 32], vec![1, 0, 1], vec![], time)
}

fn first_ids() -> TableIds {
    TableIds { blocks: 1, transactions: 1, events: 1, call_traces: 1 }
}

fn info(seed: u8, gas_used: u64) -> TransactionInfo {
    TransactionInfo {
        transaction_hash: vec![seed; 32],
        state_change_hash: vec![seed.wrapping_add(1); 32],
        event_root_hash: vec![seed.wrapping_add(2); 32],
        gas_used,
        status: ExecutionStatus { success: true, detail: b"\"Success\"".to_vec() },
    }
}

fn user(gas_unit_price: u64, raw_txn_bytes_len: usize) -> Transaction {
    Transaction::UserTransaction(SignedTransaction {
        sender: vec![0x11; 32],
        sequence_number: 3,
        payload: TransactionPayload::EntryFunction(EntryFunction {
            module_address: vec![0x01; 32],
            function: b"transfer".to_vec(),
            ty_args: vec![b"0x1::aptos_coin::AptosCoin".to_vec()],
            args: vec![vec![9, 9], vec![1, 0, 0, 0, 0, 0, 0, 0]],
        }),
        max_gas_amount: 2000,
        gas_unit_price,
        expiration_timestamp_secs: 1_700_000_000,
        authenticator: b"{\"Ed25519\":{}}".to_vec(),
        raw_txn_bytes_len,
    })
}

fn event(creation_number: u64, value: u64) -> ContractEvent {
    ContractEvent {
        creation_number,
        type_tag: TypeTag::Struct { module_id: b"0x1::coin".to_vec(), name: b"DepositEvent".to_vec() },
        data: AnnotatedMoveValue::U64(value),
    }
}

fn trace(depth: u32) -> CallTrace {
    CallTrace {
        depth,
        call_type: CallType::Call,
        module_id: Some(b"0x1::coin".to_vec()),
        function: b"deposit".to_vec(),
        ty_args: vec![],
        args_types: vec![b"u64".to_vec()],
        args_values: vec![vec![0, 0, 0, 0, 0, 0, 0, 5]],
        gas_used: 4,
        err: None,
    }
}

fn fresh() -> QueryableExporter {
    QueryableExporter::new(Some(ChainId::new(9)), None, first_ids(), 10)
}

/// Feeds one block with a block metadata transaction and two user
/// transactions, the first with two events and one call trace.
fn feed_block(exporter: &mut QueryableExporter, seed: u8, first_version: u64) {
    let header = block(seed, T + seed as u64);
    exporter.add_current_block(header.clone(), first_version).unwrap();
    exporter
        .add_transaction(first_version, &Transaction::BlockMetadata(header), &info(seed, 0), &vec![], &vec![])
        .unwrap();
    exporter
        .add_transaction(
            first_version + 1,
            &user(5, 120),
            &info(seed.wrapping_add(10), 10),
            &vec![event(1, 40), event(2, 41)],
            &vec![trace(0)],
        )
        .unwrap();
    exporter
        .add_transaction(
            first_version + 2,
            &user(2, 80),
            &info(seed.wrapping_add(20), 7),
            &vec![event(3, 42)],
            &vec![trace(0), trace(1)],
        )
        .unwrap();
    exporter.complete_block().unwrap();
}

#[test]
fn one_user_transaction_is_exported_with_its_fee_and_size() {
    let mut exporter = QueryableExporter::new(None, None, first_ids(), 10);
    exporter.add_current_block(block(1, T), 0).unwrap();
    assert_eq!(exporter.add_transaction(0, &user(5, 120), &info(1, 10), &vec![], &vec![]), Ok(()));
    {
        let staged = exporter.staged_rows();
        assert_eq!(staged.transactions.len(), 1);
        assert_eq!(staged.transactions[0].fee, Some(50));
        assert_eq!(staged.transactions[0].size, Some(120));
        assert_eq!(staged.transactions[0].tx_index, 0);
        assert_eq!(staged.transactions[0].block_index, 1);
        assert_eq!(staged.transactions[0].time, T);
        assert_eq!(staged.transactions[0].chain_id, 0);
    }
    assert_eq!(exporter.complete_block(), Ok(()));
    {
        let staged = exporter.staged_rows();
        assert_eq!(staged.blocks.len(), 1);
        assert_eq!(staged.blocks[0].total_fee, 50);
        assert_eq!(staged.blocks[0].size, 120);
        assert_eq!(staged.blocks[0].transactions_count, 1);
        assert_eq!(staged.blocks[0].block_index, 1);
        assert_eq!(staged.blocks[0].time, T);
        assert_eq!(staged.blocks[0].parent_hash, None);
        assert_eq!(staged.blocks[0].total_minted, 0);
    }
    let request = exporter.prepare_export().unwrap();
    assert_eq!(request.checkpoint.last_known_block_index, 1);
    assert_eq!(request.checkpoint.last_known_tx_version, 0);
    assert_eq!(request.checkpoint.last_block_tx_version, 0);
    assert_eq!(request.checkpoint.last_block_metadata, block(1, T));
    assert_eq!(request.network_id, ChainId::test());
    assert_eq!(request.network_id.id(), 4);
    assert_eq!(exporter.export(true), Ok(()));
    assert_eq!(exporter.staged_rows().transactions.len(), 0);
    assert_eq!(exporter.staged_rows().blocks.len(), 0);
    assert_eq!(exporter.get_cached_blocks_count(), 0);
    assert_eq!(exporter.last_tx_version(), 0);
}

#[test]
fn failed_export_and_rollback_return_to_the_block_before() {
    let mut exporter = QueryableExporter::new(None, None, first_ids(), 10);
    let before = exporter.get_current_block();
    assert_eq!(before, BlockMetadata::zero());
    exporter.add_current_block(block(1, T), 0).unwrap();
    exporter.add_transaction(0, &user(5, 120), &info(1, 10), &vec![], &vec![]).unwrap();
    exporter.complete_block().unwrap();
    assert_eq!(exporter.get_current_block(), block(1, T));
    assert_eq!(exporter.export(false), Err(ExportError::WriterFailed));
    // A failed export leaves everything staged.
    assert_eq!(exporter.staged_rows().blocks.len(), 1);
    assert_eq!(exporter.staged_rows().transactions.len(), 1);
    assert_eq!(exporter.reset_cached_data(), Ok(()));
    assert_eq!(exporter.get_current_block(), before);
    assert_eq!(exporter.last_tx_version(), 0);
    assert_eq!(exporter.get_cached_blocks_count(), 0);
    assert_eq!(exporter.staged_rows().blocks.len(), 0);
    assert_eq!(exporter.staged_rows().transactions.len(), 0);
    assert_eq!(exporter.complete_block(), Ok(()));
    assert_eq!(exporter.staged_rows().blocks.len(), 0);
}

#[test]
fn rollback_in_the_middle_of_a_block_discards_it() {
    let mut exporter = fresh();
    feed_block(&mut exporter, 1, 0);
    exporter.export(true).unwrap();
    exporter.add_current_block(block(2, T + 2), 3).unwrap();
    exporter.add_transaction(3, &user(1, 10), &info(2, 1), &vec![event(1, 1)], &vec![]).unwrap();
    exporter.reset_cached_data().unwrap();
    assert_eq!(exporter.get_current_block(), block(1, T + 1));
    assert_eq!(exporter.last_tx_version(), 2);
    assert_eq!(exporter.staged_rows().transactions.len(), 0);
    assert_eq!(exporter.staged_rows().events.len(), 0);
    assert_eq!(exporter.add_transaction(3, &user(1, 10), &info(2, 1), &vec![], &vec![]), Err(ExportError::NoOpenBlock));
    let request = exporter.prepare_export().unwrap();
    assert_eq!(request.checkpoint.last_known_block_index, 1);
    assert_eq!(request.checkpoint.last_known_tx_version, 2);
}

#[test]
fn completing_a_block_twice_stages_one_row() {
    let mut exporter = fresh();
    exporter.add_current_block(block(1, T), 0).unwrap();
    exporter
        .add_transaction(0, &user(5, 120), &info(1, 10), &vec![event(1, 1), event(2, 2)], &vec![trace(0)])
        .unwrap();
    assert_eq!(exporter.complete_block(), Ok(()));
    let first = exporter.staged_rows().clone();
    assert_eq!(first.blocks.len(), 1);
    assert_eq!(first.blocks[0].relation_transactions, vec![1]);
    assert_eq!(first.blocks[0].relation_events, vec![1, 2]);
    assert_eq!(first.blocks[0].relation_call_traces, vec![1]);
    assert_eq!(exporter.complete_block(), Ok(()));
    assert_eq!(exporter.staged_rows(), &first);
}

#[test]
fn identifiers_rise_without_gaps_across_exports() {
    let mut exporter = QueryableExporter::new(
        None,
        None,
        TableIds { blocks: 10, transactions: 100, events: 1000, call_traces: 10000 },
        10,
    );
    feed_block(&mut exporter, 1, 0);
    feed_block(&mut exporter, 2, 3);
    {
        let staged = exporter.staged_rows();
        let blocks: Vec<u64> = staged.blocks.iter().map(|row| row.id).collect();
        let transactions: Vec<u64> = staged.transactions.iter().map(|row| row.id).collect();
        let events: Vec<u64> = staged.events.iter().map(|row| row.id).collect();
        let call_traces: Vec<u64> = staged.call_traces.iter().map(|row| row.id).collect();
        assert_eq!(blocks, vec![10, 11]);
        assert_eq!(transactions, vec![100, 101, 102, 103, 104, 105]);
        assert_eq!(events, vec![1000, 1001, 1002, 1003, 1004, 1005]);
        assert_eq!(call_traces, vec![10000, 10001, 10002, 10003, 10004, 10005]);
    }
    exporter.export(true).unwrap();
    feed_block(&mut exporter, 3, 6);
    let staged = exporter.staged_rows();
    assert_eq!(staged.blocks[0].id, 12);
    assert_eq!(staged.transactions[0].id, 106);
    assert_eq!(staged.events[0].id, 1006);
    assert_eq!(staged.call_traces[0].id, 10006);
}

#[test]
fn identifiers_given_out_before_a_rollback_are_given_out_again() {
    let mut exporter = fresh();
    feed_block(&mut exporter, 1, 0);
    exporter.export(true).unwrap();
    feed_block(&mut exporter, 2, 3);
    assert_eq!(exporter.staged_rows().transactions[0].id, 4);
    exporter.reset_cached_data().unwrap();
    feed_block(&mut exporter, 2, 3);
    assert_eq!(exporter.staged_rows().blocks[0].id, 2);
    assert_eq!(exporter.staged_rows().transactions[0].id, 4);
    assert_eq!(exporter.staged_rows().events[0].id, 4);
    assert_eq!(exporter.staged_rows().call_traces[0].id, 4);
}

#[test]
fn relation_lists_and_back_references_agree() {
    let mut exporter = fresh();
    feed_block(&mut exporter, 1, 0);
    feed_block(&mut exporter, 2, 3);
    let staged = exporter.staged_rows();
    for transaction in staged.transactions.iter() {
        let events: Vec<u64> = staged
            .events
            .iter()
            .filter(|row| row.relation_transaction == transaction.id)
            .map(|row| row.id)
            .collect();
        let call_traces: Vec<u64> = staged
            .call_traces
            .iter()
            .filter(|row| row.relation_transaction == transaction.id)
            .map(|row| row.id)
            .collect();
        assert_eq!(transaction.relation_events, events);
        assert_eq!(transaction.relation_call_traces, call_traces);
    }
    for block in staged.blocks.iter() {
        let transactions: Vec<u64> = staged
            .transactions
            .iter()
            .filter(|row| row.relation_block == block.id)
            .map(|row| row.id)
            .collect();
        let events: Vec<u64> =
            staged.events.iter().filter(|row| row.relation_block == block.id).map(|row| row.id).collect();
        let call_traces: Vec<u64> = staged
            .call_traces
            .iter()
            .filter(|row| row.relation_block == block.id)
            .map(|row| row.id)
            .collect();
        assert_eq!(block.relation_transactions, transactions);
        assert_eq!(block.relation_events, events);
        assert_eq!(block.relation_call_traces, call_traces);
    }
    assert_eq!(staged.transactions[1].relation_events, vec![1, 2]);
    assert_eq!(staged.transactions[2].relation_call_traces, vec![2, 3]);
    assert_eq!(staged.blocks[1].relation_transactions, vec![4, 5, 6]);
    assert_eq!(staged.events[0].index, 0);
    assert_eq!(staged.events[1].index, 1);
    assert_eq!(staged.events[2].index, 0);
}

#[test]
fn replay_after_rollback_stages_the_same_rows() {
    let mut first = fresh();
    feed_block(&mut first, 1, 0);
    first.export(true).unwrap();
    let mut second = fresh();
    feed_block(&mut second, 1, 0);
    second.export(true).unwrap();

    // The first exporter succeeds at once.
    feed_block(&mut first, 2, 3);
    feed_block(&mut first, 3, 6);
    let expected_rows = first.staged_rows().clone();
    let expected_request = first.prepare_export().unwrap();

    // The second fails, rolls back and replays.
    feed_block(&mut second, 2, 3);
    feed_block(&mut second, 3, 6);
    assert_eq!(second.export(false), Err(ExportError::WriterFailed));
    second.reset_cached_data().unwrap();
    assert_eq!(second.last_tx_version(), 2);
    feed_block(&mut second, 2, 3);
    feed_block(&mut second, 3, 6);
    assert_eq!(second.staged_rows(), &expected_rows);
    assert_eq!(second.prepare_export().unwrap(), expected_request);
    assert_eq!(second.export(true), Ok(()));
}

#[test]
fn block_totals_are_the_sums_over_its_user_transactions() {
    let mut exporter = fresh();
    feed_block(&mut exporter, 1, 0);
    let staged = exporter.staged_rows();
    assert_eq!(staged.blocks[0].total_fee, 5 * 10 + 2 * 7);
    assert_eq!(staged.blocks[0].size, 120 + 80);
    assert_eq!(staged.blocks[0].transactions_count, 3);
    assert_eq!(staged.transactions[0].fee, None);
    assert_eq!(staged.transactions[1].fee, Some(50));
    assert_eq!(staged.transactions[2].fee, Some(14));
}

#[test]
fn block_without_user_transactions_has_no_fee_and_no_size() {
    let mut exporter = fresh();
    exporter.add_current_block(block(1, T), 0).unwrap();
    exporter.add_transaction(0, &Transaction::GenesisTransaction, &info(1, 3), &vec![], &vec![]).unwrap();
    exporter
        .add_transaction(1, &Transaction::StateCheckpoint(vec![5; 32]), &info(2, 0), &vec![], &vec![])
        .unwrap();
    exporter.complete_block().unwrap();
    let staged = exporter.staged_rows();
    assert_eq!(staged.blocks[0].total_fee, 0);
    assert_eq!(staged.blocks[0].size, 0);
    assert_eq!(staged.blocks[0].transactions_count, 2);
}

#[test]
fn empty_block_has_empty_relation_lists() {
    let mut exporter = fresh();
    exporter.add_current_block(block(1, T), 0).unwrap();
    exporter.complete_block().unwrap();
    let staged = exporter.staged_rows();
    assert_eq!(staged.blocks[0].relation_transactions, Vec::<u64>::new());
    assert_eq!(staged.blocks[0].relation_events, Vec::<u64>::new());
    assert_eq!(staged.blocks[0].relation_call_traces, Vec::<u64>::new());
    assert_eq!(staged.blocks[0].transactions_count, 0);
}

#[test]
fn second_block_has_the_first_as_parent() {
    let mut exporter = fresh();
    feed_block(&mut exporter, 1, 0);
    feed_block(&mut exporter, 2, 3);
    let staged = exporter.staged_rows();
    assert_eq!(staged.blocks[0].parent_hash, None);
    assert_eq!(staged.blocks[1].parent_hash, Some(vec![1; 32]));
    assert_eq!(staged.blocks[1].hash, vec![2; 32]);
    assert_eq!(staged.blocks[1].block_index, 2);
    assert_eq!(staged.blocks[1].block_tx_index, 3);
    assert_eq!(staged.blocks[1].epoch, 7);
    assert_eq!(staged.blocks[1].round, 2);
    assert_eq!(staged.blocks[1].proposer, vec![0xAA; 32]);
    assert_eq!(staged.blocks[1].previous_block_votes, vec![1, 0, 1]);
    assert_eq!(staged.blocks[1].record_version, 1);
}

#[test]
fn exporter_resumes_from_a_checkpoint() {
    let checkpoint = LastExportData {
        last_known_tx_version: 41,
        last_block_metadata: block(8, T),
        last_block_tx_version: 40,
        last_known_block_index: 8,
    };
    let mut exporter = QueryableExporter::new(
        Some(ChainId::new(2)),
        Some(checkpoint.clone()),
        TableIds { blocks: 9, transactions: 42, events: 5, call_traces: 6 },
        25,
    );
    assert_eq!(exporter.get_current_block(), block(8, T));
    assert_eq!(exporter.last_tx_version(), 41);
    assert_eq!(exporter.get_blocks_per_export(), 25);
    assert_eq!(exporter.get_cached_blocks_count(), 0);
    assert_eq!(exporter.prepare_export().unwrap().checkpoint, checkpoint);
    assert_eq!(exporter.prepare_export().unwrap().network_id, ChainId::new(2));
    // No block is open after construction.
    assert_eq!(exporter.complete_block(), Err(ExportError::NoOpenBlock));
    exporter.set_block_already_exported();
    assert_eq!(exporter.complete_block(), Ok(()));
    assert_eq!(exporter.staged_rows().blocks.len(), 0);
    exporter.add_current_block(block(9, T + 1), 42).unwrap();
    assert_eq!(exporter.get_cached_blocks_count(), 1);
    exporter.add_transaction(42, &user(1, 1), &info(1, 1), &vec![], &vec![]).unwrap();
    exporter.complete_block().unwrap();
    let staged = exporter.staged_rows();
    assert_eq!(staged.blocks[0].id, 9);
    assert_eq!(staged.blocks[0].block_index, 9);
    assert_eq!(staged.blocks[0].parent_hash, Some(vec![8; 32]));
    assert_eq!(staged.transactions[0].id, 42);
    assert_eq!(staged.transactions[0].relation_block, 9);
    assert_eq!(staged.transactions[0].chain_id, 2);
}

#[test]
fn versions_must_increase() {
    let mut exporter = fresh();
    exporter.add_current_block(block(1, T), 5).unwrap();
    assert_eq!(exporter.add_transaction(5, &user(1, 1), &info(1, 1), &vec![], &vec![]), Ok(()));
    let staged = exporter.staged_rows().clone();
    assert_eq!(
        exporter.add_transaction(5, &user(1, 1), &info(2, 1), &vec![], &vec![]),
        Err(ExportError::VersionNotIncreasing)
    );
    assert_eq!(
        exporter.add_transaction(4, &user(1, 1), &info(2, 1), &vec![], &vec![]),
        Err(ExportError::VersionNotIncreasing)
    );
    assert_eq!(exporter.staged_rows(), &staged);
    assert_eq!(exporter.last_tx_version(), 5);
    assert_eq!(exporter.add_transaction(9, &user(1, 1), &info(2, 1), &vec![], &vec![]), Ok(()));
    assert_eq!(exporter.last_tx_version(), 9);
}

#[test]
fn version_zero_is_accepted_only_at_the_start_of_the_stream() {
    let mut exporter = fresh();
    exporter.add_current_block(block(1, T), 0).unwrap();
    assert_eq!(exporter.add_transaction(0, &Transaction::GenesisTransaction, &info(1, 0), &vec![], &vec![]), Ok(()));
    assert_eq!(
        exporter.add_transaction(0, &Transaction::GenesisTransaction, &info(1, 0), &vec![], &vec![]),
        Err(ExportError::VersionNotIncreasing)
    );
    exporter.complete_block().unwrap();
    exporter.add_current_block(block(2, T), 1).unwrap();
    assert_eq!(
        exporter.add_transaction(0, &Transaction::GenesisTransaction, &info(1, 0), &vec![], &vec![]),
        Err(ExportError::VersionNotIncreasing)
    );
}

#[test]
fn operations_are_refused_in_the_wrong_state() {
    let mut exporter = fresh();
    assert_eq!(
        exporter.add_transaction(0, &user(1, 1), &info(1, 1), &vec![], &vec![]),
        Err(ExportError::NoOpenBlock)
    );
    assert_eq!(exporter.complete_block(), Err(ExportError::NoOpenBlock));
    exporter.add_current_block(block(1, T), 0).unwrap();
    assert_eq!(exporter.add_current_block(block(2, T), 1), Err(ExportError::BlockStillOpen));
    assert_eq!(exporter.prepare_export().err(), Some(ExportError::BlockStillOpen));
    assert_eq!(exporter.export(true), Err(ExportError::BlockStillOpen));
    assert_eq!(exporter.get_current_block(), block(1, T));
    exporter.complete_block().unwrap();
    assert_eq!(
        exporter.add_transaction(0, &user(1, 1), &info(1, 1), &vec![], &vec![]),
        Err(ExportError::NoOpenBlock)
    );
    assert_eq!(exporter.add_current_block(block(2, T), 1), Ok(()));
}

#[test]
fn overflow_is_refused_and_changes_nothing() {
    let mut exporter = fresh();
    exporter.add_current_block(block(1, T), 0).unwrap();
    exporter.add_transaction(0, &user(u64::MAX, 10), &info(1, 1), &vec![], &vec![]).unwrap();
    let staged = exporter.staged_rows().clone();
    // The fee itself does not fit.
    assert_eq!(
        exporter.add_transaction(1, &user(u64::MAX, 10), &info(1, 2), &vec![], &vec![]),
        Err(ExportError::Overflow)
    );
    // The fee fits, the block's total does not.
    assert_eq!(
        exporter.add_transaction(1, &user(1, 10), &info(1, 1), &vec![], &vec![]),
        Err(ExportError::Overflow)
    );
    // The size does not fit.
    assert_eq!(
        exporter.add_transaction(1, &user(0, u32::MAX as usize), &info(1, 1), &vec![], &vec![]),
        Err(ExportError::Overflow)
    );
    assert_eq!(exporter.staged_rows(), &staged);
    assert_eq!(exporter.last_tx_version(), 0);
    assert_eq!(exporter.add_transaction(1, &user(0, 10), &info(1, 1), &vec![], &vec![]), Ok(()));

    let mut full = QueryableExporter::new(
        None,
        None,
        TableIds { blocks: u64::MAX, transactions: 1, events: 1, call_traces: 1 },
        1,
    );
    assert_eq!(full.add_current_block(block(1, T), 0), Err(ExportError::Overflow));
    let mut nearly = QueryableExporter::new(
        None,
        None,
        TableIds { blocks: 1, transactions: 1, events: u64::MAX - 1, call_traces: 1 },
        1,
    );
    nearly.add_current_block(block(1, T), 0).unwrap();
    assert_eq!(
        nearly.add_transaction(0, &user(0, 1), &info(1, 1), &vec![event(1, 1), event(2, 2)], &vec![]),
        Err(ExportError::Overflow)
    );
    assert_eq!(nearly.add_transaction(0, &user(0, 1), &info(1, 1), &vec![event(1, 1)], &vec![]), Ok(()));
}

#[test]
fn marking_an_open_block_as_exported_stages_no_row_for_it() {
    let mut exporter = fresh();
    exporter.add_current_block(block(1, T), 0).unwrap();
    exporter.add_transaction(0, &user(1, 1), &info(1, 1), &vec![], &vec![]).unwrap();
    exporter.set_block_already_exported();
    assert_eq!(exporter.complete_block(), Ok(()));
    assert_eq!(exporter.staged_rows().blocks.len(), 0);
    assert_eq!(exporter.staged_rows().transactions.len(), 1);
    exporter.add_current_block(block(2, T), 1).unwrap();
    exporter.complete_block().unwrap();
    assert_eq!(exporter.staged_rows().blocks[0].id, 2);
}

#[test]
fn chain_id_is_written_once_known() {
    let mut exporter = QueryableExporter::new(None, None, first_ids(), 10);
    exporter.add_current_block(block(1, T), 0).unwrap();
    exporter.add_transaction(0, &user(1, 1), &info(1, 1), &vec![], &vec![]).unwrap();
    exporter.set_chain_id(ChainId::new(33));
    exporter.add_transaction(1, &user(1, 1), &info(1, 1), &vec![], &vec![]).unwrap();
    exporter.complete_block().unwrap();
    assert_eq!(exporter.staged_rows().transactions[0].chain_id, 0);
    assert_eq!(exporter.staged_rows().transactions[1].chain_id, 33);
    assert_eq!(exporter.prepare_export().unwrap().network_id, ChainId::new(33));
}

#[test]
fn child_rows_repeat_their_transaction_and_their_block() {
    let mut exporter = fresh();
    feed_block(&mut exporter, 1, 0);
    feed_block(&mut exporter, 2, 3);
    let staged = exporter.staged_rows();
    for event in staged.events.iter() {
        let owner = staged.transactions.iter().find(|row| row.id == event.relation_transaction).unwrap();
        assert_eq!(event.relation_block, owner.relation_block);
        assert_eq!(event.tx_index, owner.tx_index);
        assert_eq!(event.tx_hash, owner.tx_hash);
        assert_eq!(event.block_index, owner.block_index);
        assert_eq!(event.block_tx_index, owner.block_tx_index);
        assert_eq!(event.block_hash, owner.block_hash);
        assert_eq!(event.time_index, owner.time_index);
    }
    for call_trace in staged.call_traces.iter() {
        let owner =
            staged.transactions.iter().find(|row| row.id == call_trace.relation_transaction).unwrap();
        assert_eq!(call_trace.relation_block, owner.relation_block);
        assert_eq!(call_trace.tx_index, owner.tx_index);
        assert_eq!(call_trace.tx_hash, owner.tx_hash);
        assert_eq!(call_trace.tx_type, owner.tx_type);
        assert_eq!(call_trace.block_index, owner.block_index);
        assert_eq!(call_trace.block_hash, owner.block_hash);
    }
    for transaction in staged.transactions.iter() {
        let owner = staged.blocks.iter().find(|row| row.id == transaction.relation_block).unwrap();
        assert_eq!(transaction.block_index, owner.block_index);
        assert_eq!(transaction.block_tx_index, owner.block_tx_index);
        assert_eq!(transaction.block_hash, owner.hash);
        assert_eq!(transaction.time_index, owner.time_index);
        assert_eq!(transaction.time, owner.time);
        assert_eq!(transaction.epoch, owner.epoch);
    }
    assert_eq!(staged.events[3].tx_index, 4);
    assert_eq!(staged.events[3].block_index, 2);
    assert_eq!(staged.events[3].block_hash, vec![2; 32]);
    assert_eq!(staged.call_traces[0].tx_type, 1);
}

#[test]
fn versions_and_block_indices_rise() {
    let mut exporter = fresh();
    feed_block(&mut exporter, 1, 0);
    exporter.export(true).unwrap();
    feed_block(&mut exporter, 2, 3);
    feed_block(&mut exporter, 3, 10);
    let staged = exporter.staged_rows();
    let versions: Vec<u64> = staged.transactions.iter().map(|row| row.tx_index).collect();
    assert_eq!(versions, vec![3, 4, 5, 10, 11, 12]);
    let indices: Vec<u64> = staged.blocks.iter().map(|row| row.block_index).collect();
    assert_eq!(indices, vec![2, 3]);
    let ids: Vec<u64> = staged.blocks.iter().map(|row| row.id).collect();
    assert_eq!(ids, vec![2, 3]);
    assert_eq!(exporter.last_tx_version(), 12);
}
