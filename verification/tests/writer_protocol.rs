use queryable::chain::{
    AnnotatedMoveValue, CallTrace, CallType, ContractEvent, ExecutionStatus, SignedTransaction,
    Transaction, TransactionInfo, TransactionPayload, TypeTag,
};
use queryable::error::ExportError;
use queryable::exporter::QueryableExporter;
use queryable::ledger::{LedgerError, RowCounts, Table, WriterLedger};
use queryable::state::TableIds;
use queryable::types::{BlockMetadata, LastExportData};

fn place(table: Table) -> usize {
    match table {
        Table::Blocks => 0,
        Table::Transactions => 1,
        Table::Events => 2,
        Table::CallTraces => 3,
    }
}

/// A writer that gives out identifiers table by table, collects rows, and
/// makes them durable, or forgets them, at an export.
struct Writer {
    next: [u64; 4],
    durable_next: [u64; 4],
    pending: Vec<(usize, u64)>,
    durable: Vec<(usize, u64)>,
    checkpoint: Option<LastExportData>,
    fail: bool,
}

impl Writer {
    fn new(first: u64) -> Writer {
        Writer {
            next: [first; 4],
            durable_next: [first; 4],
            pending: vec![],
            durable: vec![],
            checkpoint: None,
            fail: false,
        }
    }

    fn get_next_id(&mut self, table: Table) -> u64 {
        let id = self.next[place(table)];
        self.next[place(table)] += 1;
        id
    }

    fn first_ids(&mut self) -> TableIds {
        TableIds {
            blocks: self.get_next_id(Table::Blocks),
            transactions: self.get_next_id(Table::Transactions),
            events: self.get_next_id(Table::Events),
            call_traces: self.get_next_id(Table::CallTraces),
        }
    }

    fn export(&mut self, checkpoint: LastExportData) -> bool {
        if self.fail {
            return false;
        }
        self.durable.append(&mut self.pending);
        self.durable_next = self.next;
        self.checkpoint = Some(checkpoint);
        true
    }

    fn clean(&mut self) {
        self.pending.clear();
        self.next = self.durable_next;
    }
}

/// Drives an exporter and a writer as a node would.
struct Shell {
    exporter: QueryableExporter,
    writer: Writer,
    ledger: WriterLedger,
}

impl Shell {
    fn new(mut writer: Writer) -> Shell {
        let first = writer.first_ids();
        let checkpoint = writer.checkpoint.clone();
        Shell {
            exporter: QueryableExporter::new(None, checkpoint, first, 4),
            writer,
            ledger: WriterLedger::new(first).unwrap(),
        }
    }

    fn write(&mut self, table: Table, id: u64) {
        while self.ledger.needs_id(table, id) {
            let drawn = self.writer.get_next_id(table);
            self.ledger.accept_id(table, drawn).unwrap();
        }
        self.writer.pending.push((place(table), id));
    }

    fn write_staged(&mut self) {
        let written = self.ledger.written;
        let staged = self.exporter.staged_rows().clone();
        for row in staged.transactions[written.transactions..].iter() {
            self.write(Table::Transactions, row.id);
        }
        for row in staged.events[written.events..].iter() {
            self.write(Table::Events, row.id);
        }
        for row in staged.call_traces[written.call_traces..].iter() {
            self.write(Table::CallTraces, row.id);
        }
        for row in staged.blocks[written.blocks..].iter() {
            self.write(Table::Blocks, row.id);
        }
        self.ledger.all_written(&staged);
    }

    fn feed_block(&mut self, seed: u8, version: u64) {
        let header = BlockMetadata::new(vec![seed; 32], 1, seed as u64, vec![7; 32], vec![], vec![], seed as u64);
        self.exporter.add_current_block(header, version).unwrap();
        let transaction = Transaction::UserTransaction(SignedTransaction {
            sender: vec![1; 32],
            sequence_number: 0,
            payload: TransactionPayload::ModuleBundle,
            max_gas_amount: 10,
            gas_unit_price: 1,
            expiration_timestamp_secs: 0,
            authenticator: vec![],
            raw_txn_bytes_len: 10,
        });
        let info = TransactionInfo {
            transaction_hash: vec![seed; 32],
            state_change_hash: vec![],
            event_root_hash: vec![],
            gas_used: 1,
            status: ExecutionStatus { success: true, detail: vec![] },
        };
        let events = vec![
            ContractEvent { creation_number: 1, type_tag: TypeTag::Other, data: AnnotatedMoveValue::U8(1) },
            ContractEvent { creation_number: 2, type_tag: TypeTag::Other, data: AnnotatedMoveValue::U8(2) },
        ];
        let call_traces = vec![CallTrace {
            depth: 0,
            call_type: CallType::Call,
            module_id: None,
            function: b"main".to_vec(),
            ty_args: vec![],
            args_types: vec![],
            args_values: vec![],
            gas_used: 1,
            err: None,
        }];
        self.exporter.add_transaction(version, &transaction, &info, &events, &call_traces).unwrap();
        self.write_staged();
        self.exporter.complete_block().unwrap();
        self.write_staged();
    }

    fn export(&mut self) -> Result<(), ExportError> {
        let request = self.exporter.prepare_export()?;
        self.write_staged();
        let written = self.writer.export(request.checkpoint);
        self.exporter.export(written)?;
        self.ledger.exported();
        Ok(())
    }

    fn reset(&mut self) {
        self.exporter.reset_cached_data().unwrap();
        self.writer.clean();
        let drawn = self.writer.first_ids();
        self.ledger.rolled_back(self.exporter.next_ids(), drawn).unwrap();
    }
}

fn ids(rows: &[(usize, u64)], table: usize) -> Vec<u64> {
    rows.iter().filter(|row| row.0 == table).map(|row| row.1).collect()
}

#[test]
fn rows_carry_the_identifiers_that_the_writer_gives_out() {
    let mut shell = Shell::new(Writer::new(1));
    shell.feed_block(1, 0);
    shell.feed_block(2, 1);
    assert_eq!(shell.export(), Ok(()));
    shell.feed_block(3, 2);
    assert_eq!(shell.export(), Ok(()));
    assert_eq!(ids(&shell.writer.durable, 0), vec![1, 2, 3]);
    assert_eq!(ids(&shell.writer.durable, 1), vec![1, 2, 3]);
    assert_eq!(ids(&shell.writer.durable, 2), vec![1, 2, 3, 4, 5, 6]);
    assert_eq!(ids(&shell.writer.durable, 3), vec![1, 2, 3]);
    let checkpoint = shell.writer.checkpoint.clone().unwrap();
    assert_eq!(checkpoint.last_known_block_index, 3);
    assert_eq!(checkpoint.last_known_tx_version, 2);
    assert_eq!(checkpoint.last_block_tx_version, 2);
}

#[test]
fn failed_export_leaves_no_gap_and_no_duplicate() {
    let mut shell = Shell::new(Writer::new(100));
    shell.feed_block(1, 0);
    assert_eq!(shell.export(), Ok(()));
    shell.feed_block(2, 1);
    shell.feed_block(3, 2);
    shell.writer.fail = true;
    assert_eq!(shell.export(), Err(ExportError::WriterFailed));
    shell.reset();
    assert_eq!(shell.exporter.last_tx_version(), 0);
    shell.writer.fail = false;
    shell.feed_block(2, 1);
    shell.feed_block(3, 2);
    assert_eq!(shell.export(), Ok(()));
    assert_eq!(ids(&shell.writer.durable, 0), vec![100, 101, 102]);
    assert_eq!(ids(&shell.writer.durable, 1), vec![100, 101, 102]);
    assert_eq!(ids(&shell.writer.durable, 2), vec![100, 101, 102, 103, 104, 105]);
    assert_eq!(ids(&shell.writer.durable, 3), vec![100, 101, 102]);
    assert_eq!(shell.writer.checkpoint.clone().unwrap().last_known_block_index, 3);
}

#[test]
fn rollback_before_any_export_starts_again_from_the_first_identifiers() {
    let mut shell = Shell::new(Writer::new(5));
    shell.feed_block(1, 0);
    shell.reset();
    shell.feed_block(1, 0);
    shell.feed_block(2, 1);
    shell.writer.fail = true;
    assert_eq!(shell.export(), Err(ExportError::WriterFailed));
    shell.reset();
    shell.writer.fail = false;
    shell.feed_block(1, 0);
    assert_eq!(shell.export(), Ok(()));
    assert_eq!(ids(&shell.writer.durable, 0), vec![5]);
    assert_eq!(ids(&shell.writer.durable, 1), vec![5]);
    assert_eq!(ids(&shell.writer.durable, 2), vec![5, 6]);
    assert_eq!(ids(&shell.writer.durable, 3), vec![5]);
}

#[test]
fn new_exporter_resumes_where_the_writer_stopped() {
    let mut shell = Shell::new(Writer::new(1));
    shell.feed_block(1, 0);
    shell.feed_block(2, 1);
    assert_eq!(shell.export(), Ok(()));
    shell.feed_block(3, 2);
    // The node stops before the third block is exported.
    let mut writer = shell.writer;
    writer.clean();
    let mut resumed = Shell::new(writer);
    assert_eq!(resumed.exporter.last_tx_version(), 1);
    assert_eq!(resumed.exporter.get_current_block().id, vec![2; 32]);
    resumed.feed_block(3, 2);
    assert_eq!(resumed.export(), Ok(()));
    assert_eq!(ids(&resumed.writer.durable, 0), vec![1, 2, 3]);
    assert_eq!(ids(&resumed.writer.durable, 2), vec![1, 2, 3, 4, 5, 6]);
    assert_eq!(resumed.writer.checkpoint.clone().unwrap().last_known_block_index, 3);
}

#[test]
fn ledger_holds_the_writer_to_the_identifiers_of_the_rows() {
    let first = TableIds { blocks: 1, transactions: 10, events: 100, call_traces: 1000 };
    let mut ledger = WriterLedger::new(first).unwrap();
    assert_eq!(ledger.issued, TableIds { blocks: 2, transactions: 11, events: 101, call_traces: 1001 });
    assert_eq!(ledger.written, RowCounts { blocks: 0, transactions: 0, events: 0, call_traces: 0 });
    // The first row needs no identifier: the writer gave it out already.
    assert!(!ledger.needs_id(Table::Events, 100));
    assert!(ledger.needs_id(Table::Events, 101));
    assert!(ledger.needs_id(Table::Events, 103));
    assert_eq!(ledger.accept_id(Table::Events, 101), Ok(()));
    assert_eq!(ledger.issued.events, 102);
    assert_eq!(ledger.issued.blocks, 2);
    assert!(!ledger.needs_id(Table::Events, 101));
    let before = ledger;
    assert_eq!(
        ledger.accept_id(Table::Events, 105),
        Err(LedgerError::OutOfStep { table: Table::Events, expected: 102, drawn: 105 })
    );
    assert_eq!(
        ledger.accept_id(Table::Blocks, 1),
        Err(LedgerError::OutOfStep { table: Table::Blocks, expected: 2, drawn: 1 })
    );
    assert_eq!(ledger, before);
}

#[test]
fn ledger_refuses_identifiers_that_nothing_follows() {
    let last = TableIds { blocks: 1, transactions: 1, events: u64::MAX, call_traces: u64::MAX };
    assert_eq!(WriterLedger::new(last), Err(LedgerError::UsedUp { table: Table::Events }));
    let nearly = TableIds { blocks: 1, transactions: u64::MAX - 1, events: 1, call_traces: 1 };
    let mut ledger = WriterLedger::new(nearly).unwrap();
    assert_eq!(ledger.issued.transactions, u64::MAX);
    assert_eq!(
        ledger.accept_id(Table::Transactions, u64::MAX),
        Err(LedgerError::UsedUp { table: Table::Transactions })
    );
    assert_eq!(ledger.issued.transactions, u64::MAX);
}

#[test]
fn ledger_is_opened_anew_after_a_rollback() {
    let first = TableIds { blocks: 1, transactions: 1, events: 1, call_traces: 1 };
    let mut ledger = WriterLedger::new(first).unwrap();
    ledger.accept_id(Table::Blocks, 2).unwrap();
    ledger.accept_id(Table::Blocks, 3).unwrap();
    let before = ledger;
    let other = TableIds { blocks: 1, transactions: 1, events: 1, call_traces: 2 };
    assert_eq!(
        ledger.rolled_back(first, other),
        Err(LedgerError::OutOfStep { table: Table::CallTraces, expected: 1, drawn: 2 })
    );
    assert_eq!(ledger, before);
    assert_eq!(ledger.rolled_back(first, first), Ok(()));
    assert_eq!(ledger, WriterLedger::new(first).unwrap());
    ledger.exported();
    assert_eq!(ledger.written, RowCounts { blocks: 0, transactions: 0, events: 0, call_traces: 0 });
}

#[test]
fn tables_have_their_names() {
    assert_eq!(Table::Blocks.name(), "blocks");
    assert_eq!(Table::Transactions.name(), "transactions");
    assert_eq!(Table::Events.name(), "events");
    assert_eq!(Table::CallTraces.name(), "call_traces");
    let ids = TableIds { blocks: 1, transactions: 2, events: 3, call_traces: 4 };
    assert_eq!(ids.of(Table::Events), 3);
    assert_eq!(ids.with(Table::Events, 9), TableIds { blocks: 1, transactions: 2, events: 9, call_traces: 4 });
    assert_eq!(ids.used_up(), None);
    assert_eq!(ids.with(Table::Blocks, u64::MAX).used_up(), Some(Table::Blocks));
}
