//! The account that a shell keeps of a writer: which identifier the writer
//! gives out next in each table, and how many of the staged rows it has
//! been handed. The writer gives out identifiers one by one; the rows must
//! carry what it gives out.

use vstd::prelude::*;
use crate::state::{StagedRows, TableIds};
use crate::types::{
    ENTITY_BLOCKS_NAME, ENTITY_CALL_TRACES_NAME, ENTITY_EVENTS_NAME, ENTITY_TRANSACTIONS_NAME,
};

verus! {

/// One of the four tables.
#[derive(Clone, Copy, Debug, PartialEq, Eq, Structural)]
pub enum Table {
    Blocks,
    Transactions,
    Events,
    CallTraces,
}

impl Table {
    /// The name of the table.
    pub open spec fn spec_name(self) -> Seq<char> {
        match self {
            Table::Blocks => ENTITY_BLOCKS_NAME@,
            Table::Transactions => ENTITY_TRANSACTIONS_NAME@,
            Table::Events => ENTITY_EVENTS_NAME@,
            Table::CallTraces => ENTITY_CALL_TRACES_NAME@,
        }
    }

    /// The name of the table.
    pub fn name(self) -> (name: &'static str)
        ensures
            name@ == self.spec_name(),
    {
        match self {
            Table::Blocks => ENTITY_BLOCKS_NAME,
            Table::Transactions => ENTITY_TRANSACTIONS_NAME,
            Table::Events => ENTITY_EVENTS_NAME,
            Table::CallTraces => ENTITY_CALL_TRACES_NAME,
        }
    }
}

impl TableIds {
    /// The identifier of this table.
    pub open spec fn spec_of(self, table: Table) -> u64 {
        match table {
            Table::Blocks => self.blocks,
            Table::Transactions => self.transactions,
            Table::Events => self.events,
            Table::CallTraces => self.call_traces,
        }
    }

    /// The identifier of this table.
    #[verifier::when_used_as_spec(spec_of)]
    pub fn of(self, table: Table) -> (id: u64)
        ensures
            id == self.spec_of(table),
    {
        match table {
            Table::Blocks => self.blocks,
            Table::Transactions => self.transactions,
            Table::Events => self.events,
            Table::CallTraces => self.call_traces,
        }
    }

    /// The same identifiers, but `id` for this table.
    pub open spec fn spec_with(self, table: Table, id: u64) -> TableIds {
        match table {
            Table::Blocks => TableIds { blocks: id, ..self },
            Table::Transactions => TableIds { transactions: id, ..self },
            Table::Events => TableIds { events: id, ..self },
            Table::CallTraces => TableIds { call_traces: id, ..self },
        }
    }

    /// The same identifiers, but `id` for this table.
    #[verifier::when_used_as_spec(spec_with)]
    pub fn with(self, table: Table, id: u64) -> (ids: TableIds)
        ensures
            ids == self.spec_with(table, id),
    {
        match table {
            Table::Blocks => TableIds { blocks: id, ..self },
            Table::Transactions => TableIds { transactions: id, ..self },
            Table::Events => TableIds { events: id, ..self },
            Table::CallTraces => TableIds { call_traces: id, ..self },
        }
    }

    /// The first table, in the order of the tables, whose identifier is the
    /// last that there is.
    pub open spec fn spec_used_up(self) -> Option<Table> {
        if self.blocks == u64::MAX {
            Some(Table::Blocks)
        } else if self.transactions == u64::MAX {
            Some(Table::Transactions)
        } else if self.events == u64::MAX {
            Some(Table::Events)
        } else if self.call_traces == u64::MAX {
            Some(Table::CallTraces)
        } else {
            None
        }
    }

    /// The first table whose identifier is the last that there is.
    #[verifier::when_used_as_spec(spec_used_up)]
    pub fn used_up(self) -> (table: Option<Table>)
        ensures
            table == self.spec_used_up(),
    {
        if self.blocks == u64::MAX {
            Some(Table::Blocks)
        } else if self.transactions == u64::MAX {
            Some(Table::Transactions)
        } else if self.events == u64::MAX {
            Some(Table::Events)
        } else if self.call_traces == u64::MAX {
            Some(Table::CallTraces)
        } else {
            None
        }
    }

    /// For each table, the identifier after this one.
    pub open spec fn following(self) -> TableIds {
        TableIds {
            blocks: (self.blocks + 1) as u64,
            transactions: (self.transactions + 1) as u64,
            events: (self.events + 1) as u64,
            call_traces: (self.call_traces + 1) as u64,
        }
    }
}

/// How many rows of each table.
#[derive(Clone, Copy, Debug, PartialEq, Eq, Structural)]
pub struct RowCounts {
    pub blocks: usize,
    pub transactions: usize,
    pub events: usize,
    pub call_traces: usize,
}

impl RowCounts {
    /// No row of any table.
    pub open spec fn zero() -> RowCounts {
        RowCounts { blocks: 0, transactions: 0, events: 0, call_traces: 0 }
    }
}

/// Why the writer's identifiers cannot be used.
#[derive(Clone, Copy, Debug, PartialEq, Eq, Structural)]
pub enum LedgerError {
    /// The writer gave out `drawn` where `expected` was due.
    OutOfStep { table: Table, expected: u64, drawn: u64 },
    /// No identifier follows the one that the writer gave out.
    UsedUp { table: Table },
}

/// The account of a writer.
#[derive(Clone, Copy, Debug, PartialEq, Eq, Structural)]
pub struct WriterLedger {
    /// For each table, the identifier that the writer gives out next.
    pub issued: TableIds,
    /// For each table, how many of the staged rows the writer has been
    /// handed.
    pub written: RowCounts,
}

/// The account after the writer gave out `first`, the identifiers that the
/// next rows get: the writer is one ahead, and has been handed nothing.
pub open spec fn opened(first: TableIds) -> Result<WriterLedger, LedgerError> {
    match first.spec_used_up() {
        Some(table) => Err(LedgerError::UsedUp { table }),
        None => Ok(WriterLedger { issued: first.following(), written: RowCounts::zero() }),
    }
}

impl WriterLedger {
    /// Opens the account with the identifiers that the writer gave out
    /// first.
    pub fn new(first: TableIds) -> (result: Result<WriterLedger, LedgerError>)
        ensures
            result == opened(first),
    {
        match first.used_up() {
            Some(table) => Err(LedgerError::UsedUp { table }),
            None => Ok(
                WriterLedger {
                    issued: TableIds {
                        blocks: first.blocks + 1,
                        transactions: first.transactions + 1,
                        events: first.events + 1,
                        call_traces: first.call_traces + 1,
                    },
                    written: RowCounts { blocks: 0, transactions: 0, events: 0, call_traces: 0 },
                },
            ),
        }
    }

    /// The writer has not yet given out the identifier of this row: another
    /// identifier must be drawn before the row is written.
    pub open spec fn spec_needs_id(self, table: Table, row_id: u64) -> bool {
        self.issued.spec_of(table) <= row_id
    }

    /// The writer has not yet given out the identifier of this row.
    #[verifier::when_used_as_spec(spec_needs_id)]
    pub fn needs_id(self, table: Table, row_id: u64) -> (needed: bool)
        ensures
            needed == self.spec_needs_id(table, row_id),
    {
        self.issued.of(table) <= row_id
    }

    /// What comes of an identifier that the writer gave out: it must be
    /// the one that was due, and one must follow it.
    pub open spec fn accept_id_result(self, table: Table, drawn: u64) -> Result<(), LedgerError> {
        if drawn != self.issued.spec_of(table) {
            Err(LedgerError::OutOfStep { table, expected: self.issued.spec_of(table), drawn })
        } else if drawn == u64::MAX {
            Err(LedgerError::UsedUp { table })
        } else {
            Ok(())
        }
    }

    /// Takes note of an identifier that the writer gave out. Where it is
    /// refused, nothing changes.
    pub fn accept_id(&mut self, table: Table, drawn: u64) -> (result: Result<(), LedgerError>)
        ensures
            result == old(self).accept_id_result(table, drawn),
            result is Ok ==> *final(self) == (WriterLedger {
                issued: old(self).issued.spec_with(table, (drawn + 1) as u64),
                ..*old(self)
            }),
            result is Err ==> *final(self) == *old(self),
    {
        let expected = self.issued.of(table);
        if drawn != expected {
            return Err(LedgerError::OutOfStep { table, expected, drawn });
        }
        if drawn == u64::MAX {
            return Err(LedgerError::UsedUp { table });
        }
        self.issued = self.issued.with(table, drawn + 1);
        Ok(())
    }

    /// Takes note that the writer has been handed every staged row.
    pub fn all_written(&mut self, staged: &StagedRows)
        ensures
            *final(self) == (WriterLedger {
                written: RowCounts {
                    blocks: staged.blocks.len(),
                    transactions: staged.transactions.len(),
                    events: staged.events.len(),
                    call_traces: staged.call_traces.len(),
                },
                ..*old(self)
            }),
    {
        self.written = RowCounts {
            blocks: staged.blocks.len(),
            transactions: staged.transactions.len(),
            events: staged.events.len(),
            call_traces: staged.call_traces.len(),
        };
    }

    /// Takes note of a successful export: nothing is staged any more.
    pub fn exported(&mut self)
        ensures
            *final(self) == (WriterLedger { written: RowCounts::zero(), ..*old(self) }),
    {
        self.written = RowCounts { blocks: 0, transactions: 0, events: 0, call_traces: 0 };
    }

    /// What comes of a rollback, after which the rows get the identifiers
    /// `expected` and the writer gave out `drawn`: the two must be the
    /// same, and the account is opened anew.
    pub open spec fn rolled_back_result(expected: TableIds, drawn: TableIds) -> Result<
        WriterLedger,
        LedgerError,
    > {
        if drawn.blocks != expected.blocks {
            Err(
                LedgerError::OutOfStep {
                    table: Table::Blocks,
                    expected: expected.blocks,
                    drawn: drawn.blocks,
                },
            )
        } else if drawn.transactions != expected.transactions {
            Err(
                LedgerError::OutOfStep {
                    table: Table::Transactions,
                    expected: expected.transactions,
                    drawn: drawn.transactions,
                },
            )
        } else if drawn.events != expected.events {
            Err(
                LedgerError::OutOfStep {
                    table: Table::Events,
                    expected: expected.events,
                    drawn: drawn.events,
                },
            )
        } else if drawn.call_traces != expected.call_traces {
            Err(
                LedgerError::OutOfStep {
                    table: Table::CallTraces,
                    expected: expected.call_traces,
                    drawn: drawn.call_traces,
                },
            )
        } else {
            opened(drawn)
        }
    }

    /// Takes note of a rollback. Where the writer is out of step, nothing
    /// changes.
    pub fn rolled_back(&mut self, expected: TableIds, drawn: TableIds) -> (result: Result<
        (),
        LedgerError,
    >)
        ensures
            result is Ok <==> Self::rolled_back_result(expected, drawn) is Ok,
            result matches Err(error) ==> Self::rolled_back_result(expected, drawn) == Err::<
                WriterLedger,
                LedgerError,
            >(error) && *final(self) == *old(self),
            result is Ok ==> Self::rolled_back_result(expected, drawn) == Ok::<
                WriterLedger,
                LedgerError,
            >(*final(self)),
    {
        if drawn.blocks != expected.blocks {
            return Err(
                LedgerError::OutOfStep {
                    table: Table::Blocks,
                    expected: expected.blocks,
                    drawn: drawn.blocks,
                },
            );
        }
        if drawn.transactions != expected.transactions {
            return Err(
                LedgerError::OutOfStep {
                    table: Table::Transactions,
                    expected: expected.transactions,
                    drawn: drawn.transactions,
                },
            );
        }
        if drawn.events != expected.events {
            return Err(
                LedgerError::OutOfStep {
                    table: Table::Events,
                    expected: expected.events,
                    drawn: drawn.events,
                },
            );
        }
        if drawn.call_traces != expected.call_traces {
            return Err(
                LedgerError::OutOfStep {
                    table: Table::CallTraces,
                    expected: expected.call_traces,
                    drawn: drawn.call_traces,
                },
            );
        }
        match WriterLedger::new(drawn) {
            Ok(ledger) => {
                *self = ledger;
                Ok(())
            },
            Err(error) => Err(error),
        }
    }
}

} // verus!
