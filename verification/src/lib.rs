//! Incremental export of a chain's blocks, transactions, events and call
//! traces into four linked analytic tables, with checkpointing and rollback.

pub mod bytes;
pub mod types;
pub mod chain;
pub mod rows;
pub mod error;
pub mod schema;
pub mod tables;
pub mod columns;
pub mod record;
pub mod state;
pub mod relations;
pub mod consistency;
pub mod validity;
pub mod laws;
pub mod exporter;
pub mod ledger;
pub mod call_trace_store;
pub mod simulation;
