//! Names of the four tables, the chain identifier, block headers and the
//! persisted checkpoint.

use vstd::prelude::*;
use crate::bytes::{clone_bytes, zero_bytes};

verus! {

/// The position of a transaction in the chain's global sequence.
pub type Version = u64;

/// Name of the blocks table.
pub const ENTITY_BLOCKS_NAME: &'static str = "blocks";

/// Name of the transactions table.
pub const ENTITY_TRANSACTIONS_NAME: &'static str = "transactions";

/// Name of the events table.
pub const ENTITY_EVENTS_NAME: &'static str = "events";

/// Name of the call traces table.
pub const ENTITY_CALL_TRACES_NAME: &'static str = "call_traces";

/// Column of a row's identifier, in every table.
pub const ENTITY_FIELD_ID: &'static str = "_id";

/// Column of the version of the row layout, in every table.
pub const ENTITY_FIELD_RECORD_VERSION: &'static str = "record_version";

/// Column of the index of a row's block.
pub const ENTITY_FIELD_BLOCK_INDEX: &'static str = "block_index";

/// Column of the version of the first transaction of a row's block.
pub const ENTITY_FIELD_BLOCK_TX_INDEX: &'static str = "block_tx_index";

/// Column of the timestamp of a row's block.
pub const ENTITY_FIELD_TIME_INDEX: &'static str = "time_index";

/// Column of the version of a row's transaction.
pub const ENTITY_FIELD_TX_INDEX: &'static str = "tx_index";

/// Column of the hash of a row's block.
pub const ENTITY_FIELD_BLOCK_HASH: &'static str = "block_hash";

/// Column of the hash of a row's transaction.
pub const ENTITY_FIELD_TX_HASH: &'static str = "tx_hash";

/// Number of bytes in a block or transaction hash.
pub const HASH_LENGTH: usize = 32;

/// Number of bytes in an account address.
pub const ADDRESS_LENGTH: usize = 32;

/// Identifier of the network a chain belongs to.
#[derive(Clone, Copy, Debug, PartialEq, Eq, Structural)]
pub struct ChainId {
    pub id: u8,
}

impl ChainId {
    /// The chain with this identifier.
    pub fn new(id: u8) -> (chain_id: ChainId)
        ensures
            chain_id.id == id,
    {
        ChainId { id }
    }

    /// The identifier used by test networks.
    pub open spec fn spec_test() -> ChainId {
        ChainId { id: 4 }
    }

    /// The identifier used by test networks.
    #[verifier::when_used_as_spec(spec_test)]
    pub fn test() -> (chain_id: ChainId)
        ensures
            chain_id == Self::spec_test(),
    {
        ChainId { id: 4 }
    }

    /// The identifier as a number.
    pub fn id(&self) -> (id: u8)
        ensures
            id == self.id,
    {
        self.id
    }
}

/// The header of a block: what the chain records when a block starts.
#[derive(Debug, PartialEq, Eq)]
pub struct BlockMetadata {
    pub id: Vec<u8>,
    pub epoch: u64,
    pub round: u64,
    pub proposer: Vec<u8>,
    pub previous_block_votes_bitvec: Vec<u8>,
    pub failed_proposer_indices: Vec<u32>,
    pub timestamp_usecs: u64,
}

/// What a block header holds, as mathematical values.
#[verifier::ext_equal]
pub struct BlockMetadataView {
    pub id: Seq<u8>,
    pub epoch: u64,
    pub round: u64,
    pub proposer: Seq<u8>,
    pub previous_block_votes_bitvec: Seq<u8>,
    pub failed_proposer_indices: Seq<u32>,
    pub timestamp_usecs: u64,
}

impl View for BlockMetadata {
    type V = BlockMetadataView;

    open spec fn view(&self) -> BlockMetadataView {
        BlockMetadataView {
            id: self.id@,
            epoch: self.epoch,
            round: self.round,
            proposer: self.proposer@,
            previous_block_votes_bitvec: self.previous_block_votes_bitvec@,
            failed_proposer_indices: self.failed_proposer_indices@,
            timestamp_usecs: self.timestamp_usecs,
        }
    }
}

impl BlockMetadataView {
    /// The header that stands for "no block yet": zero hash, zero proposer,
    /// no votes, time zero.
    pub open spec fn zero() -> BlockMetadataView {
        BlockMetadataView {
            id: Seq::new(HASH_LENGTH as nat, |i: int| 0u8),
            epoch: 0,
            round: 0,
            proposer: Seq::new(ADDRESS_LENGTH as nat, |i: int| 0u8),
            previous_block_votes_bitvec: Seq::empty(),
            failed_proposer_indices: Seq::empty(),
            timestamp_usecs: 0,
        }
    }
}

impl BlockMetadata {
    /// A header of these values.
    pub fn new(
        id: Vec<u8>,
        epoch: u64,
        round: u64,
        proposer: Vec<u8>,
        previous_block_votes_bitvec: Vec<u8>,
        failed_proposer_indices: Vec<u32>,
        timestamp_usecs: u64,
    ) -> (metadata: BlockMetadata)
        ensures
            metadata@ == (BlockMetadataView {
                id: id@,
                epoch,
                round,
                proposer: proposer@,
                previous_block_votes_bitvec: previous_block_votes_bitvec@,
                failed_proposer_indices: failed_proposer_indices@,
                timestamp_usecs,
            }),
    {
        BlockMetadata {
            id,
            epoch,
            round,
            proposer,
            previous_block_votes_bitvec,
            failed_proposer_indices,
            timestamp_usecs,
        }
    }

    /// The header that stands for "no block yet".
    pub fn zero() -> (metadata: BlockMetadata)
        ensures
            metadata@ == BlockMetadataView::zero(),
    {
        BlockMetadata {
            id: zero_bytes(HASH_LENGTH),
            epoch: 0,
            round: 0,
            proposer: zero_bytes(ADDRESS_LENGTH),
            previous_block_votes_bitvec: Vec::new(),
            failed_proposer_indices: Vec::new(),
            timestamp_usecs: 0,
        }
    }
}

impl Clone for BlockMetadata {
    fn clone(&self) -> (copy: Self)
        ensures
            copy@ == self@,
    {
        BlockMetadata {
            id: clone_bytes(&self.id),
            epoch: self.epoch,
            round: self.round,
            proposer: clone_bytes(&self.proposer),
            previous_block_votes_bitvec: clone_bytes(&self.previous_block_votes_bitvec),
            failed_proposer_indices: self.failed_proposer_indices.clone(),
            timestamp_usecs: self.timestamp_usecs,
        }
    }
}

/// The checkpoint persisted with every successful export: how far the
/// stream has been exported.
#[derive(Debug, PartialEq, Eq)]
pub struct LastExportData {
    pub last_known_tx_version: Version,
    pub last_block_metadata: BlockMetadata,
    pub last_block_tx_version: Version,
    pub last_known_block_index: u64,
}

/// A checkpoint, as mathematical values.
#[verifier::ext_equal]
pub struct LastExportDataView {
    pub last_known_tx_version: Version,
    pub last_block_metadata: BlockMetadataView,
    pub last_block_tx_version: Version,
    pub last_known_block_index: u64,
}

impl View for LastExportData {
    type V = LastExportDataView;

    open spec fn view(&self) -> LastExportDataView {
        LastExportDataView {
            last_known_tx_version: self.last_known_tx_version,
            last_block_metadata: self.last_block_metadata@,
            last_block_tx_version: self.last_block_tx_version,
            last_known_block_index: self.last_known_block_index,
        }
    }
}

impl Clone for LastExportData {
    fn clone(&self) -> (copy: Self)
        ensures
            copy@ == self@,
    {
        LastExportData {
            last_known_tx_version: self.last_known_tx_version,
            last_block_metadata: self.last_block_metadata.clone(),
            last_block_tx_version: self.last_block_tx_version,
            last_known_block_index: self.last_known_block_index,
        }
    }
}

} // verus!
