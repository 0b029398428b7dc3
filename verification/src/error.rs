//! What can go wrong while records are built and exported.

use vstd::prelude::*;

verus! {

/// Why the exporter refused an operation. A refused operation changes
/// nothing.
#[derive(Clone, Copy, Debug, PartialEq, Eq, Structural)]
pub enum ExportError {
    /// A block is open and has not been completed.
    BlockStillOpen,
    /// No block is open.
    NoOpenBlock,
    /// The transaction's version does not come after the last one seen.
    VersionNotIncreasing,
    /// A counter, an identifier, a size or a fee exceeds the width of its
    /// column.
    Overflow,
    /// The writer reported that it could not make the batch durable.
    WriterFailed,
}

} // verus!
