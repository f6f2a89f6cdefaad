//! What sealing or finalizing a block can fail with.

use vstd::prelude::*;
use crate::consensus::ImportResult;

verus! {

/// Why a command did not succeed.
///
/// Every failure is returned to the caller of the command; none stops the engine.
#[derive(Debug, PartialEq, Eq)]
pub enum Error<Hash> {
    /// The parent named by the command is not known; the payload is the hash named.
    BlockNotFound(Hash),
    /// There is nothing to put in a block and empty blocks were not asked for.
    EmptyTransactionPool,
    /// No epoch covers the slot on top of the parent.
    InvalidAuthoritySet,
    /// An epoch covers the slot, but no local key may author in it.
    SlotClaimFailed,
    /// The import pipeline answered with an outcome other than `Imported`.
    BlockImport(ImportResult),
    /// The epoch store failed; the payload is its message.
    EpochLookup(String),
    /// The proposer could not be set up or failed to build; the payload is its message.
    Proposer(String),
    /// Inherent data could not be made or misses the slot; the payload is the message.
    Inherents(String),
    /// The header store or the finalizer failed; the payload is its message.
    Blockchain(String),
    /// Chain selection or the import pipeline failed; the payload is its message.
    Consensus(String),
}

} // verus!
