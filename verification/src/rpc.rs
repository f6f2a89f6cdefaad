//! The commands that drive the engine and what a successful seal returns.

use vstd::prelude::*;
use crate::consensus::ImportedAux;

verus! {

/// A block that was authored and imported.
#[derive(Debug, PartialEq, Eq)]
pub struct CreatedBlock<Hash> {
    /// Hash of the header of the new block.
    pub hash: Hash,
    /// What the import pipeline reported of it.
    pub aux: ImportedAux,
}

impl<Hash: Copy> Clone for CreatedBlock<Hash> {
    fn clone(&self) -> (copy: Self)
        ensures
            copy == *self,
    {
        *self
    }
}

impl<Hash: Copy> Copy for CreatedBlock<Hash> {

}

/// A request to the engine.
///
/// `S` and `F` are the handles on which the result of a seal and of a finalization are
/// returned. The engine never looks into them: it hands each back with the result that
/// belongs to it. A command made by the engine's surroundings rather than by a caller
/// (a heartbeat) has no handle.
#[allow(inconsistent_fields)]
#[derive(Debug, PartialEq, Eq)]
pub enum EngineCommand<Hash, S, F> {
    /// Author a block and import it.
    SealNewBlock {
        /// Author the block even if no transaction is waiting.
        create_empty: bool,
        /// Mark the block final on import.
        finalize: bool,
        /// The block to build on; the best block of the chain if `None`.
        parent_hash: Option<Hash>,
        /// Where the result goes, if anyone waits for it.
        sender: Option<S>,
    },
    /// Finalize a block that is part of the chain.
    FinalizeBlock {
        /// The block to finalize.
        hash: Hash,
        /// Where the result goes.
        sender: F,
        /// Proof of finality to store with the block.
        justification: Option<Vec<u8>>,
    },
}

} // verus!
