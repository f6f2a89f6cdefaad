//! Plain pictures of the values that pass between the engine and the node's services.
//!
//! Each type holds what the engine reads of the value it stands for, and nothing else.
//! The embedding code converts between these and the node's own types.

use vstd::prelude::*;

verus! {

/// Tag of the pre-runtime digest item that carries a BABE pre-digest.
pub const BABE_ENGINE_ID: [u8; 4] = [0x42, 0x41, 0x42, 0x45];

/// What a store answered when it was asked for a value.
#[derive(Debug, PartialEq, Eq)]
pub enum Lookup<T> {
    /// The value asked for.
    Found(T),
    /// The store holds no such value.
    Missing,
    /// The store could not answer; the payload is its message.
    Failed(String),
}

/// What the engine reads of the header it builds on.
#[derive(Debug, PartialEq, Eq)]
pub struct ParentHeader<Hash> {
    /// Hash of the header.
    pub hash: Hash,
    /// Height of the block.
    pub number: u64,
}

impl<Hash: Copy> Clone for ParentHeader<Hash> {
    fn clone(&self) -> (copy: Self)
        ensures
            copy == *self,
    {
        *self
    }
}

impl<Hash: Copy> Copy for ParentHeader<Hash> {

}

/// What the engine reads of the inherent data made for a block.
#[derive(Clone, Copy, Debug, PartialEq, Eq)]
pub struct Inherents {
    /// How many inherents the data holds.
    pub len: usize,
    /// The slot that the data names.
    pub slot_number: u64,
}

/// What the engine reads of a block that the proposer built.
#[derive(Debug, PartialEq, Eq)]
pub struct Proposal<Hash> {
    /// Hash of the header of the block.
    pub hash: Hash,
    /// How many extrinsics the block holds, inherents included.
    pub extrinsics: usize,
}

impl<Hash: Copy> Clone for Proposal<Hash> {
    fn clone(&self) -> (copy: Self)
        ensures
            copy == *self,
    {
        *self
    }
}

impl<Hash: Copy> Copy for Proposal<Hash> {

}

/// One entry of a header's digest.
#[derive(Debug, PartialEq, Eq)]
pub enum DigestItem {
    /// A message from the consensus engine with the given tag to the runtime, put in
    /// before the block is executed.
    PreRuntime([u8; 4], Vec<u8>),
    /// A message from the runtime to the consensus engine with the given tag.
    Consensus([u8; 4], Vec<u8>),
    /// The seal that the consensus engine with the given tag put on the block.
    Seal([u8; 4], Vec<u8>),
    /// Anything else.
    Other(Vec<u8>),
}

/// The digest of a header: its entries in order.
#[derive(Debug, PartialEq, Eq)]
pub struct Digest {
    /// The entries.
    pub logs: Vec<DigestItem>,
}

impl View for Digest {
    type V = Seq<DigestItem>;

    open spec fn view(&self) -> Seq<DigestItem> {
        self.logs@
    }
}

/// Where a block that is handed to the import pipeline came from.
#[derive(Clone, Copy, Debug, PartialEq, Eq)]
pub enum BlockOrigin {
    /// The genesis block, built by the node itself.
    Genesis,
    /// Received while the node was catching up.
    NetworkInitialSync,
    /// Announced by a peer.
    NetworkBroadcast,
    /// Received from the consensus engine of another node.
    ConsensusBroadcast,
    /// Authored by this node.
    Own,
    /// Read from a file.
    File,
}

/// How the import pipeline chooses the best block once the block is in.
#[derive(Clone, Copy, Debug, PartialEq, Eq)]
pub enum ForkChoiceStrategy {
    /// The longest chain wins; of two that are equally long, the one seen first.
    LongestChain,
    /// The block is the new best block exactly if the flag is set.
    Custom(bool),
}

/// Data that travels with a block to the import pipeline without being part of it.
#[derive(Debug, PartialEq, Eq)]
pub enum Intermediate<D> {
    /// The reference to the epoch in which the block was authored.
    Babe {
        /// The reference.
        epoch_descriptor: D,
    },
}

/// What the import pipeline is told of a block.
#[derive(Debug, PartialEq, Eq)]
pub struct BlockImportParams<Hash, D> {
    /// Where the block came from.
    pub origin: BlockOrigin,
    /// The block, named by the hash of its header.
    pub header: Hash,
    /// Whether the body of the block goes with its header.
    pub body: bool,
    /// Whether the block is final as soon as it is in.
    pub finalized: bool,
    /// How the best block is chosen; left to the pipeline if `None`.
    pub fork_choice: Option<ForkChoiceStrategy>,
    /// The data that travels with the block, if any.
    pub intermediate: Option<Intermediate<D>>,
}

impl<Hash, D> BlockImportParams<Hash, D> {
    /// Parameters for a bare header of the given origin: no body, not final, no rule for
    /// the best block, nothing travelling with it.
    pub fn new(origin: BlockOrigin, header: Hash) -> (params: Self)
        ensures
            params == (BlockImportParams::<Hash, D> {
                origin,
                header,
                body: false,
                finalized: false,
                fork_choice: None,
                intermediate: None,
            }),
    {
        BlockImportParams {
            origin,
            header,
            body: false,
            finalized: false,
            fork_choice: None,
            intermediate: None,
        }
    }
}

/// What the import pipeline knows of a block that it has taken in.
#[derive(Clone, Copy, Debug, PartialEq, Eq)]
pub struct ImportedAux {
    /// Only the header was imported: the state is still missing.
    pub header_only: bool,
    /// Requests for justifications made so far are to be dropped.
    pub clear_justification_requests: bool,
    /// A justification for the block is to be requested.
    pub needs_justification: bool,
    /// The justification that came with the block was malformed.
    pub bad_justification: bool,
    /// A finality proof for the block is to be requested.
    pub needs_finality_proof: bool,
    /// The block became the best block.
    pub is_new_best: bool,
}

/// How the import pipeline answered a block.
#[derive(Clone, Copy, Debug, PartialEq, Eq)]
pub enum ImportResult {
    /// The block was taken in.
    Imported(ImportedAux),
    /// The block is part of the chain already.
    AlreadyInChain,
    /// The block, or one of its ancestors, is known to be bad.
    KnownBad,
    /// The parent of the block is not known.
    UnknownParent,
    /// The state of the parent is not at hand.
    MissingState,
}

} // verus!
