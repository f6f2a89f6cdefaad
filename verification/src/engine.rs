//! The engine: one command at a time, from its arrival to the delivery of its result.
//!
//! The engine is a state machine. It is `Idle` until a command arrives. While it works
//! on a command it asks for one [`Effect`] at a time; whoever drives it performs the
//! effect and reports the outcome as an [`Event`]. The last effect of a command hands
//! the result back together with the handle of the caller, and the engine is idle again.
//! No failure of a command stops the engine: it stops when the source of commands ends.

use vstd::prelude::*;
use crate::babe::SlotClaim;
use crate::consensus::{
    BlockImportParams, BlockOrigin, Digest, ForkChoiceStrategy, ImportResult, Inherents,
    Intermediate, Lookup, ParentHeader, Proposal,
};
use crate::error::Error;
use crate::rpc::{CreatedBlock, EngineCommand};

verus! {

/// Longest time that the proposer may take to build a block, in seconds.
pub const MAX_PROPOSAL_DURATION: u64 = 10;

/// What a caller asked for when it asked for a new block.
#[derive(Debug, PartialEq, Eq)]
pub struct SealRequest<Hash> {
    /// Author the block even if no transaction is waiting.
    pub create_empty: bool,
    /// Mark the block final on import.
    pub finalize: bool,
    /// The block to build on; the best block of the chain if `None`.
    pub parent_hash: Option<Hash>,
}

impl<Hash: Copy> Clone for SealRequest<Hash> {
    fn clone(&self) -> (copy: Self)
        ensures
            copy == *self,
    {
        *self
    }
}

impl<Hash: Copy> Copy for SealRequest<Hash> {

}

/// How far the work on a new block has come: the answer that the engine waits for.
#[derive(Debug, PartialEq, Eq)]
pub enum Stage<Hash, D> {
    /// The number of transactions that are ready.
    Pool,
    /// The header to build on.
    Parent,
    /// The proposer, set up on the parent.
    Proposer {
        /// The header to build on.
        parent: ParentHeader<Hash>,
    },
    /// The inherent data of the block.
    Inherents {
        /// The header to build on.
        parent: ParentHeader<Hash>,
    },
    /// The claim of the slot.
    Claim {
        /// How many inherents the block holds at least.
        inherents_len: usize,
    },
    /// The block that the proposer builds.
    Proposal {
        /// How many inherents the block holds at least.
        inherents_len: usize,
        /// Reference to the epoch of the slot.
        epoch_descriptor: D,
    },
    /// The verdict of the import pipeline.
    Import {
        /// Hash of the header of the block.
        block: Hash,
    },
}

/// The state of the engine.
#[allow(inconsistent_fields)]
#[derive(Debug, PartialEq, Eq)]
pub enum Engine<Hash, S, F, D> {
    /// No command is being worked on.
    Idle,
    /// A block is being authored.
    Sealing {
        /// What was asked for.
        request: SealRequest<Hash>,
        /// Where the result goes, if anyone waits for it.
        sender: Option<S>,
        /// The answer that is outstanding.
        stage: Stage<Hash, D>,
    },
    /// A block is being finalized.
    Finalizing {
        /// Where the result goes.
        sender: F,
    },
    /// The source of commands has ended and so has the engine.
    Stopped,
}

/// What happened outside the engine.
#[derive(Debug, PartialEq, Eq)]
pub enum Event<Hash, S, F, D> {
    /// A command arrived.
    Command(EngineCommand<Hash, S, F>),
    /// The source of commands has ended.
    CommandsEnded,
    /// The transaction pool told how many transactions are ready.
    PoolStatus {
        /// Their number.
        ready: usize,
    },
    /// The header store answered for the hash that the command names.
    HeaderByHash(Lookup<ParentHeader<Hash>>),
    /// Chain selection answered with the best header, or failed with a message.
    BestHeader(Result<ParentHeader<Hash>, String>),
    /// The proposer was set up on the parent, or failed with a message.
    ProposerInit(Result<(), String>),
    /// Inherent data was made, or failed with a message.
    InherentData(Result<Inherents, String>),
    /// The slot was resolved and claimed, or was not.
    SlotClaimed(Result<SlotClaim<D>, Error<Hash>>),
    /// The proposer built a block, or failed with a message.
    Proposed(Result<Proposal<Hash>, String>),
    /// The import pipeline gave its verdict, or failed with a message.
    Imported(Result<ImportResult, String>),
    /// The finalizer finalized the block, or failed with a message.
    Finalized(Result<(), String>),
}

/// What the engine wants done next.
#[allow(inconsistent_fields)]
#[derive(Debug, PartialEq, Eq)]
pub enum Effect<Hash, S, F, D> {
    /// Ask the transaction pool how many transactions are ready.
    PoolStatus,
    /// Ask the header store for the header with this hash.
    HeaderByHash(Hash),
    /// Ask chain selection for the best header.
    BestHeader,
    /// Set up a proposer on this header.
    InitProposer(ParentHeader<Hash>),
    /// Make the inherent data of the block.
    CreateInherentData,
    /// Resolve the epoch of the slot on top of the parent and claim the slot.
    ResolveAndClaim {
        /// The header to build on.
        parent: ParentHeader<Hash>,
        /// The slot to author in.
        slot_number: u64,
    },
    /// Have the proposer build a block on the inherent data.
    Propose {
        /// The digest of the block.
        digest: Digest,
        /// Longest time to build, in seconds.
        max_duration: u64,
        /// Whether a proof of execution is to be recorded.
        record_proof: bool,
    },
    /// Hand the block to the import pipeline.
    ImportBlock(BlockImportParams<Hash, D>),
    /// Have the finalizer finalize a block.
    FinalizeBlock {
        /// The block to finalize.
        hash: Hash,
        /// Proof of finality to store with the block.
        justification: Option<Vec<u8>>,
    },
    /// Return the result of a seal to its caller, if anyone waits for it.
    SealDone {
        /// The handle of the caller, as it came with the command.
        sender: Option<S>,
        /// The result.
        result: Result<CreatedBlock<Hash>, Error<Hash>>,
    },
    /// Return the result of a finalization to its caller.
    FinalizeDone {
        /// The handle of the caller, as it came with the command.
        sender: F,
        /// The result.
        result: Result<(), Error<Hash>>,
    },
    /// End the task that drives the engine, with success.
    Finished,
    /// The event does not answer what the engine waits for. It is handed back and
    /// nothing has changed.
    Rejected(Event<Hash, S, F, D>),
}

/// The parameters with which a block authored here is imported: it is the node's own,
/// goes with its body, is final if the caller asked for that, extends the longest chain,
/// and travels with the reference to its epoch.
pub open spec fn own_block_params<Hash, D>(
    block: Hash,
    finalized: bool,
    epoch_descriptor: D,
) -> BlockImportParams<Hash, D> {
    BlockImportParams {
        origin: BlockOrigin::Own,
        header: block,
        body: true,
        finalized,
        fork_choice: Some(ForkChoiceStrategy::LongestChain),
        intermediate: Some(Intermediate::Babe { epoch_descriptor }),
    }
}

/// What the caller of a seal gets once the import pipeline has given its verdict on
/// the block with hash `block`.
pub open spec fn import_outcome<Hash>(block: Hash, verdict: Result<ImportResult, String>) -> Result<
    CreatedBlock<Hash>,
    Error<Hash>,
> {
    match verdict {
        Ok(ImportResult::Imported(aux)) => Ok(CreatedBlock { hash: block, aux }),
        Ok(other) => Err(Error::BlockImport(other)),
        Err(cause) => Err(Error::Consensus(cause)),
    }
}

/// What the caller of a finalization gets once the finalizer has answered.
pub open spec fn finalize_outcome<Hash>(answer: Result<(), String>) -> Result<(), Error<Hash>> {
    match answer {
        Ok(()) => Ok(()),
        Err(cause) => Err(Error::Blockchain(cause)),
    }
}

impl<Hash, S, F, D> Engine<Hash, S, F, D> {
    /// The engine and the effect that end the work on a seal with `result`.
    pub open spec fn seal_done(
        sender: Option<S>,
        result: Result<CreatedBlock<Hash>, Error<Hash>>,
    ) -> (Self, Effect<Hash, S, F, D>) {
        (Engine::Idle, Effect::SealDone { sender, result })
    }

    /// The engine that waits at `stage` of a seal, and the effect that it asks for.
    pub open spec fn seal_on(
        request: SealRequest<Hash>,
        sender: Option<S>,
        stage: Stage<Hash, D>,
        effect: Effect<Hash, S, F, D>,
    ) -> (Self, Effect<Hash, S, F, D>) {
        (Engine::Sealing { request, sender, stage }, effect)
    }

    /// The transition of an engine that works on a seal.
    pub open spec fn seal_next(
        request: SealRequest<Hash>,
        sender: Option<S>,
        stage: Stage<Hash, D>,
        event: Event<Hash, S, F, D>,
    ) -> (Self, Effect<Hash, S, F, D>) {
        match (stage, event) {
            (Stage::Pool, Event::PoolStatus { ready }) => {
                if ready == 0 && !request.create_empty {
                    Self::seal_done(sender, Err(Error::EmptyTransactionPool))
                } else {
                    Self::seal_on(
                        request,
                        sender,
                        Stage::Parent,
                        match request.parent_hash {
                            Some(hash) => Effect::HeaderByHash(hash),
                            None => Effect::BestHeader,
                        },
                    )
                }
            },
            (Stage::Parent, Event::HeaderByHash(lookup)) => match request.parent_hash {
                Some(hash) => match lookup {
                    Lookup::Found(parent) => Self::seal_on(
                        request,
                        sender,
                        Stage::Proposer { parent },
                        Effect::InitProposer(parent),
                    ),
                    Lookup::Missing => Self::seal_done(sender, Err(Error::BlockNotFound(hash))),
                    Lookup::Failed(cause) => Self::seal_done(
                        sender,
                        Err(Error::Blockchain(cause)),
                    ),
                },
                None => (
                    Engine::Sealing { request, sender, stage: Stage::Parent },
                    Effect::Rejected(Event::HeaderByHash(lookup)),
                ),
            },
            (Stage::Parent, Event::BestHeader(answer)) => match request.parent_hash {
                None => match answer {
                    Ok(parent) => Self::seal_on(
                        request,
                        sender,
                        Stage::Proposer { parent },
                        Effect::InitProposer(parent),
                    ),
                    Err(cause) => Self::seal_done(sender, Err(Error::Consensus(cause))),
                },
                Some(_) => (
                    Engine::Sealing { request, sender, stage: Stage::Parent },
                    Effect::Rejected(Event::BestHeader(answer)),
                ),
            },
            (Stage::Proposer { parent }, Event::ProposerInit(answer)) => match answer {
                Ok(()) => Self::seal_on(
                    request,
                    sender,
                    Stage::Inherents { parent },
                    Effect::CreateInherentData,
                ),
                Err(cause) => Self::seal_done(sender, Err(Error::Proposer(cause))),
            },
            (Stage::Inherents { parent }, Event::InherentData(answer)) => match answer {
                Ok(inherents) => Self::seal_on(
                    request,
                    sender,
                    Stage::Claim { inherents_len: inherents.len },
                    Effect::ResolveAndClaim { parent, slot_number: inherents.slot_number },
                ),
                Err(cause) => Self::seal_done(sender, Err(Error::Inherents(cause))),
            },
            (Stage::Claim { inherents_len }, Event::SlotClaimed(answer)) => match answer {
                Ok(claim) => Self::seal_on(
                    request,
                    sender,
                    Stage::Proposal { inherents_len, epoch_descriptor: claim.epoch_descriptor },
                    Effect::Propose {
                        digest: claim.digest,
                        max_duration: MAX_PROPOSAL_DURATION,
                        record_proof: false,
                    },
                ),
                Err(error) => Self::seal_done(sender, Err(error)),
            },
            (Stage::Proposal { inherents_len, epoch_descriptor }, Event::Proposed(answer)) => {
                match answer {
                    Ok(block) => {
                        if block.extrinsics == inherents_len && !request.create_empty {
                            Self::seal_done(sender, Err(Error::EmptyTransactionPool))
                        } else {
                            Self::seal_on(
                                request,
                                sender,
                                Stage::Import { block: block.hash },
                                Effect::ImportBlock(
                                    own_block_params(block.hash, request.finalize, epoch_descriptor),
                                ),
                            )
                        }
                    },
                    Err(cause) => Self::seal_done(sender, Err(Error::Proposer(cause))),
                }
            },
            (Stage::Import { block }, Event::Imported(verdict)) => Self::seal_done(
                sender,
                import_outcome(block, verdict),
            ),
            (stage, event) => (Engine::Sealing { request, sender, stage }, Effect::Rejected(event)),
        }
    }

    /// The transition of the engine: the state after `event` and the effect asked for.
    ///
    /// An idle engine takes a command and asks for the first effect of it; when the
    /// source of commands ends, it stops. An engine at work takes the answer that it
    /// waits for. On any other event, a command to an engine at work included, the
    /// engine stays as it is and hands the event back.
    pub open spec fn next(self, event: Event<Hash, S, F, D>) -> (Self, Effect<Hash, S, F, D>) {
        match self {
            Engine::Idle => match event {
                Event::Command(
                    EngineCommand::SealNewBlock { create_empty, finalize, parent_hash, sender },
                ) => Self::seal_on(
                    SealRequest { create_empty, finalize, parent_hash },
                    sender,
                    Stage::Pool,
                    Effect::PoolStatus,
                ),
                Event::Command(EngineCommand::FinalizeBlock { hash, sender, justification }) => (
                    Engine::Finalizing { sender },
                    Effect::FinalizeBlock { hash, justification },
                ),
                Event::CommandsEnded => (Engine::Stopped, Effect::Finished),
                other => (Engine::Idle, Effect::Rejected(other)),
            },
            Engine::Sealing { request, sender, stage } => Self::seal_next(
                request,
                sender,
                stage,
                event,
            ),
            Engine::Finalizing { sender } => match event {
                Event::Finalized(answer) => (
                    Engine::Idle,
                    Effect::FinalizeDone { sender, result: finalize_outcome(answer) },
                ),
                other => (Engine::Finalizing { sender }, Effect::Rejected(other)),
            },
            Engine::Stopped => (Engine::Stopped, Effect::Rejected(event)),
        }
    }
}

impl<Hash: Copy, S, F, D> Engine<Hash, S, F, D> {
    /// An engine that waits for its first command.
    pub fn new() -> (engine: Self)
        ensures
            engine == Engine::<Hash, S, F, D>::Idle,
    {
        Engine::Idle
    }

    /// Whether the engine waits for a command.
    pub fn is_idle(&self) -> (idle: bool)
        ensures
            idle == (*self is Idle),
    {
        match self {
            Engine::Idle => true,
            _ => false,
        }
    }

    /// Takes the engine from one state to the next.
    ///
    /// Returns the state after `event` and the effect that is to be performed next. The
    /// outcome of that effect is the event of the next call. After `SealDone` and after
    /// `FinalizeDone` the engine is idle and the next event is the next command.
    pub fn handle(self, event: Event<Hash, S, F, D>) -> (r: (Self, Effect<Hash, S, F, D>))
        ensures
            r == self.next(event),
    {
        match self {
            Engine::Idle => match event {
                Event::Command(
                    EngineCommand::SealNewBlock { create_empty, finalize, parent_hash, sender },
                ) => (
                    Engine::Sealing {
                        request: SealRequest { create_empty, finalize, parent_hash },
                        sender,
                        stage: Stage::Pool,
                    },
                    Effect::PoolStatus,
                ),
                Event::Command(EngineCommand::FinalizeBlock { hash, sender, justification }) => (
                    Engine::Finalizing { sender },
                    Effect::FinalizeBlock { hash, justification },
                ),
                Event::CommandsEnded => (Engine::Stopped, Effect::Finished),
                other => (Engine::Idle, Effect::Rejected(other)),
            },
            Engine::Sealing { request, sender, stage } => Self::handle_seal(
                request,
                sender,
                stage,
                event,
            ),
            Engine::Finalizing { sender } => match event {
                Event::Finalized(answer) => {
                    let result = match answer {
                        Ok(()) => Ok(()),
                        Err(cause) => Err(Error::Blockchain(cause)),
                    };
                    (Engine::Idle, Effect::FinalizeDone { sender, result })
                },
                other => (Engine::Finalizing { sender }, Effect::Rejected(other)),
            },
            Engine::Stopped => (Engine::Stopped, Effect::Rejected(event)),
        }
    }

    /// The step of an engine that works on a seal.
    fn handle_seal(
        request: SealRequest<Hash>,
        sender: Option<S>,
        stage: Stage<Hash, D>,
        event: Event<Hash, S, F, D>,
    ) -> (r: (Self, Effect<Hash, S, F, D>))
        ensures
            r == Self::seal_next(request, sender, stage, event),
    {
        match (stage, event) {
            (Stage::Pool, Event::PoolStatus { ready }) => {
                if ready == 0 && !request.create_empty {
                    Self::finish(sender, Err(Error::EmptyTransactionPool))
                } else {
                    let effect = match request.parent_hash {
                        Some(hash) => Effect::HeaderByHash(hash),
                        None => Effect::BestHeader,
                    };
                    (Engine::Sealing { request, sender, stage: Stage::Parent }, effect)
                }
            },
            (Stage::Parent, Event::HeaderByHash(lookup)) => match request.parent_hash {
                Some(hash) => match lookup {
                    Lookup::Found(parent) => (
                        Engine::Sealing { request, sender, stage: Stage::Proposer { parent } },
                        Effect::InitProposer(parent),
                    ),
                    Lookup::Missing => Self::finish(sender, Err(Error::BlockNotFound(hash))),
                    Lookup::Failed(cause) => Self::finish(sender, Err(Error::Blockchain(cause))),
                },
                None => (
                    Engine::Sealing { request, sender, stage: Stage::Parent },
                    Effect::Rejected(Event::HeaderByHash(lookup)),
                ),
            },
            (Stage::Parent, Event::BestHeader(answer)) => match request.parent_hash {
                None => match answer {
                    Ok(parent) => (
                        Engine::Sealing { request, sender, stage: Stage::Proposer { parent } },
                        Effect::InitProposer(parent),
                    ),
                    Err(cause) => Self::finish(sender, Err(Error::Consensus(cause))),
                },
                Some(_) => (
                    Engine::Sealing { request, sender, stage: Stage::Parent },
                    Effect::Rejected(Event::BestHeader(answer)),
                ),
            },
            (Stage::Proposer { parent }, Event::ProposerInit(answer)) => match answer {
                Ok(()) => (
                    Engine::Sealing { request, sender, stage: Stage::Inherents { parent } },
                    Effect::CreateInherentData,
                ),
                Err(cause) => Self::finish(sender, Err(Error::Proposer(cause))),
            },
            (Stage::Inherents { parent }, Event::InherentData(answer)) => match answer {
                Ok(inherents) => (
                    Engine::Sealing {
                        request,
                        sender,
                        stage: Stage::Claim { inherents_len: inherents.len },
                    },
                    Effect::ResolveAndClaim { parent, slot_number: inherents.slot_number },
                ),
                Err(cause) => Self::finish(sender, Err(Error::Inherents(cause))),
            },
            (Stage::Claim { inherents_len }, Event::SlotClaimed(answer)) => match answer {
                Ok(claim) => (
                    Engine::Sealing {
                        request,
                        sender,
                        stage: Stage::Proposal {
                            inherents_len,
                            epoch_descriptor: claim.epoch_descriptor,
                        },
                    },
                    Effect::Propose {
                        digest: claim.digest,
                        max_duration: MAX_PROPOSAL_DURATION,
                        record_proof: false,
                    },
                ),
                Err(error) => Self::finish(sender, Err(error)),
            },
            (Stage::Proposal { inherents_len, epoch_descriptor }, Event::Proposed(answer)) => {
                match answer {
                    Ok(block) => {
                        if block.extrinsics == inherents_len && !request.create_empty {
                            Self::finish(sender, Err(Error::EmptyTransactionPool))
                        } else {
                            let mut params = BlockImportParams::new(BlockOrigin::Own, block.hash);
                            params.body = true;
                            params.finalized = request.finalize;
                            params.fork_choice = Some(ForkChoiceStrategy::LongestChain);
                            params.intermediate = Some(Intermediate::Babe { epoch_descriptor });
                            (
                                Engine::Sealing {
                                    request,
                                    sender,
                                    stage: Stage::Import { block: block.hash },
                                },
                                Effect::ImportBlock(params),
                            )
                        }
                    },
                    Err(cause) => Self::finish(sender, Err(Error::Proposer(cause))),
                }
            },
            (Stage::Import { block }, Event::Imported(verdict)) => {
                let result = match verdict {
                    Ok(ImportResult::Imported(aux)) => Ok(CreatedBlock { hash: block, aux }),
                    Ok(other) => Err(Error::BlockImport(other)),
                    Err(cause) => Err(Error::Consensus(cause)),
                };
                Self::finish(sender, result)
            },
            (stage, event) => (Engine::Sealing { request, sender, stage }, Effect::Rejected(event)),
        }
    }

    /// Ends the work on a seal.
    fn finish(sender: Option<S>, result: Result<CreatedBlock<Hash>, Error<Hash>>) -> (r: (
        Self,
        Effect<Hash, S, F, D>,
    ))
        ensures
            r == Self::seal_done(sender, result),
    {
        (Engine::Idle, Effect::SealDone { sender, result })
    }
}

} // verus!
