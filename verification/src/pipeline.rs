//! What sealing a block amounts to, stated over the answers of the node's services,
//! and the proof that the engine does exactly that.
//!
//! The engine works step by step: it asks for one effect and takes one answer. Here the
//! same work is written down at once: given what each service would answer, which
//! services are asked, in which order, and what the caller gets in the end.

use vstd::prelude::*;
use crate::babe::SlotClaim;
use crate::consensus::{ImportResult, Inherents, Lookup, ParentHeader, Proposal};
use crate::engine::{
    finalize_outcome, import_outcome, own_block_params, Effect, Engine, Event, SealRequest,
    MAX_PROPOSAL_DURATION,
};
use crate::error::Error;
use crate::rpc::{CreatedBlock, EngineCommand};

verus! {

/// What each service of the node answers while one command is worked on.
pub struct Services<Hash, D> {
    /// The number of transactions that are ready in the pool.
    pub pool_ready: usize,
    /// The header store, asked for the parent that the command names.
    pub header_by_hash: Lookup<ParentHeader<Hash>>,
    /// Chain selection, asked for the best header.
    pub best_header: Result<ParentHeader<Hash>, String>,
    /// Setting up the proposer on the parent.
    pub proposer_init: Result<(), String>,
    /// Making the inherent data.
    pub inherent_data: Result<Inherents, String>,
    /// Resolving and claiming the slot.
    pub slot_claim: Result<SlotClaim<D>, Error<Hash>>,
    /// The proposer, asked to build the block.
    pub proposal: Result<Proposal<Hash>, String>,
    /// The import pipeline, handed the block.
    pub import: Result<ImportResult, String>,
    /// The finalizer, asked to finalize a block.
    pub finalize: Result<(), String>,
}

/// Whether no block can be authored for want of transactions: nothing is ready and an
/// empty block was not asked for.
pub open spec fn pool_refuses<Hash, D>(request: SealRequest<Hash>, services: Services<Hash, D>) -> bool {
    services.pool_ready == 0 && !request.create_empty
}

/// The header that a seal builds on: the one that the request names, if it names one,
/// else the best header of the chain.
pub open spec fn parent_header<Hash, D>(
    request: SealRequest<Hash>,
    services: Services<Hash, D>,
) -> Result<ParentHeader<Hash>, Error<Hash>> {
    match request.parent_hash {
        Some(hash) => match services.header_by_hash {
            Lookup::Found(parent) => Ok(parent),
            Lookup::Missing => Err(Error::BlockNotFound(hash)),
            Lookup::Failed(cause) => Err(Error::Blockchain(cause)),
        },
        None => match services.best_header {
            Ok(parent) => Ok(parent),
            Err(cause) => Err(Error::Consensus(cause)),
        },
    }
}

/// Whether the block that the proposer built holds nothing but its inherents although
/// an empty block was not asked for.
pub open spec fn block_is_empty<Hash>(
    request: SealRequest<Hash>,
    inherents: Inherents,
    block: Proposal<Hash>,
) -> bool {
    block.extrinsics == inherents.len && !request.create_empty
}

/// What the caller of a seal gets.
///
/// The services are consulted in a fixed order and the first failure is the result:
/// the pool, the parent, the proposer, the inherent data, the slot, the proposal, the
/// check that the block is not empty against the caller's wish, and the import.
pub open spec fn seal_outcome<Hash, D>(
    request: SealRequest<Hash>,
    services: Services<Hash, D>,
) -> Result<CreatedBlock<Hash>, Error<Hash>> {
    if pool_refuses(request, services) {
        Err(Error::EmptyTransactionPool)
    } else {
        match (
            parent_header(request, services),
            services.proposer_init,
            services.inherent_data,
            services.slot_claim,
            services.proposal,
        ) {
            (Err(error), _, _, _, _) => Err(error),
            (Ok(_), Err(cause), _, _, _) => Err(Error::Proposer(cause)),
            (Ok(_), Ok(_), Err(cause), _, _) => Err(Error::Inherents(cause)),
            (Ok(_), Ok(_), Ok(_), Err(error), _) => Err(error),
            (Ok(_), Ok(_), Ok(_), Ok(_), Err(cause)) => Err(Error::Proposer(cause)),
            (Ok(_), Ok(_), Ok(inherents), Ok(_), Ok(block)) => {
                if block_is_empty(request, inherents, block) {
                    Err(Error::EmptyTransactionPool)
                } else {
                    import_outcome(block.hash, services.import)
                }
            },
        }
    }
}

/// The effect that asks for the parent of a seal.
pub open spec fn parent_query<Hash, S, F, D>(request: SealRequest<Hash>) -> Effect<Hash, S, F, D> {
    match request.parent_hash {
        Some(hash) => Effect::HeaderByHash(hash),
        None => Effect::BestHeader,
    }
}

/// The services that a seal asks, in order, each as the effect that asks it.
///
/// A service is asked exactly if all that were asked before it succeeded; the import
/// pipeline, in addition, only if the block is not empty against the caller's wish.
pub open spec fn seal_effects<Hash, S, F, D>(
    request: SealRequest<Hash>,
    services: Services<Hash, D>,
) -> Seq<Effect<Hash, S, F, D>> {
    let pool = seq![Effect::PoolStatus];
    if pool_refuses(request, services) {
        pool
    } else {
        let asked = pool.push(parent_query(request));
        match (
            parent_header(request, services),
            services.proposer_init,
            services.inherent_data,
            services.slot_claim,
            services.proposal,
        ) {
            (Err(_), _, _, _, _) => asked,
            (Ok(parent), Err(_), _, _, _) => asked.push(Effect::InitProposer(parent)),
            (Ok(parent), Ok(_), Err(_), _, _) => asked.push(Effect::InitProposer(parent)).push(
                Effect::CreateInherentData,
            ),
            (Ok(parent), Ok(_), Ok(inherents), Err(_), _) => asked.push(
                Effect::InitProposer(parent),
            ).push(Effect::CreateInherentData).push(
                Effect::ResolveAndClaim { parent, slot_number: inherents.slot_number },
            ),
            (Ok(parent), Ok(_), Ok(inherents), Ok(claim), proposal) => {
                let proposed = asked.push(Effect::InitProposer(parent)).push(
                    Effect::CreateInherentData,
                ).push(
                    Effect::ResolveAndClaim { parent, slot_number: inherents.slot_number },
                ).push(
                    Effect::Propose {
                        digest: claim.digest,
                        max_duration: MAX_PROPOSAL_DURATION,
                        record_proof: false,
                    },
                );
                match proposal {
                    Err(_) => proposed,
                    Ok(block) => {
                        if block_is_empty(request, inherents, block) {
                            proposed
                        } else {
                            proposed.push(
                                Effect::ImportBlock(
                                    own_block_params(
                                        block.hash,
                                        request.finalize,
                                        claim.epoch_descriptor,
                                    ),
                                ),
                            )
                        }
                    },
                }
            },
        }
    }
}

/// All that a command brings about: the services asked, in order, and at the end the
/// result on its way to the caller.
pub open spec fn command_effects<Hash, S, F, D>(
    command: EngineCommand<Hash, S, F>,
    services: Services<Hash, D>,
) -> Seq<Effect<Hash, S, F, D>> {
    match command {
        EngineCommand::SealNewBlock { create_empty, finalize, parent_hash, sender } => {
            let request = SealRequest { create_empty, finalize, parent_hash };
            seal_effects(request, services).push(
                Effect::SealDone { sender, result: seal_outcome(request, services) },
            )
        },
        EngineCommand::FinalizeBlock { hash, sender, justification } => seq![
            Effect::FinalizeBlock { hash, justification },
            Effect::FinalizeDone { sender, result: finalize_outcome(services.finalize) },
        ],
    }
}

/// Whether the effect asks a service, so that an answer is due.
pub open spec fn asks_service<Hash, S, F, D>(effect: Effect<Hash, S, F, D>) -> bool {
    !(effect is SealDone || effect is FinalizeDone || effect is Finished || effect is Rejected)
}

/// The event that reports what the service asked by `effect` answers.
pub open spec fn answer<Hash, S, F, D>(
    services: Services<Hash, D>,
    effect: Effect<Hash, S, F, D>,
) -> Event<Hash, S, F, D>
    recommends
        asks_service(effect),
{
    match effect {
        Effect::PoolStatus => Event::PoolStatus { ready: services.pool_ready },
        Effect::HeaderByHash(_) => Event::HeaderByHash(services.header_by_hash),
        Effect::BestHeader => Event::BestHeader(services.best_header),
        Effect::InitProposer(_) => Event::ProposerInit(services.proposer_init),
        Effect::CreateInherentData => Event::InherentData(services.inherent_data),
        Effect::ResolveAndClaim { .. } => Event::SlotClaimed(services.slot_claim),
        Effect::Propose { .. } => Event::Proposed(services.proposal),
        Effect::ImportBlock(_) => Event::Imported(services.import),
        _ => Event::Finalized(services.finalize),
    }
}

/// Drives the engine through one command: performs `effect` and every effect that the
/// engine asks for after it, `steps` answers at most, until an effect asks no service.
/// Returns the engine at the end and the effects performed, in order.
pub open spec fn run<Hash, S, F, D>(
    engine: Engine<Hash, S, F, D>,
    effect: Effect<Hash, S, F, D>,
    services: Services<Hash, D>,
    steps: nat,
) -> (Engine<Hash, S, F, D>, Seq<Effect<Hash, S, F, D>>)
    decreases steps,
{
    if steps == 0 || !asks_service(effect) {
        (engine, seq![effect])
    } else {
        let (engine, asked) = engine.next(answer(services, effect));
        let (engine, effects) = run(engine, asked, services, (steps - 1) as nat);
        (engine, seq![effect] + effects)
    }
}

/// The largest number of services that one command asks.
pub open spec fn max_steps() -> nat {
    7
}

/// Serves the commands one after the other: each is handed to the engine as it stands
/// after the command before, and is driven to its end with the answers of its services.
/// Returns the engine at the end and the effects performed, in order.
pub open spec fn serve<Hash, S, F, D>(
    engine: Engine<Hash, S, F, D>,
    commands: Seq<EngineCommand<Hash, S, F>>,
    services: Seq<Services<Hash, D>>,
) -> (Engine<Hash, S, F, D>, Seq<Effect<Hash, S, F, D>>)
    recommends
        commands.len() == services.len(),
    decreases commands.len(),
{
    if commands.len() == 0 {
        (engine, Seq::empty())
    } else {
        let (engine, first) = engine.next(Event::Command(commands[0]));
        let (engine, effects) = run(engine, first, services[0], max_steps());
        let (engine, rest) = serve(engine, commands.drop_first(), services.drop_first());
        (engine, effects + rest)
    }
}

/// All that the commands bring about when they are worked on in order.
pub open spec fn commands_effects<Hash, S, F, D>(
    commands: Seq<EngineCommand<Hash, S, F>>,
    services: Seq<Services<Hash, D>>,
) -> Seq<Effect<Hash, S, F, D>>
    recommends
        commands.len() == services.len(),
    decreases commands.len(),
{
    if commands.len() == 0 {
        Seq::empty()
    } else {
        command_effects(commands[0], services[0]) + commands_effects(
            commands.drop_first(),
            services.drop_first(),
        )
    }
}

/// An idle engine that takes a command and gets the answers of the services ends idle,
/// having asked exactly the services that the command calls for, in their order, and
/// having handed the result to the caller of the command as its last effect.
pub proof fn law_command_runs_to_its_outcome<Hash, S, F, D>(
    command: EngineCommand<Hash, S, F>,
    services: Services<Hash, D>,
)
    ensures
        ({
            let (engine, first) = Engine::<Hash, S, F, D>::Idle.next(Event::Command(command));
            run(engine, first, services, max_steps())
        }) == (Engine::<Hash, S, F, D>::Idle, command_effects::<Hash, S, F, D>(command, services)),
{
    reveal_with_fuel(run, 9);
    let (engine, first) = Engine::<Hash, S, F, D>::Idle.next(Event::Command(command));
    let got = run(engine, first, services, max_steps());
    let want = command_effects::<Hash, S, F, D>(command, services);
    assert(got.1 =~= want);
}

/// An engine at work takes no command: the command is handed back and the engine stays
/// as it is. So the work on one command never overlaps with the work on another, and
/// no two blocks are ever being built at once.
pub proof fn law_one_command_at_a_time<Hash, S, F, D>(
    engine: Engine<Hash, S, F, D>,
    command: EngineCommand<Hash, S, F>,
)
    requires
        !(engine is Idle),
    ensures
        engine.next(Event::Command(command)) == (
            engine,
            Effect::<Hash, S, F, D>::Rejected(Event::Command(command)),
        ),
{
}

/// Commands are worked on strictly in the order in which they arrive: all that the
/// first brings about, its result included, comes before anything of the second, and
/// so on; and the engine is idle again when the last is done.
pub proof fn law_commands_in_order<Hash, S, F, D>(
    commands: Seq<EngineCommand<Hash, S, F>>,
    services: Seq<Services<Hash, D>>,
)
    requires
        commands.len() == services.len(),
    ensures
        serve(Engine::<Hash, S, F, D>::Idle, commands, services) == (
            Engine::<Hash, S, F, D>::Idle,
            commands_effects::<Hash, S, F, D>(commands, services),
        ),
    decreases commands.len(),
{
    if commands.len() > 0 {
        law_command_runs_to_its_outcome::<Hash, S, F, D>(commands[0], services[0]);
        law_commands_in_order::<Hash, S, F, D>(commands.drop_first(), services.drop_first());
    }
}

/// A seal for which empty blocks were asked for is never refused for want of
/// transactions, unless the service that claims the slot itself said so. Where it
/// succeeds, the proposer was set up on the parent that the request names, or on the
/// best header if it names none, and the block returned is the block that the
/// proposer built.
pub proof fn law_empty_blocks_on_request<Hash, S, F, D>(
    request: SealRequest<Hash>,
    services: Services<Hash, D>,
)
    requires
        request.create_empty,
    ensures
        seal_outcome(request, services) == Err::<CreatedBlock<Hash>, Error<Hash>>(
            Error::EmptyTransactionPool,
        ) ==> services.slot_claim == Err::<SlotClaim<D>, Error<Hash>>(Error::EmptyTransactionPool),
        seal_outcome(request, services) matches Ok(created) ==> {
            &&& parent_header(request, services) matches Ok(parent)
            &&& seal_effects::<Hash, S, F, D>(request, services)[2] == Effect::<
                Hash,
                S,
                F,
                D,
            >::InitProposer(parent)
            &&& services.proposal matches Ok(block)
            &&& created.hash == block.hash
        },
{
}

/// With nothing ready in the pool, a seal for which empty blocks were not asked for is
/// refused whatever the other services would answer, and nothing but the pool is
/// asked: no block is built and none is imported.
pub proof fn law_empty_pool_refused<Hash, S, F, D>(
    request: SealRequest<Hash>,
    services: Services<Hash, D>,
)
    requires
        services.pool_ready == 0,
        !request.create_empty,
    ensures
        seal_outcome(request, services) == Err::<CreatedBlock<Hash>, Error<Hash>>(
            Error::EmptyTransactionPool,
        ),
        seal_effects::<Hash, S, F, D>(request, services) == seq![
            Effect::<Hash, S, F, D>::PoolStatus,
        ],
{
}

/// Whenever a seal is refused for want of transactions, before the block was built or
/// after, nothing is handed to the import pipeline.
pub proof fn law_refused_seal_imports_nothing<Hash, S, F, D>(
    request: SealRequest<Hash>,
    services: Services<Hash, D>,
    i: int,
)
    requires
        seal_outcome(request, services) == Err::<CreatedBlock<Hash>, Error<Hash>>(
            Error::EmptyTransactionPool,
        ),
        0 <= i < seal_effects::<Hash, S, F, D>(request, services).len(),
    ensures
        !(seal_effects::<Hash, S, F, D>(request, services)[i] is ImportBlock),
{
}

/// A seal on a parent that the header store does not know is answered with
/// `BlockNotFound` and the hash named. Only the pool and the header store were asked:
/// no proposer was set up and nothing was built.
///
/// The pool is asked first, so this is said of the seals that the pool does not refuse.
pub proof fn law_unknown_parent_not_found<Hash, S, F, D>(
    request: SealRequest<Hash>,
    services: Services<Hash, D>,
    hash: Hash,
)
    requires
        request.parent_hash == Some(hash),
        services.header_by_hash is Missing,
        !pool_refuses(request, services),
    ensures
        seal_outcome(request, services) == Err::<CreatedBlock<Hash>, Error<Hash>>(
            Error::BlockNotFound(hash),
        ),
        seal_effects::<Hash, S, F, D>(request, services) == seq![
            Effect::<Hash, S, F, D>::PoolStatus,
            Effect::<Hash, S, F, D>::HeaderByHash(hash),
        ],
{
}

/// No failure of a command stops the engine: whatever happens, the engine stops only
/// if it is idle and the source of commands ends, and once stopped it stays stopped.
pub proof fn law_engine_stops_when_commands_end<Hash, S, F, D>(
    engine: Engine<Hash, S, F, D>,
    event: Event<Hash, S, F, D>,
)
    ensures
        engine.next(event).0 is Stopped <==> engine is Stopped || (engine is Idle && event
            is CommandsEnded),
        engine is Idle && event is CommandsEnded ==> engine.next(event).1 is Finished,
{
}

/// Every command leads to exactly one result, and the result is the last thing that the
/// command brings about: all effects before it ask a service, and it goes to the caller
/// that sent the command.
pub proof fn law_one_result_per_command<Hash, S, F, D>(
    command: EngineCommand<Hash, S, F>,
    services: Services<Hash, D>,
)
    ensures
        ({
            let effects = command_effects::<Hash, S, F, D>(command, services);
            &&& effects.len() >= 2
            &&& forall|i: int| 0 <= i < effects.len() - 1 ==> asks_service(#[trigger] effects[i])
            &&& match command {
                EngineCommand::SealNewBlock { sender, .. } => effects.last() matches Effect::SealDone {
                    sender: to,
                    ..
                } && to == sender,
                EngineCommand::FinalizeBlock { sender, .. } => effects.last() matches Effect::FinalizeDone {
                    sender: to,
                    ..
                } && to == sender,
            }
        }),
{
}

} // verus!
