use manual_seal::babe::SlotClaim;
use manual_seal::consensus::{
    BlockImportParams, BlockOrigin, Digest, DigestItem, ForkChoiceStrategy, ImportResult,
    ImportedAux, Inherents, Intermediate, Lookup, ParentHeader, Proposal, BABE_ENGINE_ID,
};
use manual_seal::engine::{Effect, Engine, Event, SealRequest, Stage, MAX_PROPOSAL_DURATION};
use manual_seal::error::Error;
use manual_seal::rpc::{CreatedBlock, EngineCommand};

type TestEngine = Engine<u64, u32, u32, u8>;
type TestEvent = Event<u64, u32, u32, u8>;
type TestEffect = Effect<u64, u32, u32, u8>;

fn seal(create_empty: bool, finalize: bool, parent_hash: Option<u64>, sender: Option<u32>) -> TestEvent {
    Event::Command(EngineCommand::SealNewBlock { create_empty, finalize, parent_hash, sender })
}

fn digest() -> Digest {
    Digest { logs: vec![DigestItem::PreRuntime(BABE_ENGINE_ID, vec![1, 2, 3])] }
}

fn aux() -> ImportedAux {
    ImportedAux {
        header_only: false,
        clear_justification_requests: false,
        needs_justification: false,
        bad_justification: false,
        needs_finality_proof: false,
        is_new_best: true,
    }
}

/// The events of a seal on which every service succeeds, after the command.
fn good_answers(parent: ParentHeader<u64>, by_hash: bool) -> Vec<TestEvent> {
    vec![
        Event::PoolStatus { ready: 2 },
        if by_hash { Event::HeaderByHash(Lookup::Found(parent)) } else { Event::BestHeader(Ok(parent)) },
        Event::ProposerInit(Ok(())),
        Event::InherentData(Ok(Inherents { len: 2, slot_number: 77 })),
        Event::SlotClaimed(Ok(SlotClaim { digest: digest(), epoch_descriptor: 9 })),
        Event::Proposed(Ok(Proposal { hash: 500, extrinsics: 4 })),
        Event::Imported(Ok(ImportResult::Imported(aux()))),
    ]
}

/// Hands the events to the engine one by one and collects the effects.
fn drive(engine: TestEngine, events: Vec<TestEvent>) -> (TestEngine, Vec<TestEffect>) {
    let mut engine = engine;
    let mut effects = Vec::new();
    for event in events {
        let (next, effect) = engine.handle(event);
        engine = next;
        effects.push(effect);
    }
    (engine, effects)
}

#[test]
fn new_engine_is_idle() {
    let engine = TestEngine::new();
    assert!(engine.is_idle());
    assert_eq!(engine, Engine::Idle);
}

#[test]
fn seal_on_named_parent_runs_through_every_service() {
    let parent = ParentHeader { hash: 40, number: 7 };
    let mut events = vec![seal(false, true, Some(40), Some(11))];
    events.extend(good_answers(parent, true));
    let (engine, effects) = drive(TestEngine::new(), events);
    assert!(engine.is_idle());
    assert_eq!(
        effects,
        vec![
            Effect::PoolStatus,
            Effect::HeaderByHash(40),
            Effect::InitProposer(parent),
            Effect::CreateInherentData,
            Effect::ResolveAndClaim { parent, slot_number: 77 },
            Effect::Propose { digest: digest(), max_duration: 10, record_proof: false },
            Effect::ImportBlock(BlockImportParams {
                origin: BlockOrigin::Own,
                header: 500,
                body: true,
                finalized: true,
                fork_choice: Some(ForkChoiceStrategy::LongestChain),
                intermediate: Some(Intermediate::Babe { epoch_descriptor: 9 }),
            }),
            Effect::SealDone { sender: Some(11), result: Ok(CreatedBlock { hash: 500, aux: aux() }) },
        ]
    );
}

#[test]
fn seal_without_parent_builds_on_best_header() {
    let parent = ParentHeader { hash: 41, number: 8 };
    let mut events = vec![seal(true, false, None, None)];
    events.extend(good_answers(parent, false));
    let (engine, effects) = drive(TestEngine::new(), events);
    assert!(engine.is_idle());
    assert_eq!(effects[1], Effect::BestHeader);
    assert_eq!(effects[2], Effect::InitProposer(parent));
    match &effects[6] {
        Effect::ImportBlock(params) => assert!(!params.finalized),
        other => panic!("unexpected effect {:?}", other),
    }
    assert_eq!(
        effects[7],
        Effect::SealDone { sender: None, result: Ok(CreatedBlock { hash: 500, aux: aux() }) }
    );
}

#[test]
fn max_proposal_duration_is_ten_seconds() {
    assert_eq!(MAX_PROPOSAL_DURATION, 10);
}

#[test]
fn empty_pool_refuses_seal_and_imports_nothing() {
    let (engine, effects) = drive(
        TestEngine::new(),
        vec![seal(false, false, Some(40), Some(1)), Event::PoolStatus { ready: 0 }],
    );
    assert!(engine.is_idle());
    assert_eq!(
        effects,
        vec![
            Effect::PoolStatus,
            Effect::SealDone { sender: Some(1), result: Err(Error::EmptyTransactionPool) },
        ]
    );
}

#[test]
fn empty_pool_is_no_obstacle_when_empty_blocks_are_asked_for() {
    let (engine, effects) = drive(
        TestEngine::new(),
        vec![seal(true, false, Some(40), Some(1)), Event::PoolStatus { ready: 0 }],
    );
    assert!(!engine.is_idle());
    assert_eq!(effects[1], Effect::HeaderByHash(40));
}

#[test]
fn unknown_parent_is_block_not_found_without_proposer() {
    let (engine, effects) = drive(
        TestEngine::new(),
        vec![
            seal(true, false, Some(0xdead), Some(3)),
            Event::PoolStatus { ready: 5 },
            Event::HeaderByHash(Lookup::Missing),
        ],
    );
    assert!(engine.is_idle());
    assert_eq!(
        effects,
        vec![
            Effect::PoolStatus,
            Effect::HeaderByHash(0xdead),
            Effect::SealDone { sender: Some(3), result: Err(Error::BlockNotFound(0xdead)) },
        ]
    );
}

#[test]
fn empty_pool_is_reported_before_unknown_parent() {
    let (_, effects) = drive(
        TestEngine::new(),
        vec![seal(false, false, Some(0xdead), Some(3)), Event::PoolStatus { ready: 0 }],
    );
    assert_eq!(
        effects[1],
        Effect::SealDone { sender: Some(3), result: Err(Error::EmptyTransactionPool) }
    );
}

#[test]
fn header_store_failure_is_blockchain_error() {
    let (engine, effects) = drive(
        TestEngine::new(),
        vec![
            seal(true, false, Some(1), Some(3)),
            Event::PoolStatus { ready: 5 },
            Event::HeaderByHash(Lookup::Failed("db gone".to_string())),
        ],
    );
    assert!(engine.is_idle());
    assert_eq!(
        effects[2],
        Effect::SealDone { sender: Some(3), result: Err(Error::Blockchain("db gone".to_string())) }
    );
}

#[test]
fn chain_selection_failure_is_consensus_error() {
    let (_, effects) = drive(
        TestEngine::new(),
        vec![
            seal(true, false, None, Some(3)),
            Event::PoolStatus { ready: 5 },
            Event::BestHeader(Err("no best".to_string())),
        ],
    );
    assert_eq!(
        effects[2],
        Effect::SealDone { sender: Some(3), result: Err(Error::Consensus("no best".to_string())) }
    );
}

#[test]
fn proposer_init_failure_is_proposer_error() {
    let parent = ParentHeader { hash: 1, number: 1 };
    let (_, effects) = drive(
        TestEngine::new(),
        vec![
            seal(true, false, None, Some(3)),
            Event::PoolStatus { ready: 5 },
            Event::BestHeader(Ok(parent)),
            Event::ProposerInit(Err("init".to_string())),
        ],
    );
    assert_eq!(
        effects[3],
        Effect::SealDone { sender: Some(3), result: Err(Error::Proposer("init".to_string())) }
    );
}

#[test]
fn inherent_data_failure_is_inherents_error() {
    let parent = ParentHeader { hash: 1, number: 1 };
    let (_, effects) = drive(
        TestEngine::new(),
        vec![
            seal(true, false, None, Some(3)),
            Event::PoolStatus { ready: 5 },
            Event::BestHeader(Ok(parent)),
            Event::ProposerInit(Ok(())),
            Event::InherentData(Err("no slot".to_string())),
        ],
    );
    assert_eq!(
        effects[4],
        Effect::SealDone { sender: Some(3), result: Err(Error::Inherents("no slot".to_string())) }
    );
}

#[test]
fn slot_claim_failure_is_handed_on_as_it_is() {
    let parent = ParentHeader { hash: 1, number: 1 };
    for error in [Error::InvalidAuthoritySet, Error::SlotClaimFailed] {
        let expected = match &error {
            Error::InvalidAuthoritySet => Error::InvalidAuthoritySet,
            _ => Error::SlotClaimFailed,
        };
        let (engine, effects) = drive(
            TestEngine::new(),
            vec![
                seal(true, false, None, Some(3)),
                Event::PoolStatus { ready: 5 },
                Event::BestHeader(Ok(parent)),
                Event::ProposerInit(Ok(())),
                Event::InherentData(Ok(Inherents { len: 1, slot_number: 3 })),
                Event::SlotClaimed(Err(error)),
            ],
        );
        assert!(engine.is_idle());
        assert_eq!(effects[5], Effect::SealDone { sender: Some(3), result: Err(expected) });
    }
}

fn until_proposal(create_empty: bool) -> Vec<TestEvent> {
    vec![
        seal(create_empty, false, None, Some(3)),
        Event::PoolStatus { ready: 5 },
        Event::BestHeader(Ok(ParentHeader { hash: 1, number: 1 })),
        Event::ProposerInit(Ok(())),
        Event::InherentData(Ok(Inherents { len: 2, slot_number: 3 })),
        Event::SlotClaimed(Ok(SlotClaim { digest: digest(), epoch_descriptor: 0 })),
    ]
}

#[test]
fn proposer_failure_is_proposer_error() {
    let mut events = until_proposal(true);
    events.push(Event::Proposed(Err("out of time".to_string())));
    let (_, effects) = drive(TestEngine::new(), events);
    assert_eq!(
        effects[6],
        Effect::SealDone { sender: Some(3), result: Err(Error::Proposer("out of time".to_string())) }
    );
}

#[test]
fn block_of_inherents_only_is_refused_after_proposing() {
    let mut events = until_proposal(false);
    events.push(Event::Proposed(Ok(Proposal { hash: 9, extrinsics: 2 })));
    let (engine, effects) = drive(TestEngine::new(), events);
    assert!(engine.is_idle());
    assert_eq!(effects.len(), 7);
    assert_eq!(
        effects[6],
        Effect::SealDone { sender: Some(3), result: Err(Error::EmptyTransactionPool) }
    );
}

#[test]
fn block_of_inherents_only_is_imported_when_empty_blocks_are_asked_for() {
    let mut events = until_proposal(true);
    events.push(Event::Proposed(Ok(Proposal { hash: 9, extrinsics: 2 })));
    let (engine, effects) = drive(TestEngine::new(), events);
    assert_eq!(
        engine,
        Engine::Sealing {
            request: SealRequest { create_empty: true, finalize: false, parent_hash: None },
            sender: Some(3),
            stage: Stage::Import { block: 9 },
        }
    );
    assert!(matches!(effects[6], Effect::ImportBlock(_)));
}

#[test]
fn import_outcomes_other_than_imported_are_errors() {
    for outcome in [
        ImportResult::AlreadyInChain,
        ImportResult::KnownBad,
        ImportResult::UnknownParent,
        ImportResult::MissingState,
    ] {
        let mut events = until_proposal(true);
        events.push(Event::Proposed(Ok(Proposal { hash: 9, extrinsics: 3 })));
        events.push(Event::Imported(Ok(outcome)));
        let (engine, effects) = drive(TestEngine::new(), events);
        assert!(engine.is_idle());
        assert_eq!(
            effects[7],
            Effect::SealDone { sender: Some(3), result: Err(Error::BlockImport(outcome)) }
        );
    }
}

#[test]
fn import_pipeline_failure_is_consensus_error() {
    let mut events = until_proposal(true);
    events.push(Event::Proposed(Ok(Proposal { hash: 9, extrinsics: 3 })));
    events.push(Event::Imported(Err("pipeline".to_string())));
    let (_, effects) = drive(TestEngine::new(), events);
    assert_eq!(
        effects[7],
        Effect::SealDone { sender: Some(3), result: Err(Error::Consensus("pipeline".to_string())) }
    );
}

#[test]
fn finalize_command_asks_finalizer_and_reports() {
    let command: TestEvent = Event::Command(EngineCommand::FinalizeBlock {
        hash: 77,
        sender: 5,
        justification: Some(vec![9, 9]),
    });
    let (engine, effects) = drive(TestEngine::new(), vec![command, Event::Finalized(Ok(()))]);
    assert!(engine.is_idle());
    assert_eq!(
        effects,
        vec![
            Effect::FinalizeBlock { hash: 77, justification: Some(vec![9, 9]) },
            Effect::FinalizeDone { sender: 5, result: Ok(()) },
        ]
    );
}

#[test]
fn finalizer_failure_is_blockchain_error() {
    let command: TestEvent =
        Event::Command(EngineCommand::FinalizeBlock { hash: 77, sender: 5, justification: None });
    let (engine, effects) =
        drive(TestEngine::new(), vec![command, Event::Finalized(Err("unknown block".to_string()))]);
    assert!(engine.is_idle());
    assert_eq!(
        effects[1],
        Effect::FinalizeDone { sender: 5, result: Err(Error::Blockchain("unknown block".to_string())) }
    );
}

#[test]
fn busy_engine_hands_commands_back() {
    let (engine, _) = drive(TestEngine::new(), vec![seal(true, false, Some(40), Some(1))]);
    assert!(!engine.is_idle());
    let (engine, effect) = engine.handle(seal(true, false, Some(40), Some(2)));
    assert_eq!(effect, Effect::Rejected(seal(true, false, Some(40), Some(2))));
    assert_eq!(
        engine,
        Engine::Sealing {
            request: SealRequest { create_empty: true, finalize: false, parent_hash: Some(40) },
            sender: Some(1),
            stage: Stage::Pool,
        }
    );
    let finalize: TestEvent =
        Event::Command(EngineCommand::FinalizeBlock { hash: 1, sender: 8, justification: None });
    let (engine, effect) = engine.handle(finalize);
    assert!(matches!(effect, Effect::Rejected(Event::Command(_))));
    assert!(!engine.is_idle());
}

#[test]
fn answer_that_is_not_awaited_is_handed_back() {
    let (engine, effect) = TestEngine::new().handle(Event::PoolStatus { ready: 1 });
    assert!(engine.is_idle());
    assert_eq!(effect, Effect::Rejected(Event::PoolStatus { ready: 1 }));

    let (engine, _) = drive(
        TestEngine::new(),
        vec![seal(true, false, Some(40), Some(1)), Event::PoolStatus { ready: 1 }],
    );
    let (engine, effect) = engine.handle(Event::BestHeader(Ok(ParentHeader { hash: 1, number: 1 })));
    assert!(matches!(effect, Effect::Rejected(Event::BestHeader(_))));
    let (engine, effect) = engine.handle(Event::Finalized(Ok(())));
    assert_eq!(effect, Effect::Rejected(Event::Finalized(Ok(()))));
    assert_eq!(
        engine,
        Engine::Sealing {
            request: SealRequest { create_empty: true, finalize: false, parent_hash: Some(40) },
            sender: Some(1),
            stage: Stage::Parent,
        }
    );
}

#[test]
fn commands_are_served_in_order_each_to_its_own_caller() {
    let mut engine = TestEngine::new();
    let mut results = Vec::new();
    for i in 0..3u64 {
        let parent = ParentHeader { hash: 100 + i, number: i };
        let mut events = vec![seal(true, false, Some(100 + i), Some(i as u32))];
        events.extend(good_answers(parent, true));
        events[6] = Event::Proposed(Ok(Proposal { hash: 200 + i, extrinsics: 2 }));
        let (next, effects) = drive(engine, events);
        engine = next;
        assert!(engine.is_idle());
        assert_eq!(effects[2], Effect::InitProposer(parent));
        results.push(effects.into_iter().last().unwrap());
    }
    assert_eq!(
        results,
        vec![
            Effect::SealDone { sender: Some(0), result: Ok(CreatedBlock { hash: 200, aux: aux() }) },
            Effect::SealDone { sender: Some(1), result: Ok(CreatedBlock { hash: 201, aux: aux() }) },
            Effect::SealDone { sender: Some(2), result: Ok(CreatedBlock { hash: 202, aux: aux() }) },
        ]
    );
}

#[test]
fn engine_stops_when_commands_end() {
    let (engine, effect) = TestEngine::new().handle(Event::CommandsEnded);
    assert_eq!(engine, Engine::Stopped);
    assert_eq!(effect, Effect::Finished);
    assert!(!engine.is_idle());
    // a stopped engine takes nothing
    let (engine, effect) = engine.handle(seal(true, false, None, Some(1)));
    assert_eq!(engine, Engine::Stopped);
    assert_eq!(effect, Effect::Rejected(seal(true, false, None, Some(1))));
    let (engine, effect) = engine.handle(Event::CommandsEnded);
    assert_eq!(engine, Engine::Stopped);
    assert_eq!(effect, Effect::Rejected(Event::CommandsEnded));
}

#[test]
fn failed_command_does_not_stop_the_engine() {
    let (engine, _) = drive(
        TestEngine::new(),
        vec![seal(false, false, None, Some(1)), Event::PoolStatus { ready: 0 }],
    );
    assert!(engine.is_idle());
    let parent = ParentHeader { hash: 41, number: 8 };
    let mut events = vec![seal(false, false, None, Some(2))];
    events.extend(good_answers(parent, false));
    let (engine, effects) = drive(engine, events);
    assert!(engine.is_idle());
    assert_eq!(
        effects[7],
        Effect::SealDone { sender: Some(2), result: Ok(CreatedBlock { hash: 500, aux: aux() }) }
    );
}

#[test]
fn end_of_commands_is_handed_back_by_an_engine_at_work() {
    let (engine, _) = drive(TestEngine::new(), vec![seal(true, false, None, Some(1))]);
    let (engine, effect) = engine.handle(Event::CommandsEnded);
    assert_eq!(effect, Effect::Rejected(Event::CommandsEnded));
    assert!(matches!(engine, Engine::Sealing { .. }));
}
