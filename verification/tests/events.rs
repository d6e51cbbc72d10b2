use glutton::clock::{log_current_time, Phase};
use glutton::event::{
    BestBlockChanged, ChainHeadEvent, ChainHeadResult, ErrorEvent, Finalized, FollowEvent,
    Initialized, NetworkConfig, NewBlock, RuntimeEvent, RuntimeVersion, RuntimeVersionEvent,
};

fn runtime() -> RuntimeVersion {
    RuntimeVersion {
        spec_name: "ABC".into(),
        impl_name: "Impl".into(),
        authoring_version: 0,
        spec_version: 1,
        impl_version: 0,
        apis: Vec::new(),
        transaction_version: 0,
        state_version: 0,
    }
}

#[test]
fn network_config_needs_a_parallel_request() {
    let conf = NetworkConfig::new(1, 2, 3).expect("Non zero number; qed");
    assert_eq!(conf.total_attempts(), 1);
    assert_eq!(conf.max_parallel(), 2);
    assert_eq!(conf.timeout_ms(), 3);
    assert_eq!(NetworkConfig::new(1, 2, 3), Some(conf));
    assert_eq!(NetworkConfig::new(1, 0, 3), None);
    assert!(NetworkConfig::new(0, usize::MAX, 0).is_some());
}

#[test]
fn api_error_becomes_an_invalid_runtime() {
    let event = RuntimeEvent::from_api_error("runtime panicked");
    assert_eq!(
        event,
        RuntimeEvent::Invalid(ErrorEvent { error: "Api error: runtime panicked".into() })
    );
    assert_eq!(
        RuntimeEvent::from_api_error(""),
        RuntimeEvent::Invalid(ErrorEvent { error: "Api error: ".into() })
    );
}

#[test]
fn initialized_writes_the_runtime_only_when_asked() {
    let without: Initialized<String> = Initialized {
        finalized_block_hash: "0x1".into(),
        finalized_block_runtime: None,
        with_runtime: false,
    };
    assert_eq!(without.serialized_fields(), 1);
    assert_eq!(without.serialized_runtime(), None);

    let runtime_event = RuntimeEvent::Valid(RuntimeVersionEvent { spec: runtime() });
    let with: Initialized<String> = Initialized {
        finalized_block_hash: "0x1".into(),
        finalized_block_runtime: Some(runtime_event.clone()),
        with_runtime: true,
    };
    assert_eq!(with.serialized_fields(), 2);
    assert_eq!(with.serialized_runtime(), Some(&Some(runtime_event.clone())));

    let hidden: Initialized<String> = Initialized {
        finalized_block_hash: "0x1".into(),
        finalized_block_runtime: Some(runtime_event),
        with_runtime: false,
    };
    assert_eq!(hidden.serialized_fields(), 1);
    assert_eq!(hidden.serialized_runtime(), None);
}

#[test]
fn new_block_writes_the_runtime_only_when_asked() {
    let without: NewBlock<String> = NewBlock {
        block_hash: "0x1".into(),
        parent_block_hash: "0x2".into(),
        new_runtime: None,
        with_runtime: false,
    };
    assert_eq!(without.serialized_fields(), 2);
    assert_eq!(without.serialized_runtime(), None);

    let runtime_event = RuntimeEvent::Valid(RuntimeVersionEvent { spec: runtime() });
    let with: NewBlock<String> = NewBlock {
        block_hash: "0x1".into(),
        parent_block_hash: "0x2".into(),
        new_runtime: Some(runtime_event.clone()),
        with_runtime: true,
    };
    assert_eq!(with.serialized_fields(), 3);
    assert_eq!(with.serialized_runtime(), Some(&Some(runtime_event)));

    // the runtime did not change: the field is written, and empty
    let unchanged: NewBlock<String> = NewBlock {
        block_hash: "0x1".into(),
        parent_block_hash: "0x2".into(),
        new_runtime: None,
        with_runtime: true,
    };
    assert_eq!(unchanged.serialized_fields(), 3);
    assert_eq!(unchanged.serialized_runtime(), Some(&None));
}

#[test]
fn follow_events_compare_by_value() {
    let best: FollowEvent<String> =
        FollowEvent::BestBlockChanged(BestBlockChanged { best_block_hash: "0x1".into() });
    assert_eq!(best.clone(), best);
    let finalized: FollowEvent<String> = FollowEvent::Finalized(Finalized {
        finalized_block_hashes: vec!["0x1".into()],
        pruned_block_hashes: vec!["0x2".into()],
    });
    assert_eq!(finalized.clone(), finalized);
    assert_ne!(finalized, best);
    let stop: FollowEvent<String> = FollowEvent::Stop;
    assert_ne!(stop, best);
    assert!(matches!(stop, FollowEvent::Stop));
}

#[test]
fn chain_head_events_compare_by_value() {
    let done: ChainHeadEvent<String> = ChainHeadEvent::Done(ChainHeadResult { result: "A".into() });
    let inaccessible: ChainHeadEvent<String> =
        ChainHeadEvent::Inaccessible(ErrorEvent { error: "A".into() });
    let error: ChainHeadEvent<String> = ChainHeadEvent::Error(ErrorEvent { error: "A".into() });
    let disjoint: ChainHeadEvent<String> = ChainHeadEvent::Disjoint;
    assert_eq!(done.clone(), done);
    assert_ne!(inaccessible, error);
    assert_ne!(done, disjoint);
    assert_eq!(error, ChainHeadEvent::Error(ErrorEvent { error: "A".into() }));
}

#[test]
fn current_time_line_prints_each_value() {
    assert_eq!(
        log_current_time(0, 0, None, Phase::Off, 0),
        "block: 0, session: 0, era: None, EPM phase: Off ts: 0"
    );
    assert_eq!(
        log_current_time(25, 3, Some(1), Phase::Signed, 150_000),
        "block: 25, session: 3, era: Some(1), EPM phase: Signed ts: 150000"
    );
    assert_eq!(
        log_current_time(40, 4, Some(10), Phase::Unsigned((true, 35)), 240_000),
        "block: 40, session: 4, era: Some(10), EPM phase: Unsigned((true, 35)) ts: 240000"
    );
    assert_eq!(
        log_current_time(41, 4, Some(109), Phase::Unsigned((false, 0)), 9),
        "block: 41, session: 4, era: Some(109), EPM phase: Unsigned((false, 0)) ts: 9"
    );
    assert_eq!(
        log_current_time(u64::MAX, u32::MAX, Some(u32::MAX), Phase::Emergency, u64::MAX),
        "block: 18446744073709551615, session: 4294967295, era: Some(4294967295), \
         EPM phase: Emergency ts: 18446744073709551615"
    );
}

#[test]
fn current_time_line_agrees_with_debug_formatting() {
    let samples: [(u64, u32, Option<u32>, u64); 4] =
        [(1, 2, None, 3), (10, 20, Some(30), 40), (1_000_000, 99, Some(0), 1_700_000_000_000), (7, 0, Some(100), 1_001)];
    for (block, session, era, ts) in samples {
        for (phase, text) in [
            (Phase::Off, format!("{:?}", "Off").replace('"', "")),
            (Phase::Unsigned((true, block)), format!("Unsigned({:?})", (true, block))),
        ] {
            let expected = format!(
                "block: {:?}, session: {:?}, era: {:?}, EPM phase: {} ts: {:?}",
                block, session, era, text, ts
            );
            assert_eq!(log_current_time(block, session, era, phase, ts), expected);
        }
    }
}
