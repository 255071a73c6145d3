use blackflower::diagnostics::identity::{
    AgentDescriptor, AgentDiagnosticError, AgentId, DecisionConstraint, DiagnosticText,
    SensoriumChannelSnapshot,
};
use blackflower::diagnostics::kinds::{
    AgentHealth, DecisionOutcome, DiagnosticRecordKind, FallbackReason, MemoryKind, MemoryStatus,
    PolicySource, SensoriumAvailability, SensoriumChannelKind, SessionState,
};
use blackflower::diagnostics::memory::{memory_slot, MemoryGaugeAdjustment};
use blackflower::diagnostics::publisher::{AgentDiagnostics, DecisionMetric};
use blackflower::diagnostics::snapshots::{
    AgentDiagnosticRecord, AgentStatusSnapshot, DecisionCandidate, DecisionRecord, Elapsed,
    MemoryItemSnapshot, SensoriumSnapshot,
};
use blackflower::diagnostics::status::{HealthChange, SendOutcome};
use blackflower::foreground::board::AgentBoard;
use blackflower::foreground::roster::{DECISION_HISTORY_CAPACITY, MAX_VISIBLE_AGENTS};

fn text(value: &str) -> DiagnosticText {
    DiagnosticText::new(value.to_owned()).expect("valid diagnostic text")
}

fn channel(kind: SensoriumChannelKind) -> SensoriumChannelSnapshot {
    SensoriumChannelSnapshot::new(kind, SensoriumAvailability::Admitted, text("seen"), false)
}

fn item(token: u64, kind: MemoryKind) -> MemoryItemSnapshot<f32> {
    MemoryItemSnapshot::new(
        token,
        kind,
        MemoryStatus::Observed,
        text("key under the mat"),
        0.75,
        0.25,
        true,
        Elapsed { seconds: 1, nanos: 0 },
        true,
    )
    .expect("valid item")
}

fn sensorium(agent: u32, memory: Vec<MemoryItemSnapshot<f32>>) -> SensoriumSnapshot<f32> {
    SensoriumSnapshot::new(
        AgentId::new(agent),
        3,
        12,
        1,
        text("classical-v1"),
        2,
        vec![channel(SensoriumChannelKind::Vision)],
        memory,
        900,
    )
    .expect("valid sensorium")
}

fn decision(agent: u32, sequence: u64) -> DecisionRecord<f32> {
    DecisionRecord::new(
        AgentId::new(agent),
        sequence,
        3,
        12,
        text("hold cover"),
        PolicySource::Classical,
        DecisionOutcome::Completed,
        text("advance"),
        text("accepted"),
        vec![DecisionCandidate::new(text("advance"), 0.5, true, text("selected")).expect("finite")],
        vec![DecisionConstraint::new(text("navigation"), text("detour"))],
        Elapsed { seconds: 0, nanos: 50_000 },
        Some(Elapsed { seconds: 0, nanos: 20_000 }),
        false,
        None,
        1_000,
    )
    .expect("valid decision")
}

#[test]
fn sensorium_constructor_checks_rules_in_order_and_keeps_values() {
    let many: Vec<SensoriumChannelSnapshot> = (0..9).map(|_| channel(SensoriumChannelKind::Vision)).collect();
    let build = |sequence: u64, schema: u16, channels: Vec<SensoriumChannelSnapshot>, memory: Vec<MemoryItemSnapshot<f32>>| {
        SensoriumSnapshot::new(AgentId::new(1), sequence, 4, schema, text("v"), 0, channels, memory, 0)
    };
    assert!(matches!(build(0, 0, Vec::new(), Vec::new()), Err(AgentDiagnosticError::ZeroObservationSequence)));
    assert!(matches!(build(1, 0, Vec::new(), Vec::new()), Err(AgentDiagnosticError::ZeroSchemaVersion)));
    assert!(matches!(
        build(1, 1, many, Vec::new()),
        Err(AgentDiagnosticError::CollectionTooLarge { actual: 9, maximum: 8, .. })
    ));
    let items: Vec<MemoryItemSnapshot<f32>> = (1..=33).map(|token| item(token, MemoryKind::Spatial)).collect();
    assert!(matches!(
        build(1, 1, Vec::new(), items),
        Err(AgentDiagnosticError::CollectionTooLarge { actual: 33, maximum: 32, .. })
    ));
    assert!(matches!(
        build(1, 1, Vec::new(), vec![item(5, MemoryKind::Spatial), item(5, MemoryKind::Working)]),
        Err(AgentDiagnosticError::DuplicateMemoryToken)
    ));
    let snapshot = sensorium(4, vec![item(9, MemoryKind::Episodic), item(2, MemoryKind::Working)]);
    assert_eq!(snapshot.agent_id(), AgentId::new(4));
    assert_eq!(snapshot.observation_sequence(), 3);
    assert_eq!(snapshot.observation_tick(), 12);
    assert_eq!(snapshot.schema_version(), 1);
    assert_eq!(snapshot.policy_version().as_str(), "classical-v1");
    assert_eq!(snapshot.perceived_entities(), 2);
    assert_eq!(snapshot.channels().len(), 1);
    assert_eq!(snapshot.memory().iter().map(|i| i.token()).collect::<Vec<_>>(), vec![9, 2]);
    assert_eq!(snapshot.recorded_at(), 900);
    let first = &snapshot.memory()[0];
    assert_eq!(first.kind(), MemoryKind::Episodic);
    assert_eq!(first.confidence(), 0.75);
    assert_eq!(first.age(), Elapsed { seconds: 1, nanos: 0 });
    assert!(first.consumed_by_decision());
}

#[test]
fn memory_items_and_candidates_reject_invalid_values() {
    let zero = MemoryItemSnapshot::new(0, MemoryKind::Sensory, MemoryStatus::Expired, text("x"), 0.0f32, 0.0, false, Elapsed { seconds: 0, nanos: 0 }, false);
    assert!(matches!(zero, Err(AgentDiagnosticError::ZeroMemoryToken)));
    let unnormalized = MemoryItemSnapshot::new(1, MemoryKind::Sensory, MemoryStatus::Expired, text("x"), 2.0f32, 0.0, false, Elapsed { seconds: 0, nanos: 0 }, false);
    assert!(matches!(unnormalized, Err(AgentDiagnosticError::InvalidNormalizedValue)));
    assert!(matches!(
        DecisionCandidate::new(text("a"), f32::NAN, false, text("rejected")),
        Err(AgentDiagnosticError::NonFiniteScore)
    ));
}

#[test]
fn decision_constructor_checks_rules_in_order_and_keeps_values() {
    let build = |decision_sequence: u64, observation_sequence: u64, candidates: usize, constraints: usize, outcome: DecisionOutcome, reason: Option<FallbackReason>| {
        DecisionRecord::<f32>::new(
            AgentId::new(1),
            decision_sequence,
            observation_sequence,
            0,
            text("i"),
            PolicySource::Fallback,
            outcome,
            text("a"),
            text("e"),
            (0..candidates).map(|_| DecisionCandidate::new(text("c"), 0.0, true, text("d")).expect("finite")).collect(),
            (0..constraints).map(|_| DecisionConstraint::new(text("s"), text("e"))).collect(),
            Elapsed { seconds: 0, nanos: 1 },
            None,
            true,
            reason,
            0,
        )
    };
    assert!(matches!(build(0, 0, 9, 13, DecisionOutcome::Fallback, None), Err(AgentDiagnosticError::ZeroDecisionSequence)));
    assert!(matches!(build(1, 0, 9, 13, DecisionOutcome::Fallback, None), Err(AgentDiagnosticError::ZeroObservationSequence)));
    assert!(matches!(
        build(1, 1, 9, 13, DecisionOutcome::Fallback, None),
        Err(AgentDiagnosticError::CollectionTooLarge { actual: 9, maximum: 8, .. })
    ));
    assert!(matches!(
        build(1, 1, 8, 13, DecisionOutcome::Fallback, None),
        Err(AgentDiagnosticError::CollectionTooLarge { actual: 13, maximum: 12, .. })
    ));
    assert!(matches!(build(1, 1, 8, 12, DecisionOutcome::Fallback, None), Err(AgentDiagnosticError::MissingFallbackReason)));
    let kept = build(1, 1, 8, 12, DecisionOutcome::Fallback, Some(FallbackReason::Budget)).expect("valid");
    assert_eq!(kept.candidates().len(), 8);
    assert_eq!(kept.constraints().len(), 12);
    assert_eq!(kept.fallback_reason(), Some(FallbackReason::Budget));
    assert!(kept.budget_exhausted());
    let record = decision(2, 9);
    assert_eq!(record.decision_sequence(), 9);
    assert_eq!(record.selected_action().as_str(), "advance");
    assert_eq!(record.inference_duration(), Some(Elapsed { seconds: 0, nanos: 20_000 }));
    assert_eq!(record.candidates()[0].score(), 0.5);
    assert_eq!(record.recorded_at(), 1_000);
}

#[test]
fn records_of_another_agent_change_nothing() {
    let descriptor = AgentDescriptor::new(AgentId::new(1), text("standard"), text("classical-v1"));
    let (mut diagnostics, status) =
        AgentDiagnostics::connected(Some(descriptor), true, SessionState::Negotiating, 7);
    let status = status.expect("observer and descriptor");
    assert_eq!(status.session_state(), SessionState::Negotiating);
    assert_eq!(status.health(), AgentHealth::Starting);
    assert_eq!(status.recorded_at(), 7);
    let refused = diagnostics.record_sensorium::<f32>(sensorium(2, Vec::new()));
    assert!(matches!(
        refused,
        Err(AgentDiagnosticError::AgentIdentityMismatch { expected, actual })
            if expected == AgentId::new(1) && actual == AgentId::new(2)
    ));
    assert!(diagnostics.record_decision::<f32>(decision(2, 1)).is_err());
    assert_eq!(diagnostics.health(), AgentHealth::Starting);
    assert_eq!(diagnostics.memory_counts(), vec![0; 16]);
    assert!(diagnostics.records_enabled());

    let update = diagnostics
        .record_sensorium::<f32>(sensorium(1, vec![item(3, MemoryKind::Spatial), item(4, MemoryKind::Spatial)]))
        .expect("own agent");
    assert_eq!(update.perceived_entities, 2);
    assert_eq!(
        update.memory,
        vec![MemoryGaugeAdjustment { kind: MemoryKind::Spatial, status: MemoryStatus::Observed, delta: 2 }]
    );
    assert_eq!(diagnostics.memory_counts()[memory_slot(MemoryKind::Spatial, MemoryStatus::Observed)], 2);
    assert!(matches!(update.publish, Some(AgentDiagnosticRecord::Sensorium(_))));

    let decided = diagnostics.record_decision::<f32>(decision(1, 5)).expect("own agent");
    assert_eq!(
        decided.metrics,
        vec![
            DecisionMetric::Decided { source: PolicySource::Classical, outcome: DecisionOutcome::Completed },
            DecisionMetric::DecisionDuration {
                source: PolicySource::Classical,
                duration: Elapsed { seconds: 0, nanos: 50_000 },
            },
            DecisionMetric::InferenceDuration {
                outcome: DecisionOutcome::Completed,
                duration: Elapsed { seconds: 0, nanos: 20_000 },
            },
        ]
    );

    diagnostics.after_send(DiagnosticRecordKind::Decision, SendOutcome::Disconnected);
    assert!(!diagnostics.records_enabled());
    let quiet = diagnostics.record_decision::<f32>(decision(1, 6)).expect("own agent");
    assert!(quiet.publish.is_none());

    let active = diagnostics.set_session_state(SessionState::Active, 9);
    assert_eq!(active.change, Some(HealthChange { left: AgentHealth::Starting, entered: AgentHealth::Healthy }));
    assert!(active.publish.is_none());
    assert_eq!(diagnostics.health(), AgentHealth::Healthy);
    let (unbound, none) = AgentDiagnostics::connected(None, false, SessionState::Connecting, 0);
    assert!(none.is_none());
    let mut unbound = unbound;
    assert!(unbound.record_decision::<f32>(decision(9, 1)).is_ok());
}

#[test]
fn board_keeps_agents_in_order_within_its_bounds() {
    let mut board: AgentBoard<u8, f32> = AgentBoard::new();
    for agent in (1..=40u32).rev() {
        board.accept(AgentDiagnosticRecord::Decision(decision(agent, 1)));
    }
    let ids = board.ids();
    assert_eq!(ids.len(), MAX_VISIBLE_AGENTS);
    assert_eq!(ids.first(), Some(&AgentId::new(9)));
    assert_eq!(ids.last(), Some(&AgentId::new(40)));
    assert_eq!(board.selection().selected, Some(AgentId::new(40)));

    board.accept(AgentDiagnosticRecord::Decision(decision(3, 1)));
    assert_eq!(board.ids().len(), MAX_VISIBLE_AGENTS);
    assert!(!board.ids().contains(&AgentId::new(3)));

    for sequence in 1..=(DECISION_HISTORY_CAPACITY as u64 + 3) {
        board.accept(AgentDiagnosticRecord::Decision(decision(9, sequence)));
    }
    let descriptor = AgentDescriptor::new(AgentId::new(12), text("standard"), text("classical-v1"));
    board.accept(AgentDiagnosticRecord::Status(AgentStatusSnapshot::new(descriptor, 1u8, AgentHealth::Healthy, 5)));
    board.accept(AgentDiagnosticRecord::Sensorium(sensorium(12, Vec::new())));
    assert_eq!(board.ids().len(), MAX_VISIBLE_AGENTS);
    assert_eq!(board.selection().selected, Some(AgentId::new(40)));
}
