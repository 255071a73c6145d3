use std::sync::mpsc::{sync_channel, Receiver, SyncSender, TryRecvError, TrySendError};

use blackflower::diagnostics::identity::{
    AgentDescriptor, AgentDiagnosticError, AgentId, DecisionConstraint, DiagnosticText,
    SensoriumChannelSnapshot,
};
use blackflower::diagnostics::kinds::{
    AgentHealth, DecisionOutcome, FallbackReason, MemoryKind, MemoryStatus,
    PolicySource, SensoriumAvailability, SensoriumChannelKind, SessionState,
};
use blackflower::diagnostics::memory::MemoryGaugeAdjustment;
use blackflower::diagnostics::metrics::{describe_agent_metrics, initialize_agent_metrics};
use blackflower::diagnostics::publisher::{AgentDiagnostics, DecisionMetric};
use blackflower::diagnostics::snapshots::{
    AgentDiagnosticRecord, AgentStatusSnapshot, DecisionCandidate, DecisionRecord, Elapsed,
    MemoryItemSnapshot, SensoriumSnapshot,
};
use blackflower::diagnostics::status::{HealthChange, SendOutcome};
use blackflower::foreground::board::{agent_rows, AgentBoard, AgentView};
use blackflower::foreground::panels::{decision_detail, decision_rows, sensorium_rows, DurationCell};
use blackflower::foreground::roster::{AgentSelection, DecisionHistory};

type Record = AgentDiagnosticRecord<SessionState, f32>;

fn text(value: &str) -> DiagnosticText {
    DiagnosticText::new(value.to_owned()).expect("valid diagnostic text")
}

fn descriptor(agent: u32) -> AgentDescriptor {
    AgentDescriptor::new(AgentId::new(agent), text("standard"), text("classical-v1"))
}

fn item(token: u64, kind: MemoryKind, status: MemoryStatus) -> MemoryItemSnapshot<f32> {
    MemoryItemSnapshot::new(
        token,
        kind,
        status,
        text("key under the mat"),
        0.75,
        0.25,
        true,
        Elapsed { seconds: 1, nanos: 0 },
        true,
    )
    .expect("valid item")
}

fn sensorium(agent: u32, memory: Vec<MemoryItemSnapshot<f32>>) -> SensoriumSnapshot<f32> {
    SensoriumSnapshot::new(
        AgentId::new(agent),
        3,
        12,
        1,
        text("classical-v1"),
        2,
        vec![SensoriumChannelSnapshot::new(
            SensoriumChannelKind::Vision,
            SensoriumAvailability::Admitted,
            text("two visible silhouettes"),
            true,
        )],
        memory,
        900,
    )
    .expect("valid sensorium")
}

fn decision(agent: u32, sequence: u64) -> DecisionRecord<f32> {
    DecisionRecord::new(
        AgentId::new(agent),
        sequence,
        3,
        12,
        text("hold cover"),
        PolicySource::Classical,
        DecisionOutcome::Completed,
        text("advance"),
        text("accepted"),
        vec![DecisionCandidate::new(text("advance"), 0.5, true, text("selected")).expect("finite")],
        vec![DecisionConstraint::new(text("navigation"), text("detour"))],
        Elapsed { seconds: 0, nanos: 50_000 },
        Some(Elapsed { seconds: 0, nanos: 20_000 }),
        false,
        None,
        1_000 + sequence,
    )
    .expect("valid decision")
}

fn fallback_decision(agent: u32, sequence: u64) -> DecisionRecord<f32> {
    DecisionRecord::new(
        AgentId::new(agent),
        sequence,
        4,
        13,
        text("retreat"),
        PolicySource::Fallback,
        DecisionOutcome::Fallback,
        text("neutral input"),
        text("accepted"),
        Vec::new(),
        Vec::new(),
        Elapsed { seconds: 0, nanos: 150_000 },
        None,
        true,
        Some(FallbackReason::Budget),
        2_000,
    )
    .expect("valid decision")
}

/// Hand a record to the queue without blocking and let the diagnostics record the outcome.
fn offer(diagnostics: &mut AgentDiagnostics, sender: &SyncSender<Record>, record: Record) {
    let kind = record.kind();
    let outcome = match sender.try_send(record) {
        Ok(()) => SendOutcome::Sent,
        Err(TrySendError::Full(_)) => SendOutcome::Full,
        Err(TrySendError::Disconnected(_)) => SendOutcome::Disconnected,
    };
    diagnostics.after_send(kind, outcome);
}

fn connect(capacity: usize) -> (AgentDiagnostics, Receiver<Record>, SyncSender<Record>) {
    let (sender, receiver) = sync_channel(capacity);
    let (mut diagnostics, status) =
        AgentDiagnostics::connected(Some(descriptor(7)), true, SessionState::Negotiating, 1);
    if let Some(status) = status {
        offer(&mut diagnostics, &sender, AgentDiagnosticRecord::Status(status));
    }
    (diagnostics, receiver, sender)
}

#[test]
fn bounded_stream_carries_exact_runtime_records() {
    let (mut diagnostics, receiver, sender) = connect(4);
    assert!(matches!(receiver.try_recv(), Ok(AgentDiagnosticRecord::Status(_))));
    let update = diagnostics.record_sensorium(sensorium(7, Vec::new())).expect("own agent");
    offer(&mut diagnostics, &sender, update.publish.expect("observer attached"));
    assert!(matches!(receiver.try_recv(), Ok(AgentDiagnosticRecord::Sensorium(_))));
    let update = diagnostics.record_decision(decision(7, 1)).expect("own agent");
    offer(&mut diagnostics, &sender, update.publish.expect("observer attached"));
    assert!(matches!(receiver.try_recv(), Ok(AgentDiagnosticRecord::Decision(_))));
}

#[test]
fn full_diagnostic_queue_never_blocks_the_runtime() {
    let (mut diagnostics, receiver, sender) = connect(1);
    let update = diagnostics.record_sensorium(sensorium(7, Vec::new())).expect("own agent");
    offer(&mut diagnostics, &sender, update.publish.expect("observer attached"));
    assert!(matches!(receiver.try_recv(), Ok(AgentDiagnosticRecord::Status(_))));
    assert!(matches!(receiver.try_recv(), Err(TryRecvError::Empty)));
    assert!(diagnostics.records_enabled());
}

#[test]
fn agent_runtime_emits_every_owned_metric_family() {
    let registered = initialize_agent_metrics();
    let described = describe_agent_metrics();
    let (diagnostics, status) =
        AgentDiagnostics::connected(Some(descriptor(7)), false, SessionState::Active, 0);
    assert!(status.is_none());
    assert!(!diagnostics.records_enabled());
    let metrics = diagnostics
        .record_decision_metrics(
            PolicySource::Fallback,
            DecisionOutcome::Fallback,
            Elapsed { seconds: 0, nanos: 150_000 },
            Some(Elapsed { seconds: 0, nanos: 120_000 }),
            true,
            Some(FallbackReason::Budget),
        )
        .expect("fallback with a reason");
    assert_eq!(metrics.len(), 5);
    assert!(registered.iter().any(|series| series.name == "blackflower_agent_memory_items"));
    for expected in [
        "blackflower_agent_active_agents",
        "blackflower_agent_agents",
        "blackflower_agent_decisions_total",
        "blackflower_agent_decision_duration_seconds",
        "blackflower_agent_inference_duration_seconds",
        "blackflower_agent_perceived_entities",
        "blackflower_agent_navigation_query_duration_seconds",
        "blackflower_agent_fallbacks_total",
        "blackflower_agent_decision_budget_exhaustions_total",
        "blackflower_agent_memory_items",
        "blackflower_agent_memory_evictions_total",
        "blackflower_agent_diagnostic_records_dropped_total",
    ] {
        assert!(described.iter().any(|d| d.name == expected), "missing metric {expected}");
    }
}

#[test]
fn decision_metrics_follow_the_decision_and_refuse_unexplained_fallbacks() {
    let (diagnostics, _) = AgentDiagnostics::connected(None, false, SessionState::Active, 0);
    let duration = Elapsed { seconds: 1, nanos: 5 };
    assert_eq!(
        diagnostics.record_decision_metrics(
            PolicySource::Fallback,
            DecisionOutcome::Fallback,
            duration,
            None,
            true,
            None,
        ),
        Err(AgentDiagnosticError::MissingFallbackReason)
    );
    assert_eq!(
        diagnostics.record_decision_metrics(PolicySource::Classical, DecisionOutcome::Completed, duration, None, false, None),
        Ok(vec![
            DecisionMetric::Decided { source: PolicySource::Classical, outcome: DecisionOutcome::Completed },
            DecisionMetric::DecisionDuration { source: PolicySource::Classical, duration },
        ])
    );
    assert_eq!(
        diagnostics.record_decision_metrics(
            PolicySource::Fallback,
            DecisionOutcome::Fallback,
            duration,
            Some(Elapsed { seconds: 0, nanos: 9 }),
            true,
            Some(FallbackReason::Budget),
        ),
        Ok(vec![
            DecisionMetric::Decided { source: PolicySource::Fallback, outcome: DecisionOutcome::Fallback },
            DecisionMetric::DecisionDuration { source: PolicySource::Fallback, duration },
            DecisionMetric::InferenceDuration {
                outcome: DecisionOutcome::Fallback,
                duration: Elapsed { seconds: 0, nanos: 9 },
            },
            DecisionMetric::BudgetExhausted,
            DecisionMetric::Fallback { reason: FallbackReason::Budget },
        ])
    );
}

#[test]
fn status_is_published_on_connect_and_on_every_change() {
    let (mut diagnostics, status) =
        AgentDiagnostics::connected(Some(descriptor(7)), true, SessionState::Negotiating, 1);
    let status: AgentStatusSnapshot<SessionState> = status.expect("observer and descriptor");
    assert_eq!(status.descriptor().id(), AgentId::new(7));
    assert_eq!(status.health(), AgentHealth::Starting);

    let same = diagnostics.set_session_state(SessionState::Negotiating, 2);
    assert_eq!(same.change, None);
    assert!(same.publish.is_none());

    let syncing = diagnostics.set_session_state(SessionState::Synchronizing, 3);
    assert_eq!(syncing.change, None);
    let syncing = syncing.publish.expect("status after a session change");
    assert_eq!(syncing.session_state(), SessionState::Synchronizing);
    assert_eq!(syncing.health(), AgentHealth::Starting);
    assert_eq!(syncing.recorded_at(), 3);

    let active = diagnostics.set_session_state(SessionState::Active, 4);
    assert_eq!(active.change, Some(HealthChange { left: AgentHealth::Starting, entered: AgentHealth::Healthy }));
    assert_eq!(active.publish.expect("status").health(), AgentHealth::Healthy);
    let again = diagnostics.set_session_state(SessionState::Active, 5);
    assert_eq!(again.change, None);
    assert!(again.publish.is_none());

    let unchanged = diagnostics.set_health(AgentHealth::Healthy, 6);
    assert_eq!(unchanged.change, None);
    assert!(unchanged.publish.is_none());
    let stalled = diagnostics.set_health(AgentHealth::Stalled, 7);
    assert_eq!(stalled.change, Some(HealthChange { left: AgentHealth::Healthy, entered: AgentHealth::Stalled }));
    let stalled = stalled.publish.expect("status after a health change");
    assert_eq!(stalled.health(), AgentHealth::Stalled);
    assert_eq!(stalled.session_state(), SessionState::Active);
    assert_eq!(diagnostics.health(), AgentHealth::Stalled);

    let resynchronizing = diagnostics.set_session_state(SessionState::Resynchronizing, 8);
    assert_eq!(resynchronizing.change, None);
    assert_eq!(diagnostics.session_state(), SessionState::Resynchronizing);

    let (mut headless, none) =
        AgentDiagnostics::connected(Some(descriptor(7)), false, SessionState::Negotiating, 1);
    assert!(none.is_none());
    assert!(headless.set_health(AgentHealth::Fallback, 2).publish.is_none());
}

#[test]
fn memory_gauges_follow_occupancy_across_snapshots() {
    let (mut diagnostics, _) = AgentDiagnostics::connected(None, false, SessionState::Active, 0);
    let mut gauges = vec![0i64; 16];
    let slot = |kind: MemoryKind, status: MemoryStatus| {
        blackflower::diagnostics::memory::memory_slot(kind, status)
    };
    let snapshots = vec![
        vec![
            item(1, MemoryKind::Spatial, MemoryStatus::Observed),
            item(2, MemoryKind::Spatial, MemoryStatus::Observed),
            item(3, MemoryKind::Working, MemoryStatus::Observed),
        ],
        vec![item(4, MemoryKind::Working, MemoryStatus::Observed)],
        Vec::new(),
    ];
    for memory in snapshots {
        let expected: Vec<(usize, i64)> = memory.iter().map(|i| (slot(i.kind(), i.status()), 1)).collect();
        let update = diagnostics.record_sensorium(sensorium(3, memory)).expect("unbound runtime");
        for change in &update.memory {
            gauges[slot(change.kind, change.status)] += i64::from(change.delta);
        }
        let mut occupancy = vec![0i64; 16];
        for (series, count) in expected {
            occupancy[series] += count;
        }
        assert_eq!(gauges, occupancy);
        let counts: Vec<i64> = diagnostics.memory_counts().iter().map(|c| i64::from(*c)).collect();
        assert_eq!(counts, occupancy);
    }

    let update = diagnostics
        .record_sensorium(sensorium(3, vec![item(5, MemoryKind::Spatial, MemoryStatus::Observed)]))
        .expect("unbound runtime");
    assert_eq!(
        update.memory,
        vec![MemoryGaugeAdjustment { kind: MemoryKind::Spatial, status: MemoryStatus::Observed, delta: 1 }]
    );
    let stopped = diagnostics.stop(10);
    assert!(stopped.publish.is_none());
    assert_eq!(stopped.health, AgentHealth::Starting);
    assert_eq!(
        stopped.memory,
        vec![MemoryGaugeAdjustment { kind: MemoryKind::Spatial, status: MemoryStatus::Observed, delta: -1 }]
    );
}

#[test]
fn stopping_publishes_a_closing_status() {
    let (diagnostics, _) =
        AgentDiagnostics::connected(Some(descriptor(7)), true, SessionState::Active, 0);
    let stopped = diagnostics.stop(12);
    let closing = stopped.publish.expect("observer attached");
    assert_eq!(closing.session_state(), SessionState::Closing);
    assert_eq!(closing.recorded_at(), 12);
    assert!(stopped.memory.is_empty());
}

#[test]
fn agents_table_shows_status_latest_decision_and_placeholders() {
    let mut board: AgentBoard<SessionState, f32> = AgentBoard::new();
    board.accept(AgentDiagnosticRecord::Status(AgentStatusSnapshot::new(
        descriptor(3),
        SessionState::ContentChecking,
        AgentHealth::Healthy,
        5,
    )));
    board.accept(AgentDiagnosticRecord::Decision(decision(3, 1)));
    board.accept(AgentDiagnosticRecord::Decision(fallback_decision(3, 2)));
    board.accept(AgentDiagnosticRecord::Sensorium(sensorium(12, Vec::new())));
    let rows = agent_rows(&board);
    assert_eq!(rows.len(), 2);
    let first = &rows[0];
    assert!(first.selected);
    assert_eq!(first.agent, "› 03");
    assert_eq!(first.session, "content");
    assert_eq!(first.difficulty, "standard");
    assert_eq!(first.policy, "classical-v1");
    assert_eq!(first.intent, "retreat");
    assert_eq!(first.source, "fallback");
    assert_eq!(first.decided_at, Some(2_000));
    assert_eq!(first.observed_at, None);
    assert_eq!(first.health, "healthy");
    let second = &rows[1];
    assert!(!second.selected);
    assert_eq!(second.agent, "  12");
    assert_eq!(second.session, "—");
    assert_eq!(second.difficulty, "—");
    assert_eq!(second.policy, "—");
    assert_eq!(second.intent, "—");
    assert_eq!(second.source, "—");
    assert_eq!(second.decided_at, None);
    assert_eq!(second.observed_at, Some(900));
    assert_eq!(second.health, "—");
}

#[test]
fn decision_feed_is_newest_first_with_the_selection_highlighted() {
    let mut decisions = DecisionHistory::new();
    for sequence in 1..=3 {
        decisions.push(decision(3, sequence));
    }
    let view: AgentView<SessionState, f32> = AgentView { status: None, sensorium: None, decisions };
    let selection = AgentSelection { selected: Some(AgentId::new(3)), decision_offset: 1 };
    let rows = decision_rows(&view, selection);
    assert_eq!(rows.iter().map(|r| r.sequence.as_str()).collect::<Vec<_>>(), vec!["3", "2", "1"]);
    assert_eq!(rows.iter().map(|r| r.highlighted).collect::<Vec<_>>(), vec![false, true, false]);
    assert_eq!(rows[0].source, "classical");
    assert_eq!(rows[0].action, "advance");
    assert_eq!(rows[0].outcome, "completed");
    assert_eq!(rows[0].recorded_at, 1_003);
    let beyond = AgentSelection { selected: Some(AgentId::new(3)), decision_offset: 9 };
    assert!(decision_rows(&view, beyond).iter().all(|r| !r.highlighted));
}

#[test]
fn decision_detail_fills_placeholders_and_conditional_lines() {
    let detail = decision_detail(&fallback_decision(3, 2));
    assert_eq!(detail.selected_action, "neutral input");
    assert_eq!(detail.emission, "accepted");
    assert_eq!(detail.summary, "Intent retreat · source fallback · outcome fallback · observation 4 @ tick 13");
    assert_eq!(detail.decision_duration, Elapsed { seconds: 0, nanos: 150_000 });
    assert!(matches!(&detail.inference, DurationCell::Text(t) if t == "not used"));
    assert_eq!(detail.budget, "EXHAUSTED");
    assert!(detail.candidates.is_empty());
    assert_eq!(detail.no_candidates.as_deref(), Some("  —"));
    assert_eq!(detail.constraints, vec!["  none".to_owned()]);
    assert_eq!(detail.fallback.as_deref(), Some("Fallback: budget"));

    let detail = decision_detail(&decision(3, 1));
    assert!(matches!(detail.inference, DurationCell::Measured(Elapsed { seconds: 0, nanos: 20_000 })));
    assert_eq!(detail.budget, "within limit");
    assert_eq!(detail.candidates.len(), 1);
    assert_eq!(detail.candidates[0].action, "advance");
    assert_eq!(detail.candidates[0].score, 0.5);
    assert_eq!(detail.candidates[0].disposition, "selected");
    assert!(detail.no_candidates.is_none());
    assert_eq!(detail.constraints, vec!["  navigation → detour".to_owned()]);
    assert!(detail.fallback.is_none());
}

#[test]
fn sensorium_panel_lists_channels_and_memory_in_order() {
    let snapshot = sensorium(
        3,
        vec![
            item(9, MemoryKind::Spatial, MemoryStatus::Observed),
            item(2, MemoryKind::Working, MemoryStatus::Observed),
        ],
    );
    let rows = sensorium_rows(&snapshot);
    assert_eq!(rows.observation, "3");
    assert_eq!(rows.tick, "12");
    assert_eq!(rows.recorded_at, 900);
    assert_eq!(rows.schema_policy, "1 / classical-v1");
    assert_eq!(rows.channel_title, "Senses, body, capacity, performance · 2 perceived");
    assert_eq!(rows.channels.len(), 1);
    assert_eq!(rows.channels[0].kind, "vision");
    assert_eq!(rows.channels[0].availability, "admitted");
    assert_eq!(rows.channels[0].summary, "two visible silhouettes");
    assert_eq!(rows.channels[0].decision, "applied");
    assert_eq!(rows.memory.iter().map(|m| m.token.as_str()).collect::<Vec<_>>(), vec!["9", "2"]);
    assert_eq!(rows.memory[0].kind, "spatial");
    assert_eq!(rows.memory[0].status, "observed");
    assert_eq!(rows.memory[0].summary, "key under the mat");
    assert_eq!(rows.memory[0].confidence, 0.75);
    assert_eq!(rows.memory[0].uncertainty, 0.25);
    assert_eq!(rows.memory[0].age, Elapsed { seconds: 1, nanos: 0 });
    assert_eq!(rows.memory[0].policy, "used");
}
