use blackflower::diagnostics::identity::{
    AgentDescriptor, AgentDiagnosticError, AgentId, DecisionConstraint, DiagnosticText,
    SensoriumChannelSnapshot,
};
use blackflower::diagnostics::kinds::{
    AgentHealth, DecisionOutcome, DiagnosticRecordKind, FallbackReason, MemoryEvictionReason,
    MemoryKind, MemoryStatus, NavigationQueryResult, PolicySource, SensoriumAvailability,
    SensoriumChannelKind,
};
use blackflower::diagnostics::memory::{
    memory_counts, memory_gauge_deltas, memory_gauge_release, memory_identity, memory_slot,
    MemoryGaugeAdjustment,
};
use blackflower::diagnostics::metrics::{describe_agent_metrics, initialize_agent_metrics};
use blackflower::diagnostics::records::{
    ensure_agent, validate_decision_shape, validate_fallback_reason, validate_memory_token,
    validate_sensorium_shape,
};
use blackflower::diagnostics::snapshots::{DecisionRecord, Elapsed, SensoriumSnapshot};
use blackflower::telemetry::{MetricKind, MetricUnit};

fn text(value: &str) -> DiagnosticText {
    DiagnosticText::new(value.to_owned()).expect("valid diagnostic text")
}

#[test]
fn diagnostic_text_enforces_length_and_characters() {
    assert_eq!(text("advance").as_str(), "advance");
    assert_eq!(
        DiagnosticText::new(String::new()),
        Err(AgentDiagnosticError::InvalidTextLength { actual: 0, maximum: 96 })
    );
    assert_eq!(
        DiagnosticText::new("x".repeat(97)),
        Err(AgentDiagnosticError::InvalidTextLength { actual: 97, maximum: 96 })
    );
    assert!(DiagnosticText::new("x".repeat(96)).is_ok());
    assert_eq!(
        DiagnosticText::new("é".repeat(49)),
        Err(AgentDiagnosticError::InvalidTextLength { actual: 98, maximum: 96 })
    );
    assert_eq!(
        DiagnosticText::new("line\nbreak".to_owned()),
        Err(AgentDiagnosticError::InvalidTextCharacter)
    );
    assert_eq!(
        DiagnosticText::new("c1\u{85}control".to_owned()),
        Err(AgentDiagnosticError::InvalidTextCharacter)
    );
    assert_eq!(text("naïve").as_str(), "naïve");
}

#[test]
fn descriptors_and_projections_keep_their_fields() {
    let id = AgentId::new(7);
    assert_eq!(id.get(), 7);
    assert_eq!(id.to_text(), "07");
    assert_eq!(AgentId::new(123).to_text(), "123");
    let descriptor = AgentDescriptor::new(id, text("veteran"), text("policy-3"));
    assert_eq!(descriptor.id(), id);
    assert_eq!(descriptor.difficulty().as_str(), "veteran");
    assert_eq!(descriptor.policy_version().as_str(), "policy-3");

    let channel = SensoriumChannelSnapshot::new(
        SensoriumChannelKind::Hearing,
        SensoriumAvailability::ReactionGated,
        text("footsteps north"),
        true,
    );
    assert_eq!(channel.kind(), SensoriumChannelKind::Hearing);
    assert_eq!(channel.availability(), SensoriumAvailability::ReactionGated);
    assert_eq!(channel.summary().as_str(), "footsteps north");
    assert!(channel.affected_decision());

    let constraint = DecisionConstraint::new(text("navigation"), text("clamped"));
    assert_eq!(constraint.stage().as_str(), "navigation");
    assert_eq!(constraint.effect().as_str(), "clamped");
}

#[test]
fn labels_are_stable() {
    assert_eq!(AgentHealth::Stalled.as_str(), "stalled");
    assert_eq!(SensoriumChannelKind::Performance.as_str(), "performance");
    assert_eq!(SensoriumAvailability::ReactionGated.as_str(), "reaction gated");
    assert_eq!(MemoryKind::Episodic.as_str(), "episodic");
    assert_eq!(MemoryStatus::Remembered.as_str(), "remembered");
    assert_eq!(PolicySource::NeuralNetwork.as_str(), "nn");
    assert_eq!(DecisionOutcome::Rejected.as_str(), "rejected");
    assert_eq!(FallbackReason::InvalidAction.as_str(), "invalid_action");
    assert_eq!(DiagnosticRecordKind::Sensorium.as_str(), "sensorium");
    assert_eq!(NavigationQueryResult::NoPath.as_str(), "no_path");
    assert_eq!(MemoryEvictionReason::Contradicted.as_str(), "contradicted");
}

#[test]
fn snapshots_reject_duplicate_channels_and_unclassified_fallbacks() {
    assert_eq!(
        DiagnosticText::new("line\nbreak".to_owned()),
        Err(AgentDiagnosticError::InvalidTextCharacter)
    );
    let agent_id = AgentId::new(7);
    let channel = SensoriumChannelSnapshot::new(
        SensoriumChannelKind::Vision,
        SensoriumAvailability::Admitted,
        text("two visible silhouettes"),
        true,
    );
    let duplicate = SensoriumSnapshot::<f32>::new(
        agent_id,
        1,
        4,
        1,
        text("classical-v1"),
        2,
        vec![channel.clone(), channel],
        Vec::new(),
        0,
    );
    assert!(matches!(duplicate, Err(AgentDiagnosticError::DuplicateSensoriumChannel)));

    let fallback = DecisionRecord::<f32>::new(
        agent_id,
        1,
        1,
        4,
        text("hold cover"),
        PolicySource::Fallback,
        DecisionOutcome::Fallback,
        text("neutral input"),
        text("accepted"),
        Vec::new(),
        Vec::new(),
        Elapsed { seconds: 0, nanos: 50_000 },
        None,
        false,
        None,
        0,
    );
    assert!(matches!(fallback, Err(AgentDiagnosticError::MissingFallbackReason)));
    assert_eq!(validate_decision_shape(1, 1, 0, 0, DecisionOutcome::Fallback, None), Err(AgentDiagnosticError::MissingFallbackReason));
    assert_eq!(validate_sensorium_shape(1, 1, &[SensoriumChannelKind::Vision], &[1]), Ok(()));
}

#[test]
fn validation_reports_the_first_broken_rule() {
    assert_eq!(
        validate_sensorium_shape(0, 0, &[], &[]),
        Err(AgentDiagnosticError::ZeroObservationSequence)
    );
    assert_eq!(
        validate_sensorium_shape(3, 0, &[], &[]),
        Err(AgentDiagnosticError::ZeroSchemaVersion)
    );
    assert_eq!(
        validate_sensorium_shape(3, 2, &[SensoriumChannelKind::Body; 9], &[]),
        Err(AgentDiagnosticError::CollectionTooLarge {
            collection: "sensorium channels",
            actual: 9,
            maximum: 8,
        })
    );
    let tokens: Vec<u64> = (1..=33).collect();
    assert_eq!(
        validate_sensorium_shape(3, 2, &[], &tokens),
        Err(AgentDiagnosticError::CollectionTooLarge {
            collection: "memory items",
            actual: 33,
            maximum: 32,
        })
    );
    assert_eq!(validate_sensorium_shape(3, 2, &[], &tokens[..32]), Ok(()));
    assert_eq!(
        validate_decision_shape(0, 0, 0, 0, DecisionOutcome::Completed, None),
        Err(AgentDiagnosticError::ZeroDecisionSequence)
    );
    assert_eq!(
        validate_decision_shape(5, 0, 0, 0, DecisionOutcome::Completed, None),
        Err(AgentDiagnosticError::ZeroObservationSequence)
    );
    assert_eq!(
        validate_decision_shape(5, 4, 9, 0, DecisionOutcome::Completed, None),
        Err(AgentDiagnosticError::CollectionTooLarge {
            collection: "decision candidates",
            actual: 9,
            maximum: 8,
        })
    );
    assert_eq!(
        validate_decision_shape(5, 4, 8, 13, DecisionOutcome::Completed, None),
        Err(AgentDiagnosticError::CollectionTooLarge {
            collection: "decision constraints",
            actual: 13,
            maximum: 12,
        })
    );
    assert_eq!(validate_decision_shape(5, 4, 8, 12, DecisionOutcome::Held, None), Ok(()));
    assert_eq!(
        validate_fallback_reason(DecisionOutcome::Fallback, None),
        Err(AgentDiagnosticError::MissingFallbackReason)
    );
    assert_eq!(validate_memory_token(0), Err(AgentDiagnosticError::ZeroMemoryToken));
    assert_eq!(validate_memory_token(17), Ok(()));
}

#[test]
fn runtime_rejects_records_of_another_agent() {
    let mine = AgentId::new(1);
    let other = AgentId::new(2);
    assert_eq!(ensure_agent(Some(mine), mine), Ok(()));
    assert_eq!(ensure_agent(None, other), Ok(()));
    assert_eq!(
        ensure_agent(Some(mine), other),
        Err(AgentDiagnosticError::AgentIdentityMismatch { expected: mine, actual: other })
    );
}

#[test]
fn memory_series_are_a_bijection() {
    for slot in 0..16 {
        let (kind, status) = memory_identity(slot);
        assert_eq!(memory_slot(kind, status), slot);
    }
    assert_eq!(memory_slot(MemoryKind::Working, MemoryStatus::Expired), 15);
    assert_eq!(memory_slot(MemoryKind::Spatial, MemoryStatus::Inferred), 6);
}

#[test]
fn memory_counts_saturate_and_gauges_follow_changes() {
    let counts = memory_counts(&[
        (MemoryKind::Sensory, MemoryStatus::Observed, 2),
        (MemoryKind::Working, MemoryStatus::Expired, u32::MAX),
        (MemoryKind::Sensory, MemoryStatus::Observed, 3),
        (MemoryKind::Working, MemoryStatus::Expired, 1),
    ]);
    assert_eq!(counts.len(), 16);
    assert_eq!(counts[0], 5);
    assert_eq!(counts[15], u32::MAX);
    assert!(counts[1..15].iter().all(|count| *count == 0));

    let previous = vec![0_u32; 16];
    let mut next = vec![0_u32; 16];
    next[0] = 3;
    next[6] = 1;
    let changes = memory_gauge_deltas(&previous, &next);
    assert_eq!(
        changes,
        vec![
            MemoryGaugeAdjustment {
                kind: MemoryKind::Sensory,
                status: MemoryStatus::Observed,
                delta: 3
            },
            MemoryGaugeAdjustment {
                kind: MemoryKind::Spatial,
                status: MemoryStatus::Inferred,
                delta: 1
            },
        ]
    );
    let back = memory_gauge_deltas(&next, &previous);
    assert_eq!(back[0].delta, -3);
    assert_eq!(memory_gauge_release(&next), back);
}

#[test]
fn agent_metric_registry_covers_every_owned_family() {
    let plan = initialize_agent_metrics();
    assert_eq!(plan.len(), 1 + 4 + 16 + 3 + 5 + 4 + 16 + 1);
    assert_eq!(plan[0].name, "blackflower_agent_active_agents");
    assert_eq!(plan[0].kind, MetricKind::Gauge);
    assert_eq!(plan[1].labels, vec![("health", "starting")]);
    assert_eq!(plan[6].labels, vec![("source", "classical"), ("outcome", "held")]);
    assert_eq!(plan.last().map(|series| series.name), Some("blackflower_agent_decision_budget_exhaustions_total"));
    let descriptions = describe_agent_metrics();
    assert_eq!(descriptions.len(), 12);
    for expected in [
        "blackflower_agent_active_agents",
        "blackflower_agent_agents",
        "blackflower_agent_decisions_total",
        "blackflower_agent_decision_duration_seconds",
        "blackflower_agent_inference_duration_seconds",
        "blackflower_agent_perceived_entities",
        "blackflower_agent_navigation_query_duration_seconds",
        "blackflower_agent_fallbacks_total",
        "blackflower_agent_decision_budget_exhaustions_total",
        "blackflower_agent_memory_items",
        "blackflower_agent_memory_evictions_total",
        "blackflower_agent_diagnostic_records_dropped_total",
    ] {
        assert!(
            descriptions.iter().any(|description| description.name == expected),
            "missing metric {expected}"
        );
    }
    assert_eq!(descriptions[3].unit, MetricUnit::Seconds);
}

#[test]
fn gauge_adjustments_reconcile_every_series() {
    let previous: Vec<u32> = (0..16).map(|slot| slot * 3).collect();
    let next: Vec<u32> = (0..16).map(|slot| if slot % 2 == 0 { slot * 3 } else { 40 - slot }).collect();
    let changes = memory_gauge_deltas(&previous, &next);
    let mut gauges: Vec<i64> = previous.iter().map(|count| i64::from(*count)).collect();
    for change in &changes {
        gauges[memory_slot(change.kind, change.status)] += i64::from(change.delta);
    }
    let expected: Vec<i64> = next.iter().map(|count| i64::from(*count)).collect();
    assert_eq!(gauges, expected);
    assert_eq!(changes.len(), 8);
}
