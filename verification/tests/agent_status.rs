use blackflower::diagnostics::kinds::{AgentHealth, DiagnosticRecordKind};
use blackflower::diagnostics::status::{
    degraded, health_change, DiagnosticStream, HealthChange, HealthEvent, PublishEffect,
    SendOutcome, StreamNotice,
};

#[test]
fn reported_health_changes_only_when_it_differs() {
    assert_eq!(health_change(AgentHealth::Healthy, HealthEvent::Reported(AgentHealth::Healthy)), None);
    assert_eq!(
        health_change(AgentHealth::Healthy, HealthEvent::Reported(AgentHealth::Stalled)),
        Some(HealthChange { left: AgentHealth::Healthy, entered: AgentHealth::Stalled })
    );
    assert!(degraded(AgentHealth::Stalled));
    assert!(degraded(AgentHealth::Fallback));
    assert!(!degraded(AgentHealth::Healthy));
    assert!(!degraded(AgentHealth::Starting));
}

#[test]
fn an_active_session_makes_a_starting_agent_healthy() {
    assert_eq!(
        health_change(AgentHealth::Starting, HealthEvent::SessionChanged(true)),
        Some(HealthChange { left: AgentHealth::Starting, entered: AgentHealth::Healthy })
    );
    assert_eq!(health_change(AgentHealth::Starting, HealthEvent::SessionChanged(false)), None);
    assert_eq!(health_change(AgentHealth::Fallback, HealthEvent::SessionChanged(true)), None);
}

#[test]
fn gauges_count_each_agent_once_under_its_health() {
    let mut health = AgentHealth::Starting;
    let mut gauges = [1i64, 0, 0, 0];
    let index = |h: AgentHealth| match h {
        AgentHealth::Starting => 0,
        AgentHealth::Healthy => 1,
        AgentHealth::Stalled => 2,
        AgentHealth::Fallback => 3,
        _ => unreachable!(),
    };
    let events = [
        HealthEvent::Reported(AgentHealth::Starting),
        HealthEvent::SessionChanged(true),
        HealthEvent::Reported(AgentHealth::Stalled),
        HealthEvent::SessionChanged(true),
        HealthEvent::Reported(AgentHealth::Fallback),
        HealthEvent::Reported(AgentHealth::Healthy),
    ];
    for event in events {
        if let Some(change) = health_change(health, event) {
            gauges[index(change.left)] -= 1;
            gauges[index(change.entered)] += 1;
            health = change.entered;
        }
    }
    assert_eq!(health, AgentHealth::Healthy);
    assert_eq!(gauges, [0, 1, 0, 0]);
}

#[test]
fn stream_reports_saturation_once_and_recovery_once() {
    let mut stream = DiagnosticStream::new(true);
    assert!(stream.records_enabled());
    let kind = DiagnosticRecordKind::Decision;
    assert_eq!(
        stream.after_send(kind, SendOutcome::Sent),
        PublishEffect { dropped: false, notice: None }
    );
    assert_eq!(
        stream.after_send(kind, SendOutcome::Full),
        PublishEffect { dropped: true, notice: Some(StreamNotice::Saturated) }
    );
    assert_eq!(
        stream.after_send(kind, SendOutcome::Full),
        PublishEffect { dropped: true, notice: None }
    );
    assert!(stream.is_saturated(kind));
    assert!(!stream.is_saturated(DiagnosticRecordKind::Status));
    assert_eq!(
        stream.after_send(DiagnosticRecordKind::Status, SendOutcome::Sent),
        PublishEffect { dropped: false, notice: None }
    );
    assert_eq!(
        stream.after_send(kind, SendOutcome::Sent),
        PublishEffect { dropped: false, notice: Some(StreamNotice::Recovered) }
    );
    assert!(!stream.is_saturated(kind));
}

#[test]
fn a_detached_stream_stays_detached() {
    let mut stream = DiagnosticStream::new(true);
    stream.after_send(DiagnosticRecordKind::Sensorium, SendOutcome::Full);
    assert_eq!(
        stream.after_send(DiagnosticRecordKind::Status, SendOutcome::Disconnected),
        PublishEffect { dropped: false, notice: Some(StreamNotice::Detached) }
    );
    assert!(!stream.records_enabled());
    assert!(!stream.is_saturated(DiagnosticRecordKind::Sensorium));
    stream.after_send(DiagnosticRecordKind::Status, SendOutcome::Sent);
    assert!(!stream.records_enabled());
    assert!(!DiagnosticStream::new(false).records_enabled());
}
