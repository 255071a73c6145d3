//! Health transitions of an agent runtime and the state of its live diagnostic stream.
use vstd::prelude::*;
use super::kinds::{AgentHealth, DiagnosticRecordKind};

verus! {

/// A change of an agent's health: the agents gauge moves one unit from `left` to
/// `entered`.
#[derive(Debug, Clone, Copy, PartialEq, Eq, Structural)]
pub struct HealthChange {
    pub left: AgentHealth,
    pub entered: AgentHealth,
}

/// Whether a health is reported to operators as a degradation.
pub open spec fn is_degraded(health: AgentHealth) -> bool {
    health == AgentHealth::Stalled || health == AgentHealth::Fallback
}

/// Whether a health is a degradation (stalled or in fallback) rather than a recovery.
pub fn degraded(health: AgentHealth) -> (degraded: bool)
    ensures
        degraded == is_degraded(health),
{
    health == AgentHealth::Stalled || health == AgentHealth::Fallback
}

/// What moves an agent's health.
#[derive(Debug, Clone, Copy, PartialEq, Eq, Structural)]
pub enum HealthEvent {
    /// The controller reports a health.
    Reported(AgentHealth),
    /// The session changes state; whether the new state is active.
    SessionChanged(bool),
}

/// The health change an event makes, if any: a reported health that differs from the
/// current one replaces it, and a session becoming active makes a starting agent healthy.
pub open spec fn spec_health_change(current: AgentHealth, event: HealthEvent) -> Option<HealthChange> {
    match event {
        HealthEvent::Reported(health) => if health == current {
            None
        } else {
            Some(HealthChange { left: current, entered: health })
        },
        HealthEvent::SessionChanged(active) => if active && current == AgentHealth::Starting {
            Some(HealthChange { left: AgentHealth::Starting, entered: AgentHealth::Healthy })
        } else {
            None
        },
    }
}

/// Return the health change an event makes, if any.
pub fn health_change(current: AgentHealth, event: HealthEvent) -> (change: Option<HealthChange>)
    ensures
        change == spec_health_change(current, event),
{
    match event {
        HealthEvent::Reported(health) => if health == current {
            None
        } else {
            Some(HealthChange { left: current, entered: health })
        },
        HealthEvent::SessionChanged(active) => if active && current == AgentHealth::Starting {
            Some(HealthChange { left: AgentHealth::Starting, entered: AgentHealth::Healthy })
        } else {
            None
        },
    }
}

/// Health of an agent that connected (as starting) and then saw `events` in order.
pub open spec fn health_after(events: Seq<HealthEvent>) -> AgentHealth
    decreases events.len(),
{
    if events.len() == 0 {
        AgentHealth::Starting
    } else {
        let before = health_after(events.drop_last());
        match spec_health_change(before, events.last()) {
            Some(change) => change.entered,
            None => before,
        }
    }
}

/// The agent's contribution to the agents gauge of one health after connecting (one unit
/// under starting) and then applying the change of each event in order.
pub open spec fn gauge_after(events: Seq<HealthEvent>, health: AgentHealth) -> int
    decreases events.len(),
{
    if events.len() == 0 {
        if health == AgentHealth::Starting {
            1
        } else {
            0
        }
    } else {
        let previous = gauge_after(events.drop_last(), health);
        match spec_health_change(health_after(events.drop_last()), events.last()) {
            Some(change) => previous + (if change.entered == health {
                1int
            } else {
                0int
            }) - (if change.left == health {
                1int
            } else {
                0int
            }),
            None => previous,
        }
    }
}

/// Whatever health events an agent sees, it counts exactly once in the agents gauge, under
/// its current health, and nowhere else.
pub proof fn lemma_agent_counted_once_under_current_health(
    events: Seq<HealthEvent>,
    health: AgentHealth,
)
    ensures
        gauge_after(events, health) == (if health_after(events) == health {
            1int
        } else {
            0int
        }),
    decreases events.len(),
{
    if events.len() > 0 {
        lemma_agent_counted_once_under_current_health(events.drop_last(), health);
    }
}

/// What became of one attempt to hand a record to the live observer.
#[derive(Debug, Clone, Copy, PartialEq, Eq, Structural)]
pub enum SendOutcome {
    Sent,
    /// The bounded queue was full and the record was dropped.
    Full,
    /// The observer has gone.
    Disconnected,
}

/// A change of the stream worth telling operators about.
#[derive(Debug, Clone, Copy, PartialEq, Eq, Structural)]
pub enum StreamNotice {
    /// Records of a kind flow again after some were dropped.
    Recovered,
    /// Records of a kind are being dropped.
    Saturated,
    /// The observer has gone; no more records are built for it.
    Detached,
}

/// Effect of one send attempt.
#[derive(Debug, Clone, Copy, PartialEq, Eq, Structural)]
pub struct PublishEffect {
    /// Whether the dropped-records counter of the record's kind is incremented.
    pub dropped: bool,
    /// The notice to log, if any.
    pub notice: Option<StreamNotice>,
}

/// Abstract state of the stream: whether an observer is attached, and the record kinds
/// currently being dropped.
pub type StreamView = (bool, Set<DiagnosticRecordKind>);

/// Live diagnostic stream of one agent runtime: whether an observer is attached and
/// which record kinds are saturating its bounded queue.
#[derive(Debug, Clone, Copy, PartialEq, Eq)]
pub struct DiagnosticStream {
    attached: bool,
    status_saturated: bool,
    sensorium_saturated: bool,
    decision_saturated: bool,
}

/// The stream's state after one send attempt of a record of `kind`, and its effect.
pub open spec fn spec_after_send(
    stream: StreamView,
    kind: DiagnosticRecordKind,
    outcome: SendOutcome,
) -> (StreamView, PublishEffect) {
    match outcome {
        SendOutcome::Sent => (
            (stream.0, stream.1.remove(kind)),
            PublishEffect {
                dropped: false,
                notice: if stream.1.contains(kind) {
                    Some(StreamNotice::Recovered)
                } else {
                    None
                },
            },
        ),
        SendOutcome::Full => (
            (stream.0, stream.1.insert(kind)),
            PublishEffect {
                dropped: true,
                notice: if stream.1.contains(kind) {
                    None
                } else {
                    Some(StreamNotice::Saturated)
                },
            },
        ),
        SendOutcome::Disconnected => (
            (false, Set::empty()),
            PublishEffect { dropped: false, notice: Some(StreamNotice::Detached) },
        ),
    }
}

impl View for DiagnosticStream {
    type V = StreamView;

    closed spec fn view(&self) -> StreamView {
        (
            self.attached,
            Set::new(
                |kind: DiagnosticRecordKind|
                    match kind {
                        DiagnosticRecordKind::Status => self.status_saturated,
                        DiagnosticRecordKind::Sensorium => self.sensorium_saturated,
                        DiagnosticRecordKind::Decision => self.decision_saturated,
                    },
            ),
        )
    }
}

impl DiagnosticStream {
    /// A stream with or without an attached observer, with nothing dropped yet.
    pub fn new(attached: bool) -> (stream: Self)
        ensures
            stream@ == (attached, Set::<DiagnosticRecordKind>::empty()),
    {
        let stream = DiagnosticStream {
            attached,
            status_saturated: false,
            sensorium_saturated: false,
            decision_saturated: false,
        };
        proof {
            assert(stream@.1 =~= Set::<DiagnosticRecordKind>::empty());
        }
        stream
    }

    /// Whether a live observer justifies building detailed records.
    pub fn records_enabled(&self) -> (enabled: bool)
        ensures
            enabled == self@.0,
    {
        self.attached
    }

    /// Whether records of a kind are currently being dropped.
    pub fn is_saturated(&self, kind: DiagnosticRecordKind) -> (saturated: bool)
        ensures
            saturated == self@.1.contains(kind),
    {
        match kind {
            DiagnosticRecordKind::Status => self.status_saturated,
            DiagnosticRecordKind::Sensorium => self.sensorium_saturated,
            DiagnosticRecordKind::Decision => self.decision_saturated,
        }
    }

    fn set_saturated(&mut self, kind: DiagnosticRecordKind, saturated: bool)
        ensures
            final(self)@.0 == old(self)@.0,
            final(self)@.1 == (if saturated {
                old(self)@.1.insert(kind)
            } else {
                old(self)@.1.remove(kind)
            }),
    {
        match kind {
            DiagnosticRecordKind::Status => self.status_saturated = saturated,
            DiagnosticRecordKind::Sensorium => self.sensorium_saturated = saturated,
            DiagnosticRecordKind::Decision => self.decision_saturated = saturated,
        }
        proof {
            if saturated {
                assert(final(self)@.1 =~= old(self)@.1.insert(kind));
            } else {
                assert(final(self)@.1 =~= old(self)@.1.remove(kind));
            }
        }
    }

    /// Record the outcome of handing a record of `kind` to the observer, and return
    /// whether it counts as dropped and what to tell operators.
    pub fn after_send(&mut self, kind: DiagnosticRecordKind, outcome: SendOutcome) -> (effect: PublishEffect)
        ensures
            (final(self)@, effect) == spec_after_send(old(self)@, kind, outcome),
    {
        let was_saturated = self.is_saturated(kind);
        match outcome {
            SendOutcome::Sent => {
                self.set_saturated(kind, false);
                PublishEffect {
                    dropped: false,
                    notice: if was_saturated {
                        Some(StreamNotice::Recovered)
                    } else {
                        None
                    },
                }
            },
            SendOutcome::Full => {
                self.set_saturated(kind, true);
                PublishEffect {
                    dropped: true,
                    notice: if was_saturated {
                        None
                    } else {
                        Some(StreamNotice::Saturated)
                    },
                }
            },
            SendOutcome::Disconnected => {
                *self = DiagnosticStream {
                    attached: false,
                    status_saturated: false,
                    sensorium_saturated: false,
                    decision_saturated: false,
                };
                proof {
                    assert(self@.1 =~= Set::<DiagnosticRecordKind>::empty());
                }
                PublishEffect { dropped: false, notice: Some(StreamNotice::Detached) }
            },
        }
    }
}

/// The stream's state after a sequence of send attempts, each a record kind and outcome.
pub open spec fn stream_after(
    stream: StreamView,
    sends: Seq<(DiagnosticRecordKind, SendOutcome)>,
) -> StreamView
    decreases sends.len(),
{
    if sends.len() == 0 {
        stream
    } else {
        let before = stream_after(stream, sends.drop_last());
        spec_after_send(before, sends.last().0, sends.last().1).0
    }
}

/// An observer that has gone never comes back: once detached, a stream stays detached
/// whatever send outcomes follow.
pub proof fn lemma_detached_stream_stays_detached(
    stream: StreamView,
    sends: Seq<(DiagnosticRecordKind, SendOutcome)>,
)
    requires
        !stream.0,
    ensures
        !stream_after(stream, sends).0,
    decreases sends.len(),
{
    if sends.len() > 0 {
        lemma_detached_stream_stays_detached(stream, sends.drop_last());
    }
}

} // verus!
