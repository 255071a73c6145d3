//! Bounded low-cardinality classifications carried by agent diagnostics and metrics.
use vstd::prelude::*;

verus! {

/// Bounded health classification used for aggregate metrics and live status.
#[derive(Debug, Clone, Copy, PartialEq, Eq, Hash, Structural)]
#[non_exhaustive]
pub enum AgentHealth {
    /// Runtime is establishing or synchronizing the ordinary-client session.
    Starting,
    /// Runtime and controller are making expected progress.
    Healthy,
    /// Progress has exceeded the controller's bounded freshness threshold.
    Stalled,
    /// A bounded fallback is currently protecting the input boundary.
    Fallback,
}

impl AgentHealth {
    /// Every value, in declaration order.
    pub const ALL: [AgentHealth; 4] = [
        AgentHealth::Starting,
        AgentHealth::Healthy,
        AgentHealth::Stalled,
        AgentHealth::Fallback,
    ];

    /// The stable label of the value.
    pub open spec fn label(self) -> Seq<char> {
        match self {
            AgentHealth::Starting => "starting"@,
            AgentHealth::Healthy => "healthy"@,
            AgentHealth::Stalled => "stalled"@,
            AgentHealth::Fallback => "fallback"@,
        }
    }

    /// Declaration position of the value.
    pub open spec fn ordinal(self) -> nat {
        match self {
            AgentHealth::Starting => 0,
            AgentHealth::Healthy => 1,
            AgentHealth::Stalled => 2,
            AgentHealth::Fallback => 3,
        }
    }

    /// Stable low-cardinality metric value.
    pub fn as_str(self) -> (label: &'static str)
        ensures
            label@ == self.label(),
    {
        match self {
            AgentHealth::Starting => "starting",
            AgentHealth::Healthy => "healthy",
            AgentHealth::Stalled => "stalled",
            AgentHealth::Fallback => "fallback",
        }
    }
}

/// Stable semantic sensorium group rendered by the foreground UI.
#[derive(Debug, Clone, Copy, PartialEq, Eq, PartialOrd, Ord, Hash, Structural)]
#[non_exhaustive]
pub enum SensoriumChannelKind {
    /// Gameplay-admitted semantic visual evidence.
    Vision,
    /// Privacy-preserving acoustic observations.
    Hearing,
    /// Proprioception, impacts, condition, and thermal state.
    Body,
    /// Equipment and currently available action capacity.
    Capacity,
    /// Semantic memory and belief state used by policy.
    Memory,
    /// Gameplay-supplied effective performance derivation.
    Performance,
}

impl SensoriumChannelKind {
    /// Every value, in declaration order.
    pub const ALL: [SensoriumChannelKind; 6] = [
        SensoriumChannelKind::Vision,
        SensoriumChannelKind::Hearing,
        SensoriumChannelKind::Body,
        SensoriumChannelKind::Capacity,
        SensoriumChannelKind::Memory,
        SensoriumChannelKind::Performance,
    ];

    /// The stable label of the value.
    pub open spec fn label(self) -> Seq<char> {
        match self {
            SensoriumChannelKind::Vision => "vision"@,
            SensoriumChannelKind::Hearing => "hearing"@,
            SensoriumChannelKind::Body => "body"@,
            SensoriumChannelKind::Capacity => "capacity"@,
            SensoriumChannelKind::Memory => "memory"@,
            SensoriumChannelKind::Performance => "performance"@,
        }
    }

    /// Declaration position of the value.
    pub open spec fn ordinal(self) -> nat {
        match self {
            SensoriumChannelKind::Vision => 0,
            SensoriumChannelKind::Hearing => 1,
            SensoriumChannelKind::Body => 2,
            SensoriumChannelKind::Capacity => 3,
            SensoriumChannelKind::Memory => 4,
            SensoriumChannelKind::Performance => 5,
        }
    }

    /// Stable operator label.
    pub fn as_str(self) -> (label: &'static str)
        ensures
            label@ == self.label(),
    {
        match self {
            SensoriumChannelKind::Vision => "vision",
            SensoriumChannelKind::Hearing => "hearing",
            SensoriumChannelKind::Body => "body",
            SensoriumChannelKind::Capacity => "capacity",
            SensoriumChannelKind::Memory => "memory",
            SensoriumChannelKind::Performance => "performance",
        }
    }
}

/// Capability state for one gameplay-owned sensorium channel.
#[derive(Debug, Clone, Copy, PartialEq, Eq, Hash, Structural)]
#[non_exhaustive]
pub enum SensoriumAvailability {
    /// Gameplay does not expose this channel to a human or agent yet.
    Unavailable,
    /// A value exists but is older than the gameplay-owned freshness contract.
    Stale,
    /// A newer value exists but has not passed the modeled reaction gate.
    ReactionGated,
    /// The exact value shown was admitted to the current policy decision.
    Admitted,
}

impl SensoriumAvailability {
    /// Every value, in declaration order.
    pub const ALL: [SensoriumAvailability; 4] = [
        SensoriumAvailability::Unavailable,
        SensoriumAvailability::Stale,
        SensoriumAvailability::ReactionGated,
        SensoriumAvailability::Admitted,
    ];

    /// The stable label of the value.
    pub open spec fn label(self) -> Seq<char> {
        match self {
            SensoriumAvailability::Unavailable => "unavailable"@,
            SensoriumAvailability::Stale => "stale"@,
            SensoriumAvailability::ReactionGated => "reaction gated"@,
            SensoriumAvailability::Admitted => "admitted"@,
        }
    }

    /// Declaration position of the value.
    pub open spec fn ordinal(self) -> nat {
        match self {
            SensoriumAvailability::Unavailable => 0,
            SensoriumAvailability::Stale => 1,
            SensoriumAvailability::ReactionGated => 2,
            SensoriumAvailability::Admitted => 3,
        }
    }

    /// Stable operator label.
    pub fn as_str(self) -> (label: &'static str)
        ensures
            label@ == self.label(),
    {
        match self {
            SensoriumAvailability::Unavailable => "unavailable",
            SensoriumAvailability::Stale => "stale",
            SensoriumAvailability::ReactionGated => "reaction gated",
            SensoriumAvailability::Admitted => "admitted",
        }
    }
}

/// Stable semantic-memory class used by metrics and live records.
#[derive(Debug, Clone, Copy, PartialEq, Eq, PartialOrd, Ord, Hash, Structural)]
#[non_exhaustive]
pub enum MemoryKind {
    /// Short-lived legal sensory evidence.
    Sensory,
    /// Last-known or inferred relative spatial belief.
    Spatial,
    /// Bounded recent event or outcome.
    Episodic,
    /// Current goal, plan, target token, or unresolved task.
    Working,
}

impl MemoryKind {
    /// Every value, in declaration order.
    pub const ALL: [MemoryKind; 4] = [
        MemoryKind::Sensory,
        MemoryKind::Spatial,
        MemoryKind::Episodic,
        MemoryKind::Working,
    ];

    /// The stable label of the value.
    pub open spec fn label(self) -> Seq<char> {
        match self {
            MemoryKind::Sensory => "sensory"@,
            MemoryKind::Spatial => "spatial"@,
            MemoryKind::Episodic => "episodic"@,
            MemoryKind::Working => "working"@,
        }
    }

    /// Declaration position of the value.
    pub open spec fn ordinal(self) -> nat {
        match self {
            MemoryKind::Sensory => 0,
            MemoryKind::Spatial => 1,
            MemoryKind::Episodic => 2,
            MemoryKind::Working => 3,
        }
    }

    /// Stable low-cardinality metric value.
    pub fn as_str(self) -> (label: &'static str)
        ensures
            label@ == self.label(),
    {
        match self {
            MemoryKind::Sensory => "sensory",
            MemoryKind::Spatial => "spatial",
            MemoryKind::Episodic => "episodic",
            MemoryKind::Working => "working",
        }
    }
}

/// Stable memory-evidence state.
#[derive(Debug, Clone, Copy, PartialEq, Eq, PartialOrd, Ord, Hash, Structural)]
#[non_exhaustive]
pub enum MemoryStatus {
    /// Evidence is directly observed and legal now.
    Observed,
    /// Evidence is retained from an earlier legal observation.
    Remembered,
    /// Evidence is explicitly inferred with bounded uncertainty.
    Inferred,
    /// Evidence is expired but retained in the bounded diagnostic timeline.
    Expired,
}

impl MemoryStatus {
    /// Every value, in declaration order.
    pub const ALL: [MemoryStatus; 4] = [
        MemoryStatus::Observed,
        MemoryStatus::Remembered,
        MemoryStatus::Inferred,
        MemoryStatus::Expired,
    ];

    /// The stable label of the value.
    pub open spec fn label(self) -> Seq<char> {
        match self {
            MemoryStatus::Observed => "observed"@,
            MemoryStatus::Remembered => "remembered"@,
            MemoryStatus::Inferred => "inferred"@,
            MemoryStatus::Expired => "expired"@,
        }
    }

    /// Declaration position of the value.
    pub open spec fn ordinal(self) -> nat {
        match self {
            MemoryStatus::Observed => 0,
            MemoryStatus::Remembered => 1,
            MemoryStatus::Inferred => 2,
            MemoryStatus::Expired => 3,
        }
    }

    /// Stable low-cardinality metric value.
    pub fn as_str(self) -> (label: &'static str)
        ensures
            label@ == self.label(),
    {
        match self {
            MemoryStatus::Observed => "observed",
            MemoryStatus::Remembered => "remembered",
            MemoryStatus::Inferred => "inferred",
            MemoryStatus::Expired => "expired",
        }
    }
}

/// Bounded source of the selected semantic decision.
#[derive(Debug, Clone, Copy, PartialEq, Eq, Hash, Structural)]
#[non_exhaustive]
pub enum PolicySource {
    /// Classical behavior policy selected a new action.
    Classical,
    /// A local neural-network policy selected a new action.
    NeuralNetwork,
    /// The controller continued a previously selected bounded plan.
    Held,
    /// A bounded safety fallback replaced normal policy output.
    Fallback,
}

impl PolicySource {
    /// Every value, in declaration order.
    pub const ALL: [PolicySource; 4] = [
        PolicySource::Classical,
        PolicySource::NeuralNetwork,
        PolicySource::Held,
        PolicySource::Fallback,
    ];

    /// The stable label of the value.
    pub open spec fn label(self) -> Seq<char> {
        match self {
            PolicySource::Classical => "classical"@,
            PolicySource::NeuralNetwork => "nn"@,
            PolicySource::Held => "held"@,
            PolicySource::Fallback => "fallback"@,
        }
    }

    /// Declaration position of the value.
    pub open spec fn ordinal(self) -> nat {
        match self {
            PolicySource::Classical => 0,
            PolicySource::NeuralNetwork => 1,
            PolicySource::Held => 2,
            PolicySource::Fallback => 3,
        }
    }

    /// Stable low-cardinality metric value.
    pub fn as_str(self) -> (label: &'static str)
        ensures
            label@ == self.label(),
    {
        match self {
            PolicySource::Classical => "classical",
            PolicySource::NeuralNetwork => "nn",
            PolicySource::Held => "held",
            PolicySource::Fallback => "fallback",
        }
    }
}

/// Bounded outcome of one scheduled decision.
#[derive(Debug, Clone, Copy, PartialEq, Eq, Hash, Structural)]
#[non_exhaustive]
pub enum DecisionOutcome {
    /// A new semantic action was emitted successfully.
    Completed,
    /// A prior bounded plan remained active.
    Held,
    /// The harness or action validator rejected the result.
    Rejected,
    /// A neutral or classical fallback was emitted.
    Fallback,
}

impl DecisionOutcome {
    /// Every value, in declaration order.
    pub const ALL: [DecisionOutcome; 4] = [
        DecisionOutcome::Completed,
        DecisionOutcome::Held,
        DecisionOutcome::Rejected,
        DecisionOutcome::Fallback,
    ];

    /// The stable label of the value.
    pub open spec fn label(self) -> Seq<char> {
        match self {
            DecisionOutcome::Completed => "completed"@,
            DecisionOutcome::Held => "held"@,
            DecisionOutcome::Rejected => "rejected"@,
            DecisionOutcome::Fallback => "fallback"@,
        }
    }

    /// Declaration position of the value.
    pub open spec fn ordinal(self) -> nat {
        match self {
            DecisionOutcome::Completed => 0,
            DecisionOutcome::Held => 1,
            DecisionOutcome::Rejected => 2,
            DecisionOutcome::Fallback => 3,
        }
    }

    /// Stable low-cardinality metric value.
    pub fn as_str(self) -> (label: &'static str)
        ensures
            label@ == self.label(),
    {
        match self {
            DecisionOutcome::Completed => "completed",
            DecisionOutcome::Held => "held",
            DecisionOutcome::Rejected => "rejected",
            DecisionOutcome::Fallback => "fallback",
        }
    }
}

/// Stable bounded fallback reason.
#[derive(Debug, Clone, Copy, PartialEq, Eq, Hash, Structural)]
#[non_exhaustive]
pub enum FallbackReason {
    /// No legal policy result was available before the decision deadline.
    Budget,
    /// Policy or inference produced an unusable result.
    Policy,
    /// Navigation could not produce a legal route or steering result.
    Navigation,
    /// Gameplay action validation rejected the selected action.
    InvalidAction,
    /// The ordinary-client session was not ready for input.
    Session,
}

impl FallbackReason {
    /// Every value, in declaration order.
    pub const ALL: [FallbackReason; 5] = [
        FallbackReason::Budget,
        FallbackReason::Policy,
        FallbackReason::Navigation,
        FallbackReason::InvalidAction,
        FallbackReason::Session,
    ];

    /// The stable label of the value.
    pub open spec fn label(self) -> Seq<char> {
        match self {
            FallbackReason::Budget => "budget"@,
            FallbackReason::Policy => "policy"@,
            FallbackReason::Navigation => "navigation"@,
            FallbackReason::InvalidAction => "invalid_action"@,
            FallbackReason::Session => "session"@,
        }
    }

    /// Declaration position of the value.
    pub open spec fn ordinal(self) -> nat {
        match self {
            FallbackReason::Budget => 0,
            FallbackReason::Policy => 1,
            FallbackReason::Navigation => 2,
            FallbackReason::InvalidAction => 3,
            FallbackReason::Session => 4,
        }
    }

    /// Stable low-cardinality metric value.
    pub fn as_str(self) -> (label: &'static str)
        ensures
            label@ == self.label(),
    {
        match self {
            FallbackReason::Budget => "budget",
            FallbackReason::Policy => "policy",
            FallbackReason::Navigation => "navigation",
            FallbackReason::InvalidAction => "invalid_action",
            FallbackReason::Session => "session",
        }
    }
}

/// Stable bounded diagnostic queue record kind.
#[derive(Debug, Clone, Copy, PartialEq, Eq, PartialOrd, Ord, Hash, Structural)]
pub enum DiagnosticRecordKind {
    /// Runtime lifecycle/health snapshot.
    Status,
    /// Sensorium and semantic-memory snapshot.
    Sensorium,
    /// Completed decision record.
    Decision,
}

impl DiagnosticRecordKind {
    /// Every value, in declaration order.
    pub const ALL: [DiagnosticRecordKind; 3] = [
        DiagnosticRecordKind::Status,
        DiagnosticRecordKind::Sensorium,
        DiagnosticRecordKind::Decision,
    ];

    /// The stable label of the value.
    pub open spec fn label(self) -> Seq<char> {
        match self {
            DiagnosticRecordKind::Status => "status"@,
            DiagnosticRecordKind::Sensorium => "sensorium"@,
            DiagnosticRecordKind::Decision => "decision"@,
        }
    }

    /// Declaration position of the value.
    pub open spec fn ordinal(self) -> nat {
        match self {
            DiagnosticRecordKind::Status => 0,
            DiagnosticRecordKind::Sensorium => 1,
            DiagnosticRecordKind::Decision => 2,
        }
    }

    /// Stable low-cardinality metric value.
    pub fn as_str(self) -> (label: &'static str)
        ensures
            label@ == self.label(),
    {
        match self {
            DiagnosticRecordKind::Status => "status",
            DiagnosticRecordKind::Sensorium => "sensorium",
            DiagnosticRecordKind::Decision => "decision",
        }
    }
}

/// Stable bounded result of one navigation-worker query.
#[derive(Debug, Clone, Copy, PartialEq, Eq, Hash, Structural)]
#[non_exhaustive]
pub enum NavigationQueryResult {
    /// A complete route was produced.
    Complete,
    /// A bounded partial route was produced explicitly.
    Partial,
    /// No legal route exists under the cooked filter.
    NoPath,
    /// Query validation or native execution failed.
    Failed,
}

impl NavigationQueryResult {
    /// Every value, in declaration order.
    pub const ALL: [NavigationQueryResult; 4] = [
        NavigationQueryResult::Complete,
        NavigationQueryResult::Partial,
        NavigationQueryResult::NoPath,
        NavigationQueryResult::Failed,
    ];

    /// The stable label of the value.
    pub open spec fn label(self) -> Seq<char> {
        match self {
            NavigationQueryResult::Complete => "complete"@,
            NavigationQueryResult::Partial => "partial"@,
            NavigationQueryResult::NoPath => "no_path"@,
            NavigationQueryResult::Failed => "failed"@,
        }
    }

    /// Declaration position of the value.
    pub open spec fn ordinal(self) -> nat {
        match self {
            NavigationQueryResult::Complete => 0,
            NavigationQueryResult::Partial => 1,
            NavigationQueryResult::NoPath => 2,
            NavigationQueryResult::Failed => 3,
        }
    }

    /// Stable low-cardinality metric value.
    pub fn as_str(self) -> (label: &'static str)
        ensures
            label@ == self.label(),
    {
        match self {
            NavigationQueryResult::Complete => "complete",
            NavigationQueryResult::Partial => "partial",
            NavigationQueryResult::NoPath => "no_path",
            NavigationQueryResult::Failed => "failed",
        }
    }
}

/// Stable bounded semantic-memory eviction reason.
#[derive(Debug, Clone, Copy, PartialEq, Eq, Hash, Structural)]
#[non_exhaustive]
pub enum MemoryEvictionReason {
    /// Gameplay-owned time-to-live expired.
    Expired,
    /// A bounded memory class reached capacity.
    Capacity,
    /// New legal evidence invalidated an older belief.
    Contradicted,
    /// Episode, map, control binding, or resync reset memory.
    Reset,
}

impl MemoryEvictionReason {
    /// Every value, in declaration order.
    pub const ALL: [MemoryEvictionReason; 4] = [
        MemoryEvictionReason::Expired,
        MemoryEvictionReason::Capacity,
        MemoryEvictionReason::Contradicted,
        MemoryEvictionReason::Reset,
    ];

    /// The stable label of the value.
    pub open spec fn label(self) -> Seq<char> {
        match self {
            MemoryEvictionReason::Expired => "expired"@,
            MemoryEvictionReason::Capacity => "capacity"@,
            MemoryEvictionReason::Contradicted => "contradicted"@,
            MemoryEvictionReason::Reset => "reset"@,
        }
    }

    /// Declaration position of the value.
    pub open spec fn ordinal(self) -> nat {
        match self {
            MemoryEvictionReason::Expired => 0,
            MemoryEvictionReason::Capacity => 1,
            MemoryEvictionReason::Contradicted => 2,
            MemoryEvictionReason::Reset => 3,
        }
    }

    /// Stable low-cardinality metric value.
    pub fn as_str(self) -> (label: &'static str)
        ensures
            label@ == self.label(),
    {
        match self {
            MemoryEvictionReason::Expired => "expired",
            MemoryEvictionReason::Capacity => "capacity",
            MemoryEvictionReason::Contradicted => "contradicted",
            MemoryEvictionReason::Reset => "reset",
        }
    }
}

/// State of the ordinary-client session an agent runtime drives.
#[derive(Debug, Clone, Copy, PartialEq, Eq, Hash, Structural)]
pub enum SessionState {
    /// The transport is being established.
    Connecting,
    /// The transport is secured.
    Secure,
    /// The protocol revision is being negotiated.
    Negotiating,
    /// Required content is being checked.
    ContentChecking,
    /// World state is being synchronized.
    Synchronizing,
    /// The session is live.
    Active,
    /// World state is being synchronized again after a gap.
    Resynchronizing,
    /// The session is closing.
    Closing,
}

impl SessionState {
    /// The short label the dashboard shows for the state.
    pub open spec fn label(self) -> Seq<char> {
        match self {
            SessionState::Connecting => "connecting"@,
            SessionState::Secure => "secure"@,
            SessionState::Negotiating => "negotiating"@,
            SessionState::ContentChecking => "content"@,
            SessionState::Synchronizing => "syncing"@,
            SessionState::Active => "active"@,
            SessionState::Resynchronizing => "resyncing"@,
            SessionState::Closing => "closing"@,
        }
    }

    /// Return the short label the dashboard shows for the state.
    pub fn as_str(self) -> (label: &'static str)
        ensures
            label@ == self.label(),
    {
        match self {
            SessionState::Connecting => "connecting",
            SessionState::Secure => "secure",
            SessionState::Negotiating => "negotiating",
            SessionState::ContentChecking => "content",
            SessionState::Synchronizing => "syncing",
            SessionState::Active => "active",
            SessionState::Resynchronizing => "resyncing",
            SessionState::Closing => "closing",
        }
    }
}

} // verus!
