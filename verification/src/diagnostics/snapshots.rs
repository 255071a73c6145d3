//! Immutable diagnostic records of one agent runtime: status, sensorium, and decisions.
//!
//! Values the library does not interpret are carried through unchanged: the session
//! state as `S` and the normalized measurements (memory confidence and uncertainty,
//! candidate scores) as `F`. Times are nanoseconds of the process's monotonic clock, and
//! durations are whole seconds with sub-second nanoseconds.
use vstd::prelude::*;
use super::identity::{AgentDescriptor, AgentDiagnosticError, AgentId, DecisionConstraint, DiagnosticText, SensoriumChannelSnapshot};
use super::kinds::{
    AgentHealth, DecisionOutcome, DiagnosticRecordKind, FallbackReason, MemoryKind, MemoryStatus,
    PolicySource, SensoriumChannelKind,
};
use super::records::{
    MAX_MEMORY_ITEMS, as_result, decision_shape_error, sensorium_shape_error, validate_decision_shape,
    validate_sensorium_shape,
};

verus! {

/// A duration as whole seconds and sub-second nanoseconds.
#[derive(Debug, Clone, Copy, PartialEq, Eq)]
pub struct Elapsed {
    pub seconds: u64,
    pub nanos: u32,
}

/// One immutable lifecycle view emitted by an established agent runtime.
#[derive(Debug, Clone)]
pub struct AgentStatusSnapshot<S> {
    descriptor: AgentDescriptor,
    session_state: S,
    health: AgentHealth,
    recorded_at: u64,
}

impl<S: Copy> AgentStatusSnapshot<S> {
    /// The static agent descriptor.
    pub closed spec fn spec_descriptor(&self) -> AgentDescriptor {
        self.descriptor
    }

    /// The ordinary-client session state.
    pub closed spec fn spec_session_state(&self) -> S {
        self.session_state
    }

    /// The controller health.
    pub closed spec fn spec_health(&self) -> AgentHealth {
        self.health
    }

    /// The capture time.
    pub closed spec fn spec_recorded_at(&self) -> u64 {
        self.recorded_at
    }

    /// Capture the runtime's status at `recorded_at`.
    pub fn new(descriptor: AgentDescriptor, session_state: S, health: AgentHealth, recorded_at: u64) -> (snapshot: Self)
        ensures
            snapshot.spec_descriptor() == descriptor,
            snapshot.spec_session_state() == session_state,
            snapshot.spec_health() == health,
            snapshot.spec_recorded_at() == recorded_at,
    {
        AgentStatusSnapshot { descriptor, session_state, health, recorded_at }
    }

    /// Return the static agent descriptor.
    pub fn descriptor(&self) -> (descriptor: &AgentDescriptor)
        ensures
            *descriptor == self.spec_descriptor(),
    {
        &self.descriptor
    }

    /// Return the ordinary-client session state.
    pub fn session_state(&self) -> (state: S)
        ensures
            state == self.spec_session_state(),
    {
        self.session_state
    }

    /// Return the controller health classification.
    pub fn health(&self) -> (health: AgentHealth)
        ensures
            health == self.spec_health(),
    {
        self.health
    }

    /// Return the capture time.
    pub fn recorded_at(&self) -> (recorded_at: u64)
        ensures
            recorded_at == self.spec_recorded_at(),
    {
        self.recorded_at
    }
}

/// Bounded, redacted semantic-memory item of the selected agent view.
#[derive(Debug, Clone)]
pub struct MemoryItemSnapshot<F> {
    token: u64,
    kind: MemoryKind,
    status: MemoryStatus,
    summary: DiagnosticText,
    confidence: F,
    uncertainty: F,
    age: Elapsed,
    consumed_by_decision: bool,
}

impl<F: Copy> MemoryItemSnapshot<F> {
    /// The process-local token.
    pub closed spec fn spec_token(&self) -> u64 {
        self.token
    }

    /// The semantic memory class.
    pub closed spec fn spec_kind(&self) -> MemoryKind {
        self.kind
    }

    /// The evidence state.
    pub closed spec fn spec_status(&self) -> MemoryStatus {
        self.status
    }

    /// The legal-evidence summary.
    pub closed spec fn spec_summary(&self) -> DiagnosticText {
        self.summary
    }

    /// The normalized confidence.
    pub closed spec fn spec_confidence(&self) -> F {
        self.confidence
    }

    /// The normalized uncertainty.
    pub closed spec fn spec_uncertainty(&self) -> F {
        self.uncertainty
    }

    /// The age relative to the captured observation.
    pub closed spec fn spec_age(&self) -> Elapsed {
        self.age
    }

    /// Whether the displayed decision consumed this item.
    pub closed spec fn spec_consumed_by_decision(&self) -> bool {
        self.consumed_by_decision
    }

    /// Construct one memory projection: the token must be non-zero, and `normalized`
    /// says whether the caller found confidence and uncertainty finite and within 0..=1.
    pub fn new(
        token: u64,
        kind: MemoryKind,
        status: MemoryStatus,
        summary: DiagnosticText,
        confidence: F,
        uncertainty: F,
        normalized: bool,
        age: Elapsed,
        consumed_by_decision: bool,
    ) -> (result: Result<Self, AgentDiagnosticError>)
        ensures
            token == 0 ==> result == Err::<Self, AgentDiagnosticError>(
                AgentDiagnosticError::ZeroMemoryToken,
            ),
            token != 0 && !normalized ==> result == Err::<Self, AgentDiagnosticError>(
                AgentDiagnosticError::InvalidNormalizedValue,
            ),
            token != 0 && normalized ==> (result matches Ok(item) && item.spec_token() == token
                && item.spec_kind() == kind && item.spec_status() == status && item.spec_summary()
                == summary && item.spec_confidence() == confidence && item.spec_uncertainty()
                == uncertainty && item.spec_age() == age && item.spec_consumed_by_decision()
                == consumed_by_decision),
    {
        if token == 0 {
            return Err(AgentDiagnosticError::ZeroMemoryToken);
        }
        if !normalized {
            return Err(AgentDiagnosticError::InvalidNormalizedValue);
        }
        Ok(
            MemoryItemSnapshot {
                token,
                kind,
                status,
                summary,
                confidence,
                uncertainty,
                age,
                consumed_by_decision,
            },
        )
    }

    /// Return the process-local token.
    pub fn token(&self) -> (token: u64)
        ensures
            token == self.spec_token(),
    {
        self.token
    }

    /// Return the semantic memory class.
    pub fn kind(&self) -> (kind: MemoryKind)
        ensures
            kind == self.spec_kind(),
    {
        self.kind
    }

    /// Return the evidence state.
    pub fn status(&self) -> (status: MemoryStatus)
        ensures
            status == self.spec_status(),
    {
        self.status
    }

    /// Return the legal-evidence summary.
    pub fn summary(&self) -> (summary: &DiagnosticText)
        ensures
            *summary == self.spec_summary(),
    {
        &self.summary
    }

    /// Return the normalized confidence.
    pub fn confidence(&self) -> (confidence: F)
        ensures
            confidence == self.spec_confidence(),
    {
        self.confidence
    }

    /// Return the normalized uncertainty.
    pub fn uncertainty(&self) -> (uncertainty: F)
        ensures
            uncertainty == self.spec_uncertainty(),
    {
        self.uncertainty
    }

    /// Return the age relative to the captured observation.
    pub fn age(&self) -> (age: Elapsed)
        ensures
            age == self.spec_age(),
    {
        self.age
    }

    /// Return whether the displayed decision consumed this item.
    pub fn consumed_by_decision(&self) -> (consumed: bool)
        ensures
            consumed == self.spec_consumed_by_decision(),
    {
        self.consumed_by_decision
    }
}

/// The channel kinds of a list of channels, in order.
pub open spec fn channel_kinds(channels: Seq<SensoriumChannelSnapshot>) -> Seq<SensoriumChannelKind> {
    channels.map_values(|channel: SensoriumChannelSnapshot| channel.spec_kind())
}

/// The tokens of a list of memory items, in order.
pub open spec fn memory_tokens<F: Copy>(memory: Seq<MemoryItemSnapshot<F>>) -> Seq<u64> {
    memory.map_values(|item: MemoryItemSnapshot<F>| item.spec_token())
}

/// Immutable gameplay-owned sensorium projection consumed by foreground diagnostics.
#[derive(Debug)]
pub struct SensoriumSnapshot<F> {
    agent_id: AgentId,
    observation_sequence: u64,
    observation_tick: u64,
    schema_version: u16,
    policy_version: DiagnosticText,
    perceived_entities: u16,
    channels: Vec<SensoriumChannelSnapshot>,
    memory: Vec<MemoryItemSnapshot<F>>,
    recorded_at: u64,
}

impl<F> SensoriumSnapshot<F> {
    /// A kept snapshot holds at most the maximum number of memory items.
    #[verifier::type_invariant]
    spec fn well_formed(self) -> bool {
        self.memory@.len() <= MAX_MEMORY_ITEMS
    }
}

impl<F: Copy> SensoriumSnapshot<F> {
    /// The agent identity.
    pub closed spec fn spec_agent_id(&self) -> AgentId {
        self.agent_id
    }

    /// The local observation sequence.
    pub closed spec fn spec_observation_sequence(&self) -> u64 {
        self.observation_sequence
    }

    /// The source simulation tick.
    pub closed spec fn spec_observation_tick(&self) -> u64 {
        self.observation_tick
    }

    /// The sensorium schema version.
    pub closed spec fn spec_schema_version(&self) -> u16 {
        self.schema_version
    }

    /// The policy version that admitted the observation.
    pub closed spec fn spec_policy_version(&self) -> DiagnosticText {
        self.policy_version
    }

    /// The number of entities admitted by the sensory filter.
    pub closed spec fn spec_perceived_entities(&self) -> u16 {
        self.perceived_entities
    }

    /// The channel projections, in order.
    pub closed spec fn spec_channels(&self) -> Seq<SensoriumChannelSnapshot> {
        self.channels@
    }

    /// The semantic memory, in order.
    pub closed spec fn spec_memory(&self) -> Seq<MemoryItemSnapshot<F>> {
        self.memory@
    }

    /// The capture time.
    pub closed spec fn spec_recorded_at(&self) -> u64 {
        self.recorded_at
    }

    /// Validate and freeze one sensorium projection captured at `recorded_at`: it is
    /// refused for the first rule it breaks, in the order sequence, schema version,
    /// channel count, memory count, channel uniqueness, token uniqueness; otherwise it
    /// holds exactly the given values, lists in the given order.
    pub fn new(
        agent_id: AgentId,
        observation_sequence: u64,
        observation_tick: u64,
        schema_version: u16,
        policy_version: DiagnosticText,
        perceived_entities: u16,
        channels: Vec<SensoriumChannelSnapshot>,
        memory: Vec<MemoryItemSnapshot<F>>,
        recorded_at: u64,
    ) -> (result: Result<Self, AgentDiagnosticError>)
        ensures
            match result {
                Ok(snapshot) => sensorium_shape_error(
                    observation_sequence,
                    schema_version,
                    channel_kinds(channels@),
                    memory_tokens(memory@),
                ) is None && snapshot.spec_agent_id() == agent_id
                    && snapshot.spec_observation_sequence() == observation_sequence
                    && snapshot.spec_observation_tick() == observation_tick
                    && snapshot.spec_schema_version() == schema_version
                    && snapshot.spec_policy_version() == policy_version
                    && snapshot.spec_perceived_entities() == perceived_entities
                    && snapshot.spec_channels() == channels@ && snapshot.spec_memory() == memory@
                    && snapshot.spec_recorded_at() == recorded_at,
                Err(error) => sensorium_shape_error(
                    observation_sequence,
                    schema_version,
                    channel_kinds(channels@),
                    memory_tokens(memory@),
                ) == Some(error),
            },
    {
        let mut kinds: Vec<SensoriumChannelKind> = Vec::new();
        let mut i: usize = 0;
        while i < channels.len()
            invariant
                i <= channels@.len(),
                kinds@.len() == i,
                forall|j: int| 0 <= j < i ==> kinds@[j] == (#[trigger] channels@[j]).spec_kind(),
            decreases channels@.len() - i,
        {
            kinds.push(channels[i].kind());
            i = i + 1;
        }
        let mut tokens: Vec<u64> = Vec::new();
        let mut k: usize = 0;
        while k < memory.len()
            invariant
                k <= memory@.len(),
                tokens@.len() == k,
                forall|j: int| 0 <= j < k ==> tokens@[j] == (#[trigger] memory@[j]).spec_token(),
            decreases memory@.len() - k,
        {
            tokens.push(memory[k].token());
            k = k + 1;
        }
        proof {
            assert(kinds@ =~= channel_kinds(channels@));
            assert(tokens@ =~= memory_tokens(memory@));
        }
        match validate_sensorium_shape(
            observation_sequence,
            schema_version,
            kinds.as_slice(),
            tokens.as_slice(),
        ) {
            Err(error) => Err(error),
            Ok(()) => Ok(
                SensoriumSnapshot {
                    agent_id,
                    observation_sequence,
                    observation_tick,
                    schema_version,
                    policy_version,
                    perceived_entities,
                    channels,
                    memory,
                    recorded_at,
                },
            ),
        }
    }

    /// Return the agent identity.
    pub fn agent_id(&self) -> (id: AgentId)
        ensures
            id == self.spec_agent_id(),
    {
        self.agent_id
    }

    /// Return the local observation sequence.
    pub fn observation_sequence(&self) -> (sequence: u64)
        ensures
            sequence == self.spec_observation_sequence(),
    {
        self.observation_sequence
    }

    /// Return the source simulation tick.
    pub fn observation_tick(&self) -> (tick: u64)
        ensures
            tick == self.spec_observation_tick(),
    {
        self.observation_tick
    }

    /// Return the sensorium schema version.
    pub fn schema_version(&self) -> (version: u16)
        ensures
            version == self.spec_schema_version(),
    {
        self.schema_version
    }

    /// Return the policy version that admitted the observation.
    pub fn policy_version(&self) -> (version: &DiagnosticText)
        ensures
            *version == self.spec_policy_version(),
    {
        &self.policy_version
    }

    /// Return the number of entities admitted by the sensory filter.
    pub fn perceived_entities(&self) -> (count: u16)
        ensures
            count == self.spec_perceived_entities(),
    {
        self.perceived_entities
    }

    /// Return the channel projections, in order.
    pub fn channels(&self) -> (channels: &[SensoriumChannelSnapshot])
        ensures
            channels@ == self.spec_channels(),
    {
        self.channels.as_slice()
    }

    /// Return the semantic memory, in order; it holds at most the maximum number of items.
    pub fn memory(&self) -> (memory: &[MemoryItemSnapshot<F>])
        ensures
            memory@ == self.spec_memory(),
            memory@.len() <= MAX_MEMORY_ITEMS,
    {
        proof {
            use_type_invariant(self);
        }
        self.memory.as_slice()
    }

    /// Return the capture time.
    pub fn recorded_at(&self) -> (recorded_at: u64)
        ensures
            recorded_at == self.spec_recorded_at(),
    {
        self.recorded_at
    }
}

/// One bounded candidate copied from the policy evaluation.
#[derive(Debug, Clone)]
pub struct DecisionCandidate<F> {
    action: DiagnosticText,
    score: F,
    disposition: DiagnosticText,
}

impl<F: Copy> DecisionCandidate<F> {
    /// The semantic action label.
    pub closed spec fn spec_action(&self) -> DiagnosticText {
        self.action
    }

    /// The policy score.
    pub closed spec fn spec_score(&self) -> F {
        self.score
    }

    /// The selection or rejection disposition.
    pub closed spec fn spec_disposition(&self) -> DiagnosticText {
        self.disposition
    }

    /// Construct a candidate projection; `finite` says whether the caller found the
    /// score finite.
    pub fn new(action: DiagnosticText, score: F, finite: bool, disposition: DiagnosticText) -> (result: Result<Self, AgentDiagnosticError>)
        ensures
            !finite ==> result == Err::<Self, AgentDiagnosticError>(
                AgentDiagnosticError::NonFiniteScore,
            ),
            finite ==> (result matches Ok(candidate) && candidate.spec_action() == action
                && candidate.spec_score() == score && candidate.spec_disposition() == disposition),
    {
        if !finite {
            return Err(AgentDiagnosticError::NonFiniteScore);
        }
        Ok(DecisionCandidate { action, score, disposition })
    }

    /// Return the semantic action label.
    pub fn action(&self) -> (action: &DiagnosticText)
        ensures
            *action == self.spec_action(),
    {
        &self.action
    }

    /// Return the policy score.
    pub fn score(&self) -> (score: F)
        ensures
            score == self.spec_score(),
    {
        self.score
    }

    /// Return the selection or rejection disposition.
    pub fn disposition(&self) -> (disposition: &DiagnosticText)
        ensures
            *disposition == self.spec_disposition(),
    {
        &self.disposition
    }
}

/// Immutable causal record of one completed controller decision.
#[derive(Debug)]
pub struct DecisionRecord<F> {
    agent_id: AgentId,
    decision_sequence: u64,
    observation_sequence: u64,
    observation_tick: u64,
    current_intent: DiagnosticText,
    source: PolicySource,
    outcome: DecisionOutcome,
    selected_action: DiagnosticText,
    emission: DiagnosticText,
    candidates: Vec<DecisionCandidate<F>>,
    constraints: Vec<DecisionConstraint>,
    decision_duration: Elapsed,
    inference_duration: Option<Elapsed>,
    budget_exhausted: bool,
    fallback_reason: Option<FallbackReason>,
    recorded_at: u64,
}

impl<F> DecisionRecord<F> {
    /// Every kept record obeys the decision rules.
    #[verifier::type_invariant]
    spec fn well_formed(self) -> bool {
        decision_shape_error(
            self.decision_sequence,
            self.observation_sequence,
            self.candidates@.len() as usize,
            self.constraints@.len() as usize,
            self.outcome,
            self.fallback_reason,
        ) is None
    }
}

impl<F: Copy> DecisionRecord<F> {

    /// The agent identity.
    pub closed spec fn spec_agent_id(&self) -> AgentId {
        self.agent_id
    }

    /// The local decision sequence.
    pub closed spec fn spec_decision_sequence(&self) -> u64 {
        self.decision_sequence
    }

    /// The observation sequence admitted to policy.
    pub closed spec fn spec_observation_sequence(&self) -> u64 {
        self.observation_sequence
    }

    /// The source observation tick.
    pub closed spec fn spec_observation_tick(&self) -> u64 {
        self.observation_tick
    }

    /// The current semantic intent.
    pub closed spec fn spec_current_intent(&self) -> DiagnosticText {
        self.current_intent
    }

    /// The policy source.
    pub closed spec fn spec_source(&self) -> PolicySource {
        self.source
    }

    /// The decision outcome.
    pub closed spec fn spec_outcome(&self) -> DecisionOutcome {
        self.outcome
    }

    /// The action selected before downstream emission.
    pub closed spec fn spec_selected_action(&self) -> DiagnosticText {
        self.selected_action
    }

    /// The control emission summary.
    pub closed spec fn spec_emission(&self) -> DiagnosticText {
        self.emission
    }

    /// The policy candidates, in evaluation order.
    pub closed spec fn spec_candidates(&self) -> Seq<DecisionCandidate<F>> {
        self.candidates@
    }

    /// The downstream constraints, in application order.
    pub closed spec fn spec_constraints(&self) -> Seq<DecisionConstraint> {
        self.constraints@
    }

    /// The end-to-end decision duration.
    pub closed spec fn spec_decision_duration(&self) -> Elapsed {
        self.decision_duration
    }

    /// The inference duration, when a network was invoked.
    pub closed spec fn spec_inference_duration(&self) -> Option<Elapsed> {
        self.inference_duration
    }

    /// Whether the scheduler budget was exhausted.
    pub closed spec fn spec_budget_exhausted(&self) -> bool {
        self.budget_exhausted
    }

    /// The fallback reason, if any.
    pub closed spec fn spec_fallback_reason(&self) -> Option<FallbackReason> {
        self.fallback_reason
    }

    /// The capture time.
    pub closed spec fn spec_recorded_at(&self) -> u64 {
        self.recorded_at
    }

    /// Validate and freeze one decision chain captured at `recorded_at`: it is refused
    /// for the first rule it breaks, in the order decision sequence, observation
    /// sequence, candidate count, constraint count, fallback reason; otherwise it holds
    /// exactly the given values, lists in the given order.
    pub fn new(
        agent_id: AgentId,
        decision_sequence: u64,
        observation_sequence: u64,
        observation_tick: u64,
        current_intent: DiagnosticText,
        source: PolicySource,
        outcome: DecisionOutcome,
        selected_action: DiagnosticText,
        emission: DiagnosticText,
        candidates: Vec<DecisionCandidate<F>>,
        constraints: Vec<DecisionConstraint>,
        decision_duration: Elapsed,
        inference_duration: Option<Elapsed>,
        budget_exhausted: bool,
        fallback_reason: Option<FallbackReason>,
        recorded_at: u64,
    ) -> (result: Result<Self, AgentDiagnosticError>)
        ensures
            match result {
                Ok(record) => decision_shape_error(
                    decision_sequence,
                    observation_sequence,
                    candidates@.len() as usize,
                    constraints@.len() as usize,
                    outcome,
                    fallback_reason,
                ) is None && record.spec_agent_id() == agent_id
                    && record.spec_decision_sequence() == decision_sequence
                    && record.spec_observation_sequence() == observation_sequence
                    && record.spec_observation_tick() == observation_tick
                    && record.spec_current_intent() == current_intent && record.spec_source()
                    == source && record.spec_outcome() == outcome && record.spec_selected_action()
                    == selected_action && record.spec_emission() == emission
                    && record.spec_candidates() == candidates@ && record.spec_constraints()
                    == constraints@ && record.spec_decision_duration() == decision_duration
                    && record.spec_inference_duration() == inference_duration
                    && record.spec_budget_exhausted() == budget_exhausted
                    && record.spec_fallback_reason() == fallback_reason
                    && record.spec_recorded_at() == recorded_at,
                Err(error) => decision_shape_error(
                    decision_sequence,
                    observation_sequence,
                    candidates@.len() as usize,
                    constraints@.len() as usize,
                    outcome,
                    fallback_reason,
                ) == Some(error),
            },
    {
        match validate_decision_shape(
            decision_sequence,
            observation_sequence,
            candidates.len(),
            constraints.len(),
            outcome,
            fallback_reason,
        ) {
            Err(error) => Err(error),
            Ok(()) => Ok(
                DecisionRecord {
                    agent_id,
                    decision_sequence,
                    observation_sequence,
                    observation_tick,
                    current_intent,
                    source,
                    outcome,
                    selected_action,
                    emission,
                    candidates,
                    constraints,
                    decision_duration,
                    inference_duration,
                    budget_exhausted,
                    fallback_reason,
                    recorded_at,
                },
            ),
        }
    }

    /// Return the agent identity.
    pub fn agent_id(&self) -> (id: AgentId)
        ensures
            id == self.spec_agent_id(),
    {
        self.agent_id
    }

    /// Return the local decision sequence.
    pub fn decision_sequence(&self) -> (sequence: u64)
        ensures
            sequence == self.spec_decision_sequence(),
            sequence != 0,
    {
        proof {
            use_type_invariant(self);
        }
        self.decision_sequence
    }

    /// Return the observation sequence admitted to policy.
    pub fn observation_sequence(&self) -> (sequence: u64)
        ensures
            sequence == self.spec_observation_sequence(),
            sequence != 0,
    {
        proof {
            use_type_invariant(self);
        }
        self.observation_sequence
    }

    /// Return the source observation tick.
    pub fn observation_tick(&self) -> (tick: u64)
        ensures
            tick == self.spec_observation_tick(),
    {
        self.observation_tick
    }

    /// Return the current semantic intent.
    pub fn current_intent(&self) -> (intent: &DiagnosticText)
        ensures
            *intent == self.spec_current_intent(),
    {
        &self.current_intent
    }

    /// Return the policy source.
    pub fn source(&self) -> (source: PolicySource)
        ensures
            source == self.spec_source(),
    {
        self.source
    }

    /// Return the decision outcome.
    pub fn outcome(&self) -> (outcome: DecisionOutcome)
        ensures
            outcome == self.spec_outcome(),
    {
        self.outcome
    }

    /// Return the action selected before downstream emission.
    pub fn selected_action(&self) -> (action: &DiagnosticText)
        ensures
            *action == self.spec_selected_action(),
    {
        &self.selected_action
    }

    /// Return the control emission summary.
    pub fn emission(&self) -> (emission: &DiagnosticText)
        ensures
            *emission == self.spec_emission(),
    {
        &self.emission
    }

    /// Return the policy candidates, in evaluation order.
    pub fn candidates(&self) -> (candidates: &[DecisionCandidate<F>])
        ensures
            candidates@ == self.spec_candidates(),
    {
        self.candidates.as_slice()
    }

    /// Return the downstream constraints, in application order.
    pub fn constraints(&self) -> (constraints: &[DecisionConstraint])
        ensures
            constraints@ == self.spec_constraints(),
    {
        self.constraints.as_slice()
    }

    /// Return the end-to-end decision duration.
    pub fn decision_duration(&self) -> (duration: Elapsed)
        ensures
            duration == self.spec_decision_duration(),
    {
        self.decision_duration
    }

    /// Return the inference duration, when a network was invoked.
    pub fn inference_duration(&self) -> (duration: Option<Elapsed>)
        ensures
            duration == self.spec_inference_duration(),
    {
        self.inference_duration
    }

    /// Return whether the scheduler budget was exhausted.
    pub fn budget_exhausted(&self) -> (exhausted: bool)
        ensures
            exhausted == self.spec_budget_exhausted(),
    {
        self.budget_exhausted
    }

    /// Return the fallback reason; a fallback outcome always has one.
    pub fn fallback_reason(&self) -> (reason: Option<FallbackReason>)
        ensures
            reason == self.spec_fallback_reason(),
            self.spec_outcome() == DecisionOutcome::Fallback ==> reason is Some,
    {
        proof {
            use_type_invariant(self);
        }
        self.fallback_reason
    }

    /// Return the capture time.
    pub fn recorded_at(&self) -> (recorded_at: u64)
        ensures
            recorded_at == self.spec_recorded_at(),
    {
        self.recorded_at
    }
}

/// One immutable diagnostic record for the foreground observer.
#[derive(Debug)]
pub enum AgentDiagnosticRecord<S, F> {
    /// Runtime lifecycle or health changed.
    Status(AgentStatusSnapshot<S>),
    /// A sensorium snapshot was admitted to the controller.
    Sensorium(SensoriumSnapshot<F>),
    /// One completed controller decision.
    Decision(DecisionRecord<F>),
}

/// The kind of a record.
pub open spec fn record_kind<S, F>(record: AgentDiagnosticRecord<S, F>) -> DiagnosticRecordKind {
    match record {
        AgentDiagnosticRecord::Status(_) => DiagnosticRecordKind::Status,
        AgentDiagnosticRecord::Sensorium(_) => DiagnosticRecordKind::Sensorium,
        AgentDiagnosticRecord::Decision(_) => DiagnosticRecordKind::Decision,
    }
}

impl<S, F> AgentDiagnosticRecord<S, F> {
    /// Return the record kind used by the drop counters.
    pub fn kind(&self) -> (kind: DiagnosticRecordKind)
        ensures
            kind == record_kind(*self),
    {
        match self {
            AgentDiagnosticRecord::Status(_) => DiagnosticRecordKind::Status,
            AgentDiagnosticRecord::Sensorium(_) => DiagnosticRecordKind::Sensorium,
            AgentDiagnosticRecord::Decision(_) => DiagnosticRecordKind::Decision,
        }
    }
}

} // verus!
