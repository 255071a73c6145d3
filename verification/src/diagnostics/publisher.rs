//! Per-runtime diagnostics: identity checks, aggregate metric effects, health, session
//! state, memory occupancy, and what is handed to the live observer.
use vstd::prelude::*;
use super::identity::{AgentDescriptor, AgentDiagnosticError, AgentId};
use super::kinds::{
    AgentHealth, DecisionOutcome, DiagnosticRecordKind, FallbackReason, MemoryKind, MemoryStatus,
    PolicySource, SessionState,
};
use super::memory::{
    adjustments, count_delta, deltas_fit, lemma_gauge_adjustments_reconcile, memory_counts,
    memory_gauge_deltas, net_adjustment, series_count, slot_of, MemoryGaugeAdjustment,
    MEMORY_METRIC_SERIES,
};
use super::records::{ensure_agent, validate_fallback_reason, MAX_MEMORY_ITEMS};
use super::snapshots::{
    AgentDiagnosticRecord, AgentStatusSnapshot, DecisionRecord, Elapsed, MemoryItemSnapshot,
    SensoriumSnapshot,
};
use super::status::{
    health_change, spec_after_send, spec_health_change, DiagnosticStream, HealthChange,
    HealthEvent, PublishEffect, SendOutcome, StreamView,
};

verus! {

/// Abstract state of a runtime's diagnostics: the descriptor it is bound to (if any), its
/// live stream, its session state and health, and the occupancy of each memory series.
pub struct DiagnosticsView {
    pub descriptor: Option<AgentDescriptor>,
    pub stream: StreamView,
    pub session: SessionState,
    pub health: AgentHealth,
    pub memory_counts: Seq<u32>,
}

/// The agent a runtime with `descriptor` is bound to, if any.
pub open spec fn expected_agent(descriptor: Option<AgentDescriptor>) -> Option<AgentId> {
    match descriptor {
        Some(d) => Some(d.spec_id()),
        None => None,
    }
}

/// Whether a runtime bound to `expected` accepts a record of `actual`.
pub open spec fn accepts_agent(expected: Option<AgentId>, actual: AgentId) -> bool {
    match expected {
        Some(id) => id == actual,
        None => true,
    }
}

/// The refusal of a record of `actual` by a runtime bound to another agent.
pub open spec fn mismatch(expected: Option<AgentId>, actual: AgentId) -> AgentDiagnosticError {
    AgentDiagnosticError::AgentIdentityMismatch { expected: expected->Some_0, actual }
}

/// Whether `publish` is the status a runtime in state `v` hands its observer at `now`: a
/// status is handed over exactly when an observer is attached and the runtime has a
/// descriptor, and it shows the descriptor, session state, and health.
pub open spec fn status_published(
    publish: Option<AgentStatusSnapshot<SessionState>>,
    v: DiagnosticsView,
    now: u64,
) -> bool {
    match publish {
        Some(status) => {
            &&& v.stream.0
            &&& v.descriptor is Some
            &&& status.spec_descriptor() == v.descriptor->Some_0
            &&& status.spec_session_state() == v.session
            &&& status.spec_health() == v.health
            &&& status.spec_recorded_at() == now
        },
        None => !(v.stream.0 && v.descriptor is Some),
    }
}

/// Zero occupancy in every memory series.
pub open spec fn no_memory() -> Seq<u32> {
    Seq::new(MEMORY_METRIC_SERIES as nat, |slot: int| 0u32)
}

/// One (kind, status, 1) occupancy entry per memory item, in order.
pub open spec fn memory_entries<F: Copy>(memory: Seq<MemoryItemSnapshot<F>>) -> Seq<(MemoryKind, MemoryStatus, u32)> {
    memory.map_values(|item: MemoryItemSnapshot<F>| (item.spec_kind(), item.spec_status(), 1u32))
}

/// Occupancy of every memory series in a snapshot's memory.
pub open spec fn occupancy<F: Copy>(memory: Seq<MemoryItemSnapshot<F>>) -> Seq<u32> {
    Seq::new(
        MEMORY_METRIC_SERIES as nat,
        |slot: int| series_count(memory_entries(memory), slot as nat) as u32,
    )
}

/// Whether every memory series holds at most the maximum number of items.
pub open spec fn counts_bounded(counts: Seq<u32>) -> bool {
    &&& counts.len() == MEMORY_METRIC_SERIES
    &&& forall|slot: int| 0 <= slot < MEMORY_METRIC_SERIES ==> #[trigger] counts[slot] <= MAX_MEMORY_ITEMS
}

/// One change a completed decision makes to the decision metrics.
#[derive(Debug, Clone, Copy, PartialEq, Eq)]
pub enum DecisionMetric {
    /// The decisions counter of the source and outcome counts one more decision.
    Decided { source: PolicySource, outcome: DecisionOutcome },
    /// The decision-duration histogram of the source records the duration.
    DecisionDuration { source: PolicySource, duration: Elapsed },
    /// The inference-duration histogram of the outcome records the duration.
    InferenceDuration { outcome: DecisionOutcome, duration: Elapsed },
    /// The budget-exhaustion counter counts one more exhaustion.
    BudgetExhausted,
    /// The fallback counter of the reason counts one more fallback.
    Fallback { reason: FallbackReason },
}

/// The metric changes of one decision, in order: its count and duration always, then the
/// inference duration when inference ran, a budget exhaustion when the budget ran out, and
/// a fallback when there is a reason.
pub open spec fn decision_metrics(
    source: PolicySource,
    outcome: DecisionOutcome,
    decision_duration: Elapsed,
    inference_duration: Option<Elapsed>,
    budget_exhausted: bool,
    fallback_reason: Option<FallbackReason>,
) -> Seq<DecisionMetric> {
    seq![
        DecisionMetric::Decided { source, outcome },
        DecisionMetric::DecisionDuration { source, duration: decision_duration },
    ] + (match inference_duration {
        Some(duration) => seq![DecisionMetric::InferenceDuration { outcome, duration }],
        None => Seq::empty(),
    }) + (if budget_exhausted {
        seq![DecisionMetric::BudgetExhausted]
    } else {
        Seq::empty()
    }) + (match fallback_reason {
        Some(reason) => seq![DecisionMetric::Fallback { reason }],
        None => Seq::empty(),
    })
}

/// The metric changes of a kept decision record.
pub open spec fn record_metrics<F: Copy>(record: DecisionRecord<F>) -> Seq<DecisionMetric> {
    decision_metrics(
        record.spec_source(),
        record.spec_outcome(),
        record.spec_decision_duration(),
        record.spec_inference_duration(),
        record.spec_budget_exhausted(),
        record.spec_fallback_reason(),
    )
}

/// Effects of a session or health transition.
pub struct StatusUpdate {
    /// The change of the agents gauge, if the health changed.
    pub change: Option<HealthChange>,
    /// The status to hand to the observer, if any.
    pub publish: Option<AgentStatusSnapshot<SessionState>>,
}

/// Aggregate effects of one admitted sensorium snapshot.
pub struct SensoriumUpdate<F> {
    /// Entities admitted by the sensory filter, for the perception histogram.
    pub perceived_entities: u16,
    /// Changes that move the memory occupancy gauges to the snapshot's occupancy.
    pub memory: Vec<MemoryGaugeAdjustment>,
    /// The record to hand to the live observer, when one is attached.
    pub publish: Option<AgentDiagnosticRecord<SessionState, F>>,
}

/// Aggregate effects of one admitted decision record.
pub struct DecisionUpdate<F> {
    /// The decision metric changes, in order.
    pub metrics: Vec<DecisionMetric>,
    /// The record to hand to the live observer, when one is attached.
    pub publish: Option<AgentDiagnosticRecord<SessionState, F>>,
}

/// Effects of a runtime that stops.
pub struct StopUpdate {
    /// The closing status to hand to the observer, if any.
    pub publish: Option<AgentStatusSnapshot<SessionState>>,
    /// Changes that return every memory occupancy gauge to zero.
    pub memory: Vec<MemoryGaugeAdjustment>,
    /// The health under which the runtime stops being counted.
    pub health: AgentHealth,
}

/// Diagnostics of one agent runtime.
#[derive(Debug)]
pub struct AgentDiagnostics {
    descriptor: Option<AgentDescriptor>,
    stream: DiagnosticStream,
    session: SessionState,
    health: AgentHealth,
    memory_counts: Vec<u32>,
}

impl View for AgentDiagnostics {
    type V = DiagnosticsView;

    closed spec fn view(&self) -> DiagnosticsView {
        DiagnosticsView {
            descriptor: self.descriptor,
            stream: self.stream@,
            session: self.session,
            health: self.health,
            memory_counts: self.memory_counts@,
        }
    }
}

impl AgentDiagnostics {
    /// Every memory series holds at most the maximum number of items.
    #[verifier::type_invariant]
    spec fn well_formed(self) -> bool {
        counts_bounded(self.memory_counts@)
    }
}

proof fn lemma_series_count_bounded(entries: Seq<(MemoryKind, MemoryStatus, u32)>, slot: nat)
    requires
        forall|i: int| 0 <= i < entries.len() ==> (#[trigger] entries[i]).2 == 1,
    ensures
        series_count(entries, slot) <= entries.len(),
    decreases entries.len(),
{
    if entries.len() > 0 {
        let prefix = entries.drop_last();
        assert forall|i: int| 0 <= i < prefix.len() implies (#[trigger] prefix[i]).2 == 1 by {
            assert(prefix[i] == entries[i]);
        }
        lemma_series_count_bounded(prefix, slot);
        assert(entries.last() == entries[entries.len() - 1]);
    }
}

proof fn lemma_bounded_deltas_fit(previous: Seq<u32>, next: Seq<u32>)
    requires
        counts_bounded(previous),
        counts_bounded(next),
    ensures
        deltas_fit(previous, next),
{
    assert forall|slot: int| 0 <= slot < MEMORY_METRIC_SERIES implies i32::MIN <= #[trigger] count_delta(
        previous[slot],
        next[slot],
    ) <= i32::MAX by {
        let p = previous[slot];
        let n = next[slot];
        assert(p <= 32 && n <= 32);
        assert((p as i32) as int == p as int) by (bit_vector)
            requires
                p <= 32u32,
        ;
        assert((n as i32) as int == n as int) by (bit_vector)
            requires
                n <= 32u32,
        ;
    }
}

impl AgentDiagnostics {
    /// Diagnostics of a runtime that just connected in `session`: starting, with empty
    /// memory, bound to `descriptor` when the hosting executable supplied one, with an
    /// observer attached or not. Returns the first status to hand to the observer.
    pub fn connected(
        descriptor: Option<AgentDescriptor>,
        attached: bool,
        session: SessionState,
        now: u64,
    ) -> (result: (Self, Option<AgentStatusSnapshot<SessionState>>))
        ensures
            result.0@ == (DiagnosticsView {
                descriptor,
                stream: (attached, Set::<DiagnosticRecordKind>::empty()),
                session,
                health: AgentHealth::Starting,
                memory_counts: no_memory(),
            }),
            status_published(result.1, result.0@, now),
    {
        let counts: Vec<u32> = vec![0u32; MEMORY_METRIC_SERIES];
        proof {
            assert(counts@ =~= no_memory());
        }
        let diagnostics = AgentDiagnostics {
            descriptor,
            stream: DiagnosticStream::new(attached),
            session,
            health: AgentHealth::Starting,
            memory_counts: counts,
        };
        let status = diagnostics.status(now);
        (diagnostics, status)
    }

    /// The status to hand to the observer at `now`, if an observer is attached and the
    /// runtime has a descriptor.
    fn status(&self, now: u64) -> (publish: Option<AgentStatusSnapshot<SessionState>>)
        ensures
            status_published(publish, self@, now),
    {
        if !self.stream.records_enabled() {
            return None;
        }
        match &self.descriptor {
            Some(descriptor) => Some(
                AgentStatusSnapshot::new(descriptor.duplicate(), self.session, self.health, now),
            ),
            None => None,
        }
    }

    /// Whether a live observer justifies building detailed records.
    pub fn records_enabled(&self) -> (enabled: bool)
        ensures
            enabled == self@.stream.0,
    {
        self.stream.records_enabled()
    }

    /// The current health.
    pub fn health(&self) -> (health: AgentHealth)
        ensures
            health == self@.health,
    {
        self.health
    }

    /// The current session state.
    pub fn session_state(&self) -> (session: SessionState)
        ensures
            session == self@.session,
    {
        self.session
    }

    /// The occupancy of each memory series, in series order.
    pub fn memory_counts(&self) -> (counts: Vec<u32>)
        ensures
            counts@ == self@.memory_counts,
    {
        self.memory_counts.clone()
    }

    /// Record a session transition at `now`. An unchanged state changes nothing. A new
    /// state is kept; entering the active state makes a starting agent healthy; and the
    /// new status is handed to the observer.
    pub fn set_session_state(&mut self, session: SessionState, now: u64) -> (update: StatusUpdate)
        ensures
            old(self)@.session == session ==> update.change is None && update.publish is None
                && final(self)@ == old(self)@,
            old(self)@.session != session ==> {
                &&& update.change == spec_health_change(
                    old(self)@.health,
                    HealthEvent::SessionChanged(session == SessionState::Active),
                )
                &&& final(self)@ == (DiagnosticsView {
                    session,
                    health: match update.change {
                        Some(c) => c.entered,
                        None => old(self)@.health,
                    },
                    ..old(self)@
                })
                &&& status_published(update.publish, final(self)@, now)
            },
    {
        proof {
            use_type_invariant(&*self);
        }
        if self.session == session {
            return StatusUpdate { change: None, publish: None };
        }
        let active = match session {
            SessionState::Active => true,
            _ => false,
        };
        let change = health_change(self.health, HealthEvent::SessionChanged(active));
        self.session = session;
        if let Some(c) = change {
            self.health = c.entered;
        }
        let publish = self.status(now);
        StatusUpdate { change, publish }
    }

    /// Record a controller health at `now`. An unchanged health changes nothing; a new
    /// one moves the agent between the health gauges and its status is handed to the
    /// observer.
    pub fn set_health(&mut self, health: AgentHealth, now: u64) -> (update: StatusUpdate)
        ensures
            old(self)@.health == health ==> update.change is None && update.publish is None
                && final(self)@ == old(self)@,
            old(self)@.health != health ==> {
                &&& update.change == Some(HealthChange { left: old(self)@.health, entered: health })
                &&& final(self)@ == (DiagnosticsView { health, ..old(self)@ })
                &&& status_published(update.publish, final(self)@, now)
            },
    {
        proof {
            use_type_invariant(&*self);
        }
        let change = health_change(self.health, HealthEvent::Reported(health));
        match change {
            None => StatusUpdate { change: None, publish: None },
            Some(c) => {
                self.health = c.entered;
                let publish = self.status(now);
                StatusUpdate { change, publish }
            },
        }
    }

    /// Record the outcome of handing a record of `kind` to the observer.
    pub fn after_send(&mut self, kind: DiagnosticRecordKind, outcome: SendOutcome) -> (effect: PublishEffect)
        ensures
            (final(self)@.stream, effect) == spec_after_send(old(self)@.stream, kind, outcome),
            final(self)@ == (DiagnosticsView { stream: final(self)@.stream, ..old(self)@ }),
    {
        proof {
            use_type_invariant(&*self);
        }
        let mut stream = self.stream;
        let effect = stream.after_send(kind, outcome);
        self.stream = stream;
        effect
    }

    /// Admit one sensorium snapshot. A snapshot of another agent than the one this
    /// runtime is bound to is refused, and then nothing is recorded or sent and the state
    /// is unchanged. Otherwise the snapshot's memory becomes the runtime's occupancy, and
    /// the perception count and the gauge changes from the previous occupancy are
    /// returned, with the snapshot itself when an observer is attached.
    pub fn record_sensorium<F: Copy>(&mut self, snapshot: SensoriumSnapshot<F>) -> (result: Result<SensoriumUpdate<F>, AgentDiagnosticError>)
        ensures
            !accepts_agent(expected_agent(old(self)@.descriptor), snapshot.spec_agent_id()) ==> (
            result == Err::<SensoriumUpdate<F>, AgentDiagnosticError>(
                mismatch(expected_agent(old(self)@.descriptor), snapshot.spec_agent_id()),
            ) && final(self)@ == old(self)@),
            accepts_agent(expected_agent(old(self)@.descriptor), snapshot.spec_agent_id()) ==> (
            result matches Ok(update) && {
                &&& update.perceived_entities == snapshot.spec_perceived_entities()
                &&& update.memory@ == adjustments(
                    old(self)@.memory_counts,
                    occupancy(snapshot.spec_memory()),
                    MEMORY_METRIC_SERIES as nat,
                )
                &&& final(self)@ == (DiagnosticsView {
                    memory_counts: occupancy(snapshot.spec_memory()),
                    ..old(self)@
                })
                &&& if old(self)@.stream.0 {
                    update.publish == Some(
                        AgentDiagnosticRecord::<SessionState, F>::Sensorium(snapshot),
                    )
                } else {
                    update.publish is None
                }
            }),
    {
        proof {
            use_type_invariant(&*self);
        }
        let expected = match &self.descriptor {
            Some(d) => Some(d.id()),
            None => None,
        };
        if let Err(error) = ensure_agent(expected, snapshot.agent_id()) {
            return Err(error);
        }
        let memory = snapshot.memory();
        let mut entries: Vec<(MemoryKind, MemoryStatus, u32)> = Vec::new();
        let mut i: usize = 0;
        while i < memory.len()
            invariant
                i <= memory@.len(),
                memory@ == snapshot.spec_memory(),
                entries@.len() == i,
                forall|j: int|
                    0 <= j < i ==> entries@[j] == ((#[trigger] memory@[j]).spec_kind(), memory@[j].spec_status(), 1u32),
            decreases memory@.len() - i,
        {
            entries.push((memory[i].kind(), memory[i].status(), 1));
            i = i + 1;
        }
        proof {
            assert(entries@ =~= memory_entries(snapshot.spec_memory()));
        }
        let counts = memory_counts(entries.as_slice());
        proof {
            assert(counts@ =~= occupancy(snapshot.spec_memory()));
            assert forall|slot: int| 0 <= slot < MEMORY_METRIC_SERIES implies #[trigger] counts@[slot]
                <= MAX_MEMORY_ITEMS by {
                lemma_series_count_bounded(entries@, slot as nat);
            }
            lemma_bounded_deltas_fit(self.memory_counts@, counts@);
        }
        let changes = memory_gauge_deltas(self.memory_counts.as_slice(), counts.as_slice());
        self.memory_counts = counts;
        let perceived_entities = snapshot.perceived_entities();
        let publish = if self.stream.records_enabled() {
            Some(AgentDiagnosticRecord::Sensorium(snapshot))
        } else {
            None
        };
        Ok(SensoriumUpdate { perceived_entities, memory: changes, publish })
    }

    /// The decision metric changes of a completed decision, in order; a fallback outcome
    /// without a reason is refused and changes no metric.
    pub fn record_decision_metrics(
        &self,
        source: PolicySource,
        outcome: DecisionOutcome,
        decision_duration: Elapsed,
        inference_duration: Option<Elapsed>,
        budget_exhausted: bool,
        fallback_reason: Option<FallbackReason>,
    ) -> (result: Result<Vec<DecisionMetric>, AgentDiagnosticError>)
        ensures
            outcome == DecisionOutcome::Fallback && fallback_reason is None ==> result == Err::<
                Vec<DecisionMetric>,
                AgentDiagnosticError,
            >(AgentDiagnosticError::MissingFallbackReason),
            !(outcome == DecisionOutcome::Fallback && fallback_reason is None) ==> (result matches Ok(
                metrics,
            ) && metrics@ == decision_metrics(
                source,
                outcome,
                decision_duration,
                inference_duration,
                budget_exhausted,
                fallback_reason,
            )),
    {
        if let Err(error) = validate_fallback_reason(outcome, fallback_reason) {
            return Err(error);
        }
        Ok(decision_metric_list(source, outcome, decision_duration, inference_duration, budget_exhausted, fallback_reason))
    }

    /// Admit one decision record. A record of another agent than the one this runtime is
    /// bound to is refused, and then nothing is recorded or sent. Otherwise the decision's
    /// metric changes are returned, with the record itself when an observer is attached.
    /// The state is unchanged either way.
    pub fn record_decision<F: Copy>(&mut self, record: DecisionRecord<F>) -> (result: Result<DecisionUpdate<F>, AgentDiagnosticError>)
        ensures
            final(self)@ == old(self)@,
            !accepts_agent(expected_agent(old(self)@.descriptor), record.spec_agent_id()) ==> result
                == Err::<DecisionUpdate<F>, AgentDiagnosticError>(
                mismatch(expected_agent(old(self)@.descriptor), record.spec_agent_id()),
            ),
            accepts_agent(expected_agent(old(self)@.descriptor), record.spec_agent_id()) ==> (
            result matches Ok(update) && update.metrics@ == record_metrics(record) && (if old(
                self,
            )@.stream.0 {
                update.publish == Some(AgentDiagnosticRecord::<SessionState, F>::Decision(record))
            } else {
                update.publish is None
            })),
    {
        let expected = match &self.descriptor {
            Some(d) => Some(d.id()),
            None => None,
        };
        if let Err(error) = ensure_agent(expected, record.agent_id()) {
            return Err(error);
        }
        let metrics = decision_metric_list(
            record.source(),
            record.outcome(),
            record.decision_duration(),
            record.inference_duration(),
            record.budget_exhausted(),
            record.fallback_reason(),
        );
        let publish = if self.stream.records_enabled() {
            Some(AgentDiagnosticRecord::Decision(record))
        } else {
            None
        };
        Ok(DecisionUpdate { metrics, publish })
    }

    /// Stop the runtime at `now`: its session closes, the closing status is handed to the
    /// observer, and every memory occupancy gauge returns to zero; the runtime stops being
    /// counted under its last health.
    pub fn stop(self, now: u64) -> (update: StopUpdate)
        ensures
            status_published(
                update.publish,
                DiagnosticsView { session: SessionState::Closing, ..self@ },
                now,
            ),
            update.memory@ == adjustments(self@.memory_counts, no_memory(), MEMORY_METRIC_SERIES as nat),
            update.health == self@.health,
    {
        proof {
            use_type_invariant(&self);
        }
        let mut closing = self;
        closing.session = SessionState::Closing;
        let publish = closing.status(now);
        let zeros: Vec<u32> = vec![0u32; MEMORY_METRIC_SERIES];
        proof {
            assert(zeros@ =~= no_memory());
            lemma_bounded_deltas_fit(closing.memory_counts@, zeros@);
        }
        let memory = memory_gauge_deltas(closing.memory_counts.as_slice(), zeros.as_slice());
        StopUpdate { publish, memory, health: closing.health }
    }
}

fn decision_metric_list(
    source: PolicySource,
    outcome: DecisionOutcome,
    decision_duration: Elapsed,
    inference_duration: Option<Elapsed>,
    budget_exhausted: bool,
    fallback_reason: Option<FallbackReason>,
) -> (metrics: Vec<DecisionMetric>)
    ensures
        metrics@ == decision_metrics(
            source,
            outcome,
            decision_duration,
            inference_duration,
            budget_exhausted,
            fallback_reason,
        ),
{
    let mut metrics: Vec<DecisionMetric> = Vec::new();
    metrics.push(DecisionMetric::Decided { source, outcome });
    metrics.push(DecisionMetric::DecisionDuration { source, duration: decision_duration });
    let ghost base = metrics@;
    if let Some(duration) = inference_duration {
        metrics.push(DecisionMetric::InferenceDuration { outcome, duration });
    }
    let ghost with_inference = metrics@;
    if budget_exhausted {
        metrics.push(DecisionMetric::BudgetExhausted);
    }
    let ghost with_budget = metrics@;
    if let Some(reason) = fallback_reason {
        metrics.push(DecisionMetric::Fallback { reason });
    }
    proof {
        assert(metrics@ =~= decision_metrics(
            source,
            outcome,
            decision_duration,
            inference_duration,
            budget_exhausted,
            fallback_reason,
        ));
    }
    metrics
}

/// Memory gauges follow occupancy: gauges that showed the runtime's previous occupancy
/// show a new snapshot's occupancy once the changes its admission returns are applied,
/// for every (kind, status) series.
pub proof fn lemma_memory_gauges_follow_occupancy<F: Copy>(
    previous: Seq<u32>,
    memory: Seq<MemoryItemSnapshot<F>>,
    kind: MemoryKind,
    status: MemoryStatus,
)
    requires
        counts_bounded(previous),
        memory.len() <= MAX_MEMORY_ITEMS,
    ensures
        previous[slot_of(kind, status) as int] + net_adjustment(
            adjustments(previous, occupancy(memory), MEMORY_METRIC_SERIES as nat),
            kind,
            status,
        ) == occupancy(memory)[slot_of(kind, status) as int],
{
    let next = occupancy(memory);
    let entries = memory_entries(memory);
    assert forall|slot: int| 0 <= slot < MEMORY_METRIC_SERIES implies #[trigger] next[slot]
        <= MAX_MEMORY_ITEMS by {
        lemma_series_count_bounded(entries, slot as nat);
    }
    lemma_bounded_deltas_fit(previous, next);
    lemma_gauge_adjustments_reconcile(previous, next, kind, status);
    let slot = slot_of(kind, status) as int;
    let p = previous[slot];
    let n = next[slot];
    assert((p as i32) as int == p as int) by (bit_vector)
        requires
            p <= 32u32,
    ;
    assert((n as i32) as int == n as int) by (bit_vector)
        requires
            n <= 32u32,
    ;
}

} // verus!
