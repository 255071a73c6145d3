//! The complete low-cardinality agent metric registry, as data.
use vstd::prelude::*;
use super::kinds::{
    AgentHealth, DecisionOutcome, DiagnosticRecordKind, FallbackReason, MemoryEvictionReason,
    MemoryKind, MemoryStatus, PolicySource,
};
use crate::telemetry::{
    description_views, labelled, labelled2, series_views, unlabelled, MetricDescription,
    MetricDescriptionView, MetricKind, MetricSeries, MetricSeriesView, MetricUnit,
};

verus! {

/// Series `i` of the `blackflower_agent_agents` family, in registration order.
pub open spec fn health_series(i: int) -> MetricSeriesView {
    MetricSeriesView {
        kind: MetricKind::Gauge,
        name: "blackflower_agent_agents"@,
        labels: seq![("health"@, AgentHealth::ALL@[i].label())],
    }
}

/// Series `i` of the `blackflower_agent_decisions_total` family, in registration order.
pub open spec fn decision_series(i: int) -> MetricSeriesView {
    MetricSeriesView {
        kind: MetricKind::Counter,
        name: "blackflower_agent_decisions_total"@,
        labels: seq![("source"@, PolicySource::ALL@[i / 4].label()), ("outcome"@, DecisionOutcome::ALL@[i % 4].label())],
    }
}

/// Series `i` of the `blackflower_agent_diagnostic_records_dropped_total` family, in registration order.
pub open spec fn dropped_series(i: int) -> MetricSeriesView {
    MetricSeriesView {
        kind: MetricKind::Counter,
        name: "blackflower_agent_diagnostic_records_dropped_total"@,
        labels: seq![("kind"@, DiagnosticRecordKind::ALL@[i].label())],
    }
}

/// Series `i` of the `blackflower_agent_fallbacks_total` family, in registration order.
pub open spec fn fallback_series(i: int) -> MetricSeriesView {
    MetricSeriesView {
        kind: MetricKind::Counter,
        name: "blackflower_agent_fallbacks_total"@,
        labels: seq![("reason"@, FallbackReason::ALL@[i].label())],
    }
}

/// Series `i` of the `blackflower_agent_memory_evictions_total` family, in registration order.
pub open spec fn eviction_series(i: int) -> MetricSeriesView {
    MetricSeriesView {
        kind: MetricKind::Counter,
        name: "blackflower_agent_memory_evictions_total"@,
        labels: seq![("reason"@, MemoryEvictionReason::ALL@[i].label())],
    }
}

/// Series `i` of the `blackflower_agent_memory_items` family, in registration order.
pub open spec fn memory_series(i: int) -> MetricSeriesView {
    MetricSeriesView {
        kind: MetricKind::Gauge,
        name: "blackflower_agent_memory_items"@,
        labels: seq![("kind"@, MemoryKind::ALL@[i / 4].label()), ("status"@, MemoryStatus::ALL@[i % 4].label())],
    }
}

/// Every series the agent runtime owns, registered at zero, in registration order.
pub open spec fn agent_metric_plan() -> Seq<MetricSeriesView> {
    seq![MetricSeriesView { kind: MetricKind::Gauge, name: "blackflower_agent_active_agents"@, labels: Seq::empty() }]
        + Seq::new(4, |i: int| health_series(i))
        + Seq::new(16, |i: int| decision_series(i))
        + Seq::new(3, |i: int| dropped_series(i))
        + Seq::new(5, |i: int| fallback_series(i))
        + Seq::new(4, |i: int| eviction_series(i))
        + Seq::new(16, |i: int| memory_series(i))
        + seq![MetricSeriesView { kind: MetricKind::Counter, name: "blackflower_agent_decision_budget_exhaustions_total"@, labels: Seq::empty() }]
}

/// Describe and initialize the complete low-cardinality agent metric registry: the
/// series to register at zero, in registration order.
pub fn initialize_agent_metrics() -> (plan: Vec<MetricSeries>)
    ensures
        series_views(plan@) == agent_metric_plan(),
{
    let mut plan: Vec<MetricSeries> = Vec::new();
    plan.push(unlabelled(MetricKind::Gauge, "blackflower_agent_active_agents"));
    proof {
        assert(series_views(plan@) =~= seq![MetricSeriesView { kind: MetricKind::Gauge, name: "blackflower_agent_active_agents"@, labels: Seq::empty() }]);
    }
    let healths = AgentHealth::ALL;
    let ghost base = series_views(plan@);
    let mut i: usize = 0;
    while i < 4
        invariant
            i <= 4,
            healths == AgentHealth::ALL,
            series_views(plan@) == base + Seq::new(i as nat, |j: int| health_series(j)),
        decreases 4 - i,
    {
        let series = labelled(MetricKind::Gauge, "blackflower_agent_agents", "health", healths[i].as_str());
        let ghost before = plan@;
        plan.push(series);
        proof {
            assert(plan@ =~= before.push(series));
            assert(series_views(plan@) =~= series_views(before).push(series@));
            assert(Seq::new((i + 1) as nat, |j: int| health_series(j)) =~= Seq::new(i as nat, |j: int| health_series(j)).push(health_series(i as int)));
        }
        i = i + 1;
    }
    let sources = PolicySource::ALL;
    let outcomes = DecisionOutcome::ALL;
    let ghost base = series_views(plan@);
    let mut i: usize = 0;
    while i < 16
        invariant
            i <= 16,
            sources == PolicySource::ALL,
            outcomes == DecisionOutcome::ALL,
            series_views(plan@) == base + Seq::new(i as nat, |j: int| decision_series(j)),
        decreases 16 - i,
    {
        let series = labelled2(MetricKind::Counter, "blackflower_agent_decisions_total", ("source", sources[i / 4].as_str()), ("outcome", outcomes[i % 4].as_str()));
        let ghost before = plan@;
        plan.push(series);
        proof {
            assert(plan@ =~= before.push(series));
            assert(series_views(plan@) =~= series_views(before).push(series@));
            assert(Seq::new((i + 1) as nat, |j: int| decision_series(j)) =~= Seq::new(i as nat, |j: int| decision_series(j)).push(decision_series(i as int)));
        }
        i = i + 1;
    }
    let record_kinds = DiagnosticRecordKind::ALL;
    let ghost base = series_views(plan@);
    let mut i: usize = 0;
    while i < 3
        invariant
            i <= 3,
            record_kinds == DiagnosticRecordKind::ALL,
            series_views(plan@) == base + Seq::new(i as nat, |j: int| dropped_series(j)),
        decreases 3 - i,
    {
        let series = labelled(MetricKind::Counter, "blackflower_agent_diagnostic_records_dropped_total", "kind", record_kinds[i].as_str());
        let ghost before = plan@;
        plan.push(series);
        proof {
            assert(plan@ =~= before.push(series));
            assert(series_views(plan@) =~= series_views(before).push(series@));
            assert(Seq::new((i + 1) as nat, |j: int| dropped_series(j)) =~= Seq::new(i as nat, |j: int| dropped_series(j)).push(dropped_series(i as int)));
        }
        i = i + 1;
    }
    let fallback_reasons = FallbackReason::ALL;
    let ghost base = series_views(plan@);
    let mut i: usize = 0;
    while i < 5
        invariant
            i <= 5,
            fallback_reasons == FallbackReason::ALL,
            series_views(plan@) == base + Seq::new(i as nat, |j: int| fallback_series(j)),
        decreases 5 - i,
    {
        let series = labelled(MetricKind::Counter, "blackflower_agent_fallbacks_total", "reason", fallback_reasons[i].as_str());
        let ghost before = plan@;
        plan.push(series);
        proof {
            assert(plan@ =~= before.push(series));
            assert(series_views(plan@) =~= series_views(before).push(series@));
            assert(Seq::new((i + 1) as nat, |j: int| fallback_series(j)) =~= Seq::new(i as nat, |j: int| fallback_series(j)).push(fallback_series(i as int)));
        }
        i = i + 1;
    }
    let eviction_reasons = MemoryEvictionReason::ALL;
    let ghost base = series_views(plan@);
    let mut i: usize = 0;
    while i < 4
        invariant
            i <= 4,
            eviction_reasons == MemoryEvictionReason::ALL,
            series_views(plan@) == base + Seq::new(i as nat, |j: int| eviction_series(j)),
        decreases 4 - i,
    {
        let series = labelled(MetricKind::Counter, "blackflower_agent_memory_evictions_total", "reason", eviction_reasons[i].as_str());
        let ghost before = plan@;
        plan.push(series);
        proof {
            assert(plan@ =~= before.push(series));
            assert(series_views(plan@) =~= series_views(before).push(series@));
            assert(Seq::new((i + 1) as nat, |j: int| eviction_series(j)) =~= Seq::new(i as nat, |j: int| eviction_series(j)).push(eviction_series(i as int)));
        }
        i = i + 1;
    }
    let memory_kinds = MemoryKind::ALL;
    let memory_statuses = MemoryStatus::ALL;
    let ghost base = series_views(plan@);
    let mut i: usize = 0;
    while i < 16
        invariant
            i <= 16,
            memory_kinds == MemoryKind::ALL,
            memory_statuses == MemoryStatus::ALL,
            series_views(plan@) == base + Seq::new(i as nat, |j: int| memory_series(j)),
        decreases 16 - i,
    {
        let series = labelled2(MetricKind::Gauge, "blackflower_agent_memory_items", ("kind", memory_kinds[i / 4].as_str()), ("status", memory_statuses[i % 4].as_str()));
        let ghost before = plan@;
        plan.push(series);
        proof {
            assert(plan@ =~= before.push(series));
            assert(series_views(plan@) =~= series_views(before).push(series@));
            assert(Seq::new((i + 1) as nat, |j: int| memory_series(j)) =~= Seq::new(i as nat, |j: int| memory_series(j)).push(memory_series(i as int)));
        }
        i = i + 1;
    }
    let ghost before = plan@;
    let budget = unlabelled(MetricKind::Counter, "blackflower_agent_decision_budget_exhaustions_total");
    plan.push(budget);
    proof {
        assert(plan@ =~= before.push(budget));
        assert(series_views(plan@) =~= series_views(before).push(budget@));
        assert(series_views(plan@) =~= agent_metric_plan());
    }
    plan
}

/// Registry descriptions of every agent metric family, in declaration order.
pub open spec fn agent_metric_descriptions() -> Seq<MetricDescriptionView> {
    seq![
        MetricDescriptionView { kind: MetricKind::Gauge, name: "blackflower_agent_active_agents"@, unit: MetricUnit::Count, description: "Current number of established ordinary-client agent runtimes"@ },
        MetricDescriptionView { kind: MetricKind::Gauge, name: "blackflower_agent_agents"@, unit: MetricUnit::Count, description: "Current agent runtimes by bounded health state"@ },
        MetricDescriptionView { kind: MetricKind::Counter, name: "blackflower_agent_decisions_total"@, unit: MetricUnit::Count, description: "Completed agent decisions by bounded policy source and outcome"@ },
        MetricDescriptionView { kind: MetricKind::Histogram, name: "blackflower_agent_decision_duration_seconds"@, unit: MetricUnit::Seconds, description: "End-to-end agent controller decision duration by policy source"@ },
        MetricDescriptionView { kind: MetricKind::Histogram, name: "blackflower_agent_inference_duration_seconds"@, unit: MetricUnit::Seconds, description: "Local neural-network inference duration by terminal decision outcome"@ },
        MetricDescriptionView { kind: MetricKind::Histogram, name: "blackflower_agent_perceived_entities"@, unit: MetricUnit::Count, description: "Entities admitted by the real sensory filter per observation"@ },
        MetricDescriptionView { kind: MetricKind::Histogram, name: "blackflower_agent_navigation_query_duration_seconds"@, unit: MetricUnit::Seconds, description: "Bounded navigation-worker query duration by result"@ },
        MetricDescriptionView { kind: MetricKind::Counter, name: "blackflower_agent_fallbacks_total"@, unit: MetricUnit::Count, description: "Neutral or classical agent fallbacks by bounded reason"@ },
        MetricDescriptionView { kind: MetricKind::Counter, name: "blackflower_agent_decision_budget_exhaustions_total"@, unit: MetricUnit::Count, description: "Agent decisions skipped or curtailed by the shared CPU budget"@ },
        MetricDescriptionView { kind: MetricKind::Gauge, name: "blackflower_agent_memory_items"@, unit: MetricUnit::Count, description: "Current aggregate semantic-memory occupancy by kind and status"@ },
        MetricDescriptionView { kind: MetricKind::Counter, name: "blackflower_agent_memory_evictions_total"@, unit: MetricUnit::Count, description: "Semantic-memory evictions by bounded reason"@ },
        MetricDescriptionView { kind: MetricKind::Counter, name: "blackflower_agent_diagnostic_records_dropped_total"@, unit: MetricUnit::Count, description: "Foreground diagnostic records dropped by a full bounded queue"@ },
    ]
}

/// Describe every agent metric family: kind, name, unit, and operator description.
pub fn describe_agent_metrics() -> (descriptions: Vec<MetricDescription>)
    ensures
        description_views(descriptions@) == agent_metric_descriptions(),
{
    let mut descriptions: Vec<MetricDescription> = Vec::new();
    descriptions.push(MetricDescription { kind: MetricKind::Gauge, name: "blackflower_agent_active_agents", unit: MetricUnit::Count, description: "Current number of established ordinary-client agent runtimes" });
    descriptions.push(MetricDescription { kind: MetricKind::Gauge, name: "blackflower_agent_agents", unit: MetricUnit::Count, description: "Current agent runtimes by bounded health state" });
    descriptions.push(MetricDescription { kind: MetricKind::Counter, name: "blackflower_agent_decisions_total", unit: MetricUnit::Count, description: "Completed agent decisions by bounded policy source and outcome" });
    descriptions.push(MetricDescription { kind: MetricKind::Histogram, name: "blackflower_agent_decision_duration_seconds", unit: MetricUnit::Seconds, description: "End-to-end agent controller decision duration by policy source" });
    descriptions.push(MetricDescription { kind: MetricKind::Histogram, name: "blackflower_agent_inference_duration_seconds", unit: MetricUnit::Seconds, description: "Local neural-network inference duration by terminal decision outcome" });
    descriptions.push(MetricDescription { kind: MetricKind::Histogram, name: "blackflower_agent_perceived_entities", unit: MetricUnit::Count, description: "Entities admitted by the real sensory filter per observation" });
    descriptions.push(MetricDescription { kind: MetricKind::Histogram, name: "blackflower_agent_navigation_query_duration_seconds", unit: MetricUnit::Seconds, description: "Bounded navigation-worker query duration by result" });
    descriptions.push(MetricDescription { kind: MetricKind::Counter, name: "blackflower_agent_fallbacks_total", unit: MetricUnit::Count, description: "Neutral or classical agent fallbacks by bounded reason" });
    descriptions.push(MetricDescription { kind: MetricKind::Counter, name: "blackflower_agent_decision_budget_exhaustions_total", unit: MetricUnit::Count, description: "Agent decisions skipped or curtailed by the shared CPU budget" });
    descriptions.push(MetricDescription { kind: MetricKind::Gauge, name: "blackflower_agent_memory_items", unit: MetricUnit::Count, description: "Current aggregate semantic-memory occupancy by kind and status" });
    descriptions.push(MetricDescription { kind: MetricKind::Counter, name: "blackflower_agent_memory_evictions_total", unit: MetricUnit::Count, description: "Semantic-memory evictions by bounded reason" });
    descriptions.push(MetricDescription { kind: MetricKind::Counter, name: "blackflower_agent_diagnostic_records_dropped_total", unit: MetricUnit::Count, description: "Foreground diagnostic records dropped by a full bounded queue" });
    proof {
        assert(description_views(descriptions@) =~= agent_metric_descriptions());
    }
    descriptions
}

} // verus!
