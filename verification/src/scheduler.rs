//! Fixed-rate pacing of the authoritative simulation and its scheduler telemetry.
//!
//! Time is measured in nanoseconds on the host's monotonic clock, counted from an
//! origin chosen by the caller.
use vstd::prelude::*;
use crate::telemetry::{
    description_views, series_views, unlabelled, MetricDescription, MetricDescriptionView,
    MetricKind, MetricSeries, MetricSeriesView, MetricUnit,
};

verus! {

/// Nanoseconds in one second.
pub const NANOSECONDS_PER_SECOND: u64 = 1_000_000_000;

/// Authoritative simulation ticks per second.
pub const SIMULATION_TICK_RATE_HZ: u64 = 240;

/// Whole nanoseconds of one tick interval.
pub const TICK_BASE_NANOS: u64 = 4_166_666;

/// Nanoseconds per second left over after whole tick intervals.
pub const TICK_REMAINDER_NANOS: u64 = 160;

/// Abstract value of a [`TickPacer`].
pub struct PacerView {
    pub deadline: nat,
    pub remainder: nat,
}

/// The pacer after one more tick: the deadline moves by one whole interval, plus one
/// nanosecond whenever the accumulated fractional nanoseconds reach a whole tick rate.
pub open spec fn advanced(p: PacerView) -> PacerView {
    let remainder = p.remainder + TICK_REMAINDER_NANOS;
    let carry: nat = if remainder >= SIMULATION_TICK_RATE_HZ {
        1
    } else {
        0
    };
    PacerView {
        deadline: (p.deadline + TICK_BASE_NANOS + carry) as nat,
        remainder: (remainder - carry * SIMULATION_TICK_RATE_HZ) as nat,
    }
}

/// The pacer after `k` more ticks.
pub open spec fn advanced_by(p: PacerView, k: nat) -> PacerView
    decreases k,
{
    if k == 0 {
        p
    } else {
        advanced(advanced_by(p, (k - 1) as nat))
    }
}

/// Deadline-driven fixed-rate tick pacer whose fractional nanoseconds never drift.
#[derive(Debug, Clone, Copy, PartialEq, Eq)]
pub struct TickPacer {
    deadline: u64,
    remainder: u64,
}

impl View for TickPacer {
    type V = PacerView;

    closed spec fn view(&self) -> PacerView {
        PacerView { deadline: self.deadline as nat, remainder: self.remainder as nat }
    }
}

/// Timing of one tick start relative to its deadline.
#[derive(Debug, Clone, Copy, PartialEq, Eq)]
pub struct TickTiming {
    /// Scheduled start of the tick.
    pub deadline: u64,
    /// Time deliberately spent waiting for the deadline.
    pub waited: u64,
    /// How late the tick started.
    pub lag: u64,
    /// Whole tick intervals the start is behind schedule.
    pub ticks_behind: u64,
}

/// Whole tick intervals in a duration (`lag × rate ÷ 10⁹`).
pub open spec fn whole_ticks(nanos: nat) -> nat {
    (nanos * (SIMULATION_TICK_RATE_HZ as nat)) / (NANOSECONDS_PER_SECOND as nat)
}

/// Number of whole tick intervals in `nanos`.
pub fn full_ticks(nanos: u64) -> (ticks: u64)
    ensures
        ticks == whole_ticks(nanos as nat),
{
    let scaled = (nanos as u128) * (SIMULATION_TICK_RATE_HZ as u128);
    let ticks = scaled / (NANOSECONDS_PER_SECOND as u128);
    assert(ticks <= u64::MAX) by (nonlinear_arith)
        requires
            scaled == nanos as u128 * 240,
            ticks == scaled / 1_000_000_000,
            nanos <= u64::MAX,
    ;
    ticks as u64
}

impl TickPacer {
    #[verifier::type_invariant]
    spec fn remainder_bounded(self) -> bool {
        self.remainder < SIMULATION_TICK_RATE_HZ
    }

    /// Start pacing with the first deadline at `now`.
    pub fn new(now: u64) -> (pacer: Self)
        ensures
            pacer@.deadline == now,
            pacer@.remainder == 0,
    {
        TickPacer { deadline: now, remainder: 0 }
    }

    /// Return the scheduled start of the next tick.
    pub fn deadline(&self) -> (deadline: u64)
        ensures
            deadline == self@.deadline,
    {
        self.deadline
    }

    /// Time to sleep before the next tick may start, when `now` is before its deadline.
    pub fn time_until_deadline(&self, now: u64) -> (wait: u64)
        ensures
            wait == (if self@.deadline > now {
                self@.deadline - now
            } else {
                0
            }),
    {
        self.deadline.saturating_sub(now)
    }

    /// Timing of a tick started at `started_at` after waiting `waited`.
    pub fn timing_at(&self, started_at: u64, waited: u64) -> (timing: TickTiming)
        ensures
            timing.deadline == self@.deadline,
            timing.waited == waited,
            timing.lag == (if started_at > self@.deadline {
                started_at - self@.deadline
            } else {
                0
            }),
            timing.ticks_behind == whole_ticks(timing.lag as nat),
    {
        let lag = started_at.saturating_sub(self.deadline);
        TickTiming { deadline: self.deadline, waited, lag, ticks_behind: full_ticks(lag) }
    }

    /// Move the deadline forward by exactly one tick interval.
    pub fn advance(&mut self)
        requires
            old(self)@.deadline + TICK_BASE_NANOS + 1 <= u64::MAX,
        ensures
            final(self)@ == advanced(old(self)@),
    {
        proof {
            use_type_invariant(&*self);
        }
        let remainder = self.remainder + TICK_REMAINDER_NANOS;
        let carry: u64 = if remainder >= SIMULATION_TICK_RATE_HZ {
            1
        } else {
            0
        };
        let remainder = if carry != 0 {
            remainder - SIMULATION_TICK_RATE_HZ
        } else {
            remainder
        };
        let deadline = self.deadline + TICK_BASE_NANOS + carry;
        *self = TickPacer { deadline, remainder };
    }
}

impl TickTiming {
    /// Time from the scheduled start to `finished_at`, the numerator of the
    /// deadline-pressure ratio.
    pub fn occupied(&self, finished_at: u64) -> (occupied: u64)
        ensures
            occupied == (if finished_at > self.deadline {
                finished_at - self.deadline
            } else {
                0
            }),
    {
        finished_at.saturating_sub(self.deadline)
    }
}

/// One tick interval splits into whole and fractional nanoseconds.
pub proof fn lemma_tick_interval_split()
    ensures
        NANOSECONDS_PER_SECOND == SIMULATION_TICK_RATE_HZ * TICK_BASE_NANOS + TICK_REMAINDER_NANOS,
        TICK_REMAINDER_NANOS < SIMULATION_TICK_RATE_HZ,
{
}

/// Pacing never drifts: after `k` ticks from a fresh pacer, the deadline lies exactly
/// `⌊k × 10⁹ ÷ 240⌋` nanoseconds after the start, and the fractional nanoseconds carried
/// are `(k × 10⁹) mod 240`.
pub proof fn lemma_pacing_never_drifts(start: nat, k: nat)
    ensures
        advanced_by(PacerView { deadline: start, remainder: 0 }, k).deadline == start + (k
            * (NANOSECONDS_PER_SECOND as nat)) / (SIMULATION_TICK_RATE_HZ as nat),
        advanced_by(PacerView { deadline: start, remainder: 0 }, k).remainder == (k
            * (NANOSECONDS_PER_SECOND as nat)) % (SIMULATION_TICK_RATE_HZ as nat),
    decreases k,
{
    let p0 = PacerView { deadline: start, remainder: 0 };
    if k > 0 {
        lemma_pacing_never_drifts(start, (k - 1) as nat);
        let prev = (k - 1) as nat;
        let a = prev * 1_000_000_000;
        assert(k * 1_000_000_000 == a + 1_000_000_000) by (nonlinear_arith)
            requires
                prev == k - 1,
                a == prev * 1_000_000_000,
        ;
        assert((a + 1_000_000_000) / 240 == a / 240 + 4_166_666 + (a % 240 + 160) / 240
            && (a + 1_000_000_000) % 240 == (a % 240 + 160) % 240) by (nonlinear_arith)
            requires
                a >= 0,
        {
            vstd::arithmetic::div_mod::lemma_fundamental_div_mod(a as int, 240);
            vstd::arithmetic::div_mod::lemma_fundamental_div_mod((a + 1_000_000_000) as int, 240);
        }
    }
}

/// One second of ticks advances the deadline by exactly one second.
pub proof fn lemma_one_second_of_ticks(start: nat)
    ensures
        advanced_by(PacerView { deadline: start, remainder: 0 }, SIMULATION_TICK_RATE_HZ as nat).deadline
            == start + NANOSECONDS_PER_SECOND,
{
    lemma_pacing_never_drifts(start, SIMULATION_TICK_RATE_HZ as nat);
}

/// Saturating conversion of a count to the `u32` range of a gauge.
pub fn metric_u32(value: u64) -> (converted: u32)
    ensures
        converted == (if value > u32::MAX {
            u32::MAX as u64
        } else {
            value
        }),
{
    if value > u32::MAX as u64 {
        u32::MAX
    } else {
        value as u32
    }
}

/// Scheduler telemetry derived from one tick start.
#[derive(Debug, Clone, Copy, PartialEq, Eq)]
pub struct TickStartTelemetry {
    /// Value of the catch-up depth gauge.
    pub catch_up_depth: u32,
    /// Whether the catch-up counter counts this tick.
    pub caught_up: bool,
}

/// Telemetry of a tick started `ticks_behind` whole intervals late.
pub fn tick_started(ticks_behind: u64) -> (telemetry: TickStartTelemetry)
    ensures
        telemetry.catch_up_depth == (if ticks_behind > u32::MAX {
            u32::MAX as u64
        } else {
            ticks_behind
        }),
        telemetry.caught_up == (ticks_behind > 0),
{
    TickStartTelemetry { catch_up_depth: metric_u32(ticks_behind), caught_up: ticks_behind > 0 }
}

/// Registry descriptions of the scheduler metric families.
pub open spec fn scheduler_metric_descriptions() -> Seq<MetricDescriptionView> {
    seq![
        MetricDescriptionView {
            kind: MetricKind::Histogram,
            name: "blackflower_server_simulation_scheduler_wait_seconds"@,
            unit: MetricUnit::Seconds,
            description: "Time deliberately spent waiting for an authoritative tick deadline"@,
        },
        MetricDescriptionView {
            kind: MetricKind::Histogram,
            name: "blackflower_server_simulation_scheduler_tick_lag_seconds"@,
            unit: MetricUnit::Seconds,
            description: "Authoritative tick start lag behind its scheduled deadline"@,
        },
        MetricDescriptionView {
            kind: MetricKind::Gauge,
            name: "blackflower_server_simulation_scheduler_catch_up_depth_ticks"@,
            unit: MetricUnit::Count,
            description: "Current whole authoritative tick intervals behind schedule"@,
        },
        MetricDescriptionView {
            kind: MetricKind::Counter,
            name: "blackflower_server_simulation_scheduler_catch_up_ticks_total"@,
            unit: MetricUnit::Count,
            description: "Authoritative ticks started at least one whole interval behind schedule"@,
        },
        MetricDescriptionView {
            kind: MetricKind::Histogram,
            name: "blackflower_server_simulation_scheduler_deadline_pressure_ratio"@,
            unit: MetricUnit::Count,
            description: "Tick completion time since its scheduled start divided by the fixed-step budget"@,
        },
    ]
}

/// Describe every scheduler metric family.
pub fn describe_metrics() -> (descriptions: Vec<MetricDescription>)
    ensures
        description_views(descriptions@) == scheduler_metric_descriptions(),
{
    let mut descriptions: Vec<MetricDescription> = Vec::new();
    descriptions.push(
        MetricDescription {
            kind: MetricKind::Histogram,
            name: "blackflower_server_simulation_scheduler_wait_seconds",
            unit: MetricUnit::Seconds,
            description: "Time deliberately spent waiting for an authoritative tick deadline",
        },
    );
    descriptions.push(
        MetricDescription {
            kind: MetricKind::Histogram,
            name: "blackflower_server_simulation_scheduler_tick_lag_seconds",
            unit: MetricUnit::Seconds,
            description: "Authoritative tick start lag behind its scheduled deadline",
        },
    );
    descriptions.push(
        MetricDescription {
            kind: MetricKind::Gauge,
            name: "blackflower_server_simulation_scheduler_catch_up_depth_ticks",
            unit: MetricUnit::Count,
            description: "Current whole authoritative tick intervals behind schedule",
        },
    );
    descriptions.push(
        MetricDescription {
            kind: MetricKind::Counter,
            name: "blackflower_server_simulation_scheduler_catch_up_ticks_total",
            unit: MetricUnit::Count,
            description: "Authoritative ticks started at least one whole interval behind schedule",
        },
    );
    descriptions.push(
        MetricDescription {
            kind: MetricKind::Histogram,
            name: "blackflower_server_simulation_scheduler_deadline_pressure_ratio",
            unit: MetricUnit::Count,
            description: "Tick completion time since its scheduled start divided by the fixed-step budget",
        },
    );
    proof {
        assert(description_views(descriptions@) =~= scheduler_metric_descriptions());
    }
    descriptions
}

/// Series the scheduler registers at zero when pacing starts.
pub open spec fn scheduler_initial_series() -> Seq<MetricSeriesView> {
    seq![
        MetricSeriesView {
            kind: MetricKind::Gauge,
            name: "blackflower_server_simulation_scheduler_catch_up_depth_ticks"@,
            labels: Seq::empty(),
        },
        MetricSeriesView {
            kind: MetricKind::Counter,
            name: "blackflower_server_simulation_scheduler_catch_up_ticks_total"@,
            labels: Seq::empty(),
        },
    ]
}

/// The scheduler series to register at zero, after describing the families.
pub fn initialize() -> (plan: Vec<MetricSeries>)
    ensures
        series_views(plan@) == scheduler_initial_series(),
{
    let mut plan: Vec<MetricSeries> = Vec::new();
    let depth = unlabelled(
        MetricKind::Gauge,
        "blackflower_server_simulation_scheduler_catch_up_depth_ticks",
    );
    let catch_up = unlabelled(
        MetricKind::Counter,
        "blackflower_server_simulation_scheduler_catch_up_ticks_total",
    );
    plan.push(depth);
    plan.push(catch_up);
    proof {
        assert(series_views(plan@) =~= scheduler_initial_series());
    }
    plan
}

} // verus!
