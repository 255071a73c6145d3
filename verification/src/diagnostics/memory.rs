//! Aggregate semantic-memory occupancy by kind and status, and its gauge adjustments.
use vstd::prelude::*;
use super::kinds::{MemoryKind, MemoryStatus};

verus! {

/// Number of semantic-memory kinds.
pub const MEMORY_KIND_COUNT: usize = 4;

/// Number of semantic-memory evidence states.
pub const MEMORY_STATUS_COUNT: usize = 4;

/// Number of (kind, status) occupancy series.
pub const MEMORY_METRIC_SERIES: usize = 16;

/// Every memory kind, in occupancy-series order.
pub const MEMORY_KINDS: [MemoryKind; 4] = [
    MemoryKind::Sensory,
    MemoryKind::Spatial,
    MemoryKind::Episodic,
    MemoryKind::Working,
];

/// Every memory status, in occupancy-series order.
pub const MEMORY_STATUSES: [MemoryStatus; 4] = [
    MemoryStatus::Observed,
    MemoryStatus::Remembered,
    MemoryStatus::Inferred,
    MemoryStatus::Expired,
];

impl MemoryKind {
    /// Return the position of the kind among the memory occupancy series.
    pub fn index(self) -> (i: usize)
        ensures
            i == self.ordinal(),
            i < MEMORY_KIND_COUNT,
    {
        match self {
            MemoryKind::Sensory => 0,
            MemoryKind::Spatial => 1,
            MemoryKind::Episodic => 2,
            MemoryKind::Working => 3,
        }
    }
}

impl MemoryStatus {
    /// Return the position of the status among the memory occupancy series.
    pub fn index(self) -> (i: usize)
        ensures
            i == self.ordinal(),
            i < MEMORY_STATUS_COUNT,
    {
        match self {
            MemoryStatus::Observed => 0,
            MemoryStatus::Remembered => 1,
            MemoryStatus::Inferred => 2,
            MemoryStatus::Expired => 3,
        }
    }
}

/// Occupancy series of one (kind, status) pair.
pub open spec fn slot_of(kind: MemoryKind, status: MemoryStatus) -> nat {
    kind.ordinal() * MEMORY_STATUS_COUNT as nat + status.ordinal()
}

/// Return the occupancy series of one (kind, status) pair.
pub fn memory_slot(kind: MemoryKind, status: MemoryStatus) -> (slot: usize)
    ensures
        slot == slot_of(kind, status),
        slot < MEMORY_METRIC_SERIES,
{
    kind.index() * MEMORY_STATUS_COUNT + status.index()
}

/// Return the (kind, status) pair that owns one occupancy series.
pub fn memory_identity(slot: usize) -> (identity: (MemoryKind, MemoryStatus))
    requires
        slot < MEMORY_METRIC_SERIES,
    ensures
        slot_of(identity.0, identity.1) == slot,
{
    let kinds = MEMORY_KINDS;
    let statuses = MEMORY_STATUSES;
    (kinds[slot / MEMORY_STATUS_COUNT], statuses[slot % MEMORY_STATUS_COUNT])
}

/// Occupancy series and (kind, status) pairs are in bijection: distinct pairs own
/// distinct series, and every series is owned.
pub proof fn lemma_memory_slots_are_a_bijection(
    kind: MemoryKind,
    status: MemoryStatus,
    other_kind: MemoryKind,
    other_status: MemoryStatus,
)
    ensures
        slot_of(kind, status) < MEMORY_METRIC_SERIES,
        slot_of(kind, status) == slot_of(other_kind, other_status) <==> (kind == other_kind
            && status == other_status),
{
}

/// Saturating occupancy of one series after counting `entries` in order.
pub open spec fn series_count(entries: Seq<(MemoryKind, MemoryStatus, u32)>, slot: nat) -> nat
    decreases entries.len(),
{
    if entries.len() == 0 {
        0
    } else {
        let previous = series_count(entries.drop_last(), slot);
        let (kind, status, count) = entries.last();
        if slot_of(kind, status) == slot {
            if previous + count > u32::MAX {
                u32::MAX as nat
            } else {
                (previous + count) as nat
            }
        } else {
            previous
        }
    }
}

/// Aggregate per-series occupancy from (kind, status, count) entries, saturating at
/// `u32::MAX`.
pub fn memory_counts(entries: &[(MemoryKind, MemoryStatus, u32)]) -> (counts: Vec<u32>)
    ensures
        counts@.len() == MEMORY_METRIC_SERIES,
        forall|slot: int|
            0 <= slot < MEMORY_METRIC_SERIES ==> #[trigger] counts@[slot] == series_count(
                entries@,
                slot as nat,
            ),
{
    let mut counts: Vec<u32> = Vec::new();
    let mut s: usize = 0;
    while s < MEMORY_METRIC_SERIES
        invariant
            s <= MEMORY_METRIC_SERIES,
            counts@.len() == s,
            forall|slot: int| 0 <= slot < s ==> #[trigger] counts@[slot] == 0,
        decreases MEMORY_METRIC_SERIES - s,
    {
        counts.push(0);
        s = s + 1;
    }
    let mut i: usize = 0;
    while i < entries.len()
        invariant
            i <= entries@.len(),
            counts@.len() == MEMORY_METRIC_SERIES,
            forall|slot: int|
                0 <= slot < MEMORY_METRIC_SERIES ==> #[trigger] counts@[slot] == series_count(
                    entries@.subrange(0, i as int),
                    slot as nat,
                ),
        decreases entries@.len() - i,
    {
        let (kind, status, count) = entries[i];
        let slot = memory_slot(kind, status);
        let updated = counts[slot].saturating_add(count);
        counts.set(slot, updated);
        proof {
            let prefix = entries@.subrange(0, i as int + 1);
            assert(prefix.drop_last() =~= entries@.subrange(0, i as int));
            assert(prefix.last() == entries@[i as int]);
        }
        i = i + 1;
    }
    proof {
        assert(entries@.subrange(0, entries@.len() as int) =~= entries@);
    }
    counts
}

/// One signed change to apply to a memory occupancy gauge.
#[derive(Debug, Clone, Copy, PartialEq, Eq)]
pub struct MemoryGaugeAdjustment {
    pub kind: MemoryKind,
    pub status: MemoryStatus,
    pub delta: i32,
}

/// Signed change of one series, with counts reinterpreted as `i32` as the gauges do.
pub open spec fn count_delta(previous: u32, next: u32) -> int {
    (next as i32) - (previous as i32)
}

/// Whether every series' change fits in `i32`.
pub open spec fn deltas_fit(previous: Seq<u32>, next: Seq<u32>) -> bool {
    forall|slot: int|
        0 <= slot < MEMORY_METRIC_SERIES ==> i32::MIN <= #[trigger] count_delta(
            previous[slot],
            next[slot],
        ) <= i32::MAX
}

/// The kind of a series, by its position.
pub open spec fn kind_at(slot: nat) -> MemoryKind {
    MEMORY_KINDS@[(slot / MEMORY_STATUS_COUNT as nat) as int]
}

/// The status of a series, by its position.
pub open spec fn status_at(slot: nat) -> MemoryStatus {
    MEMORY_STATUSES@[(slot % MEMORY_STATUS_COUNT as nat) as int]
}

/// Non-zero gauge adjustments of the first `n` series, in series order.
pub open spec fn adjustments(previous: Seq<u32>, next: Seq<u32>, n: nat) -> Seq<
    MemoryGaugeAdjustment,
>
    decreases n,
{
    if n == 0 {
        Seq::empty()
    } else {
        let earlier = adjustments(previous, next, (n - 1) as nat);
        let slot = (n - 1) as int;
        let delta = count_delta(previous[slot], next[slot]);
        if delta == 0 {
            earlier
        } else {
            earlier.push(
                MemoryGaugeAdjustment {
                    kind: kind_at(slot as nat),
                    status: status_at(slot as nat),
                    delta: delta as i32,
                },
            )
        }
    }
}

/// Gauge adjustments that move the occupancy gauges from `previous` to `next`:
/// one per series whose count changed, in series order.
pub fn memory_gauge_deltas(previous: &[u32], next: &[u32]) -> (changes: Vec<MemoryGaugeAdjustment>)
    requires
        previous@.len() == MEMORY_METRIC_SERIES,
        next@.len() == MEMORY_METRIC_SERIES,
        deltas_fit(previous@, next@),
    ensures
        changes@ == adjustments(previous@, next@, MEMORY_METRIC_SERIES as nat),
{
    let mut changes: Vec<MemoryGaugeAdjustment> = Vec::new();
    let mut slot: usize = 0;
    while slot < MEMORY_METRIC_SERIES
        invariant
            slot <= MEMORY_METRIC_SERIES,
            previous@.len() == MEMORY_METRIC_SERIES,
            next@.len() == MEMORY_METRIC_SERIES,
            deltas_fit(previous@, next@),
            changes@ == adjustments(previous@, next@, slot as nat),
        decreases MEMORY_METRIC_SERIES - slot,
    {
        assert(i32::MIN <= count_delta(previous@[slot as int], next@[slot as int]) <= i32::MAX);
        let delta = (next[slot] as i32) - (previous[slot] as i32);
        if delta != 0 {
            let identity = memory_identity(slot);
            proof {
                lemma_slot_positions(slot as nat);
            }
            changes.push(
                MemoryGaugeAdjustment { kind: identity.0, status: identity.1, delta },
            );
        }
        slot = slot + 1;
    }
    changes
}

proof fn lemma_slot_positions(slot: nat)
    requires
        slot < MEMORY_METRIC_SERIES,
    ensures
        forall|kind: MemoryKind, status: MemoryStatus|
            slot_of(kind, status) == slot ==> kind == kind_at(slot) && status == status_at(slot),
{
}

/// Adjustments that return every occupancy gauge from `counts` to zero, used when a
/// runtime stops.
pub fn memory_gauge_release(counts: &[u32]) -> (changes: Vec<MemoryGaugeAdjustment>)
    requires
        counts@.len() == MEMORY_METRIC_SERIES,
        deltas_fit(counts@, Seq::new(MEMORY_METRIC_SERIES as nat, |i: int| 0u32)),
    ensures
        changes@ == adjustments(
            counts@,
            Seq::new(MEMORY_METRIC_SERIES as nat, |i: int| 0u32),
            MEMORY_METRIC_SERIES as nat,
        ),
{
    let zeros: Vec<u32> = vec![0u32; MEMORY_METRIC_SERIES];
    proof {
        assert(zeros@ =~= Seq::new(MEMORY_METRIC_SERIES as nat, |i: int| 0u32));
    }
    memory_gauge_deltas(counts, zeros.as_slice())
}

/// Net change that a sequence of adjustments makes to the gauge of one (kind, status).
pub open spec fn net_adjustment(changes: Seq<MemoryGaugeAdjustment>, kind: MemoryKind, status: MemoryStatus) -> int
    decreases changes.len(),
{
    if changes.len() == 0 {
        0
    } else {
        let last = changes.last();
        net_adjustment(changes.drop_last(), kind, status) + if last.kind == kind && last.status
            == status {
            last.delta as int
        } else {
            0int
        }
    }
}

proof fn lemma_slot_identity(slot: nat)
    requires
        slot < MEMORY_METRIC_SERIES,
    ensures
        slot_of(kind_at(slot), status_at(slot)) == slot,
{
}

proof fn lemma_net_adjustment_prefix(
    previous: Seq<u32>,
    next: Seq<u32>,
    n: nat,
    kind: MemoryKind,
    status: MemoryStatus,
)
    requires
        n <= MEMORY_METRIC_SERIES,
        previous.len() == MEMORY_METRIC_SERIES,
        next.len() == MEMORY_METRIC_SERIES,
        deltas_fit(previous, next),
    ensures
        net_adjustment(adjustments(previous, next, n), kind, status) == (if slot_of(kind, status)
            < n {
            count_delta(previous[slot_of(kind, status) as int], next[slot_of(kind, status) as int])
        } else {
            0
        }),
    decreases n,
{
    if n > 0 {
        let slot = (n - 1) as nat;
        lemma_net_adjustment_prefix(previous, next, slot, kind, status);
        lemma_slot_identity(slot);
        let delta = count_delta(previous[slot as int], next[slot as int]);
        assert(i32::MIN <= delta <= i32::MAX);
        if delta != 0 {
            let earlier = adjustments(previous, next, slot);
            let pushed = adjustments(previous, next, n);
            assert(pushed.drop_last() == earlier);
        }
        lemma_memory_slots_are_a_bijection(kind, status, kind_at(slot), status_at(slot));
    }
}

/// Applying the adjustments moves every occupancy gauge by exactly the change of its
/// series' count, so gauges that showed `previous` show `next` afterwards.
pub proof fn lemma_gauge_adjustments_reconcile(
    previous: Seq<u32>,
    next: Seq<u32>,
    kind: MemoryKind,
    status: MemoryStatus,
)
    requires
        previous.len() == MEMORY_METRIC_SERIES,
        next.len() == MEMORY_METRIC_SERIES,
        deltas_fit(previous, next),
    ensures
        net_adjustment(adjustments(previous, next, MEMORY_METRIC_SERIES as nat), kind, status)
            == count_delta(
            previous[slot_of(kind, status) as int],
            next[slot_of(kind, status) as int],
        ),
{
    lemma_memory_slots_are_a_bijection(kind, status, kind, status);
    lemma_net_adjustment_prefix(previous, next, MEMORY_METRIC_SERIES as nat, kind, status);
}

} // verus!
