//! How far one connected peer of the dedicated server has come through synchronization,
//! and the decisions that depend on it: the clock readiness threshold, when activation
//! and replication snapshots are due, how far ahead a control may reach, and what a
//! dropped connection leaves behind for a later resume.
use vstd::prelude::*;
use super::resumption::DetachedSession;

verus! {

/// The largest clock uncertainty, in ticks, at which a client counts as synchronized.
pub const MAX_CLOCK_UNCERTAINTY_TICKS: u16 = 2;

/// A client reported its clock as synchronized with too much uncertainty.
#[derive(Debug, Clone, Copy, PartialEq, Eq)]
pub struct ClockNotReady {
    pub uncertainty_ticks: u16,
}

/// Synchronization progress of one peer.
#[derive(Debug, Clone, Copy, PartialEq, Eq)]
pub struct PeerProgress {
    /// The client applied the bootstrap snapshot.
    pub bootstrap_applied: bool,
    /// The clock uncertainty the client reported once synchronized.
    pub clock_uncertainty_ticks: Option<u16>,
    /// Activation was scheduled.
    pub activation_scheduled: bool,
    /// The session's activation was reported.
    pub active_reported: bool,
    /// The tick of the last snapshot queued for the client.
    pub last_snapshot_tick: Option<u64>,
    /// The actor still has to be spawned or announced.
    pub spawn_pending: bool,
}

/// Progress of a peer that (re)starts synchronization.
pub open spec fn restarted() -> PeerProgress {
    PeerProgress {
        bootstrap_applied: false,
        clock_uncertainty_ticks: None,
        activation_scheduled: false,
        active_reported: false,
        last_snapshot_tick: None,
        spawn_pending: true,
    }
}

impl PeerProgress {
    /// Progress of a newly accepted peer: nothing done yet and no actor requested.
    pub fn new() -> (progress: Self)
        ensures
            progress == (PeerProgress { spawn_pending: false, ..restarted() }),
    {
        PeerProgress {
            bootstrap_applied: false,
            clock_uncertainty_ticks: None,
            activation_scheduled: false,
            active_reported: false,
            last_snapshot_tick: None,
            spawn_pending: false,
        }
    }

    /// Start synchronization over, as after a resync request or a resume: everything is
    /// forgotten and the actor has to be spawned or announced again.
    pub fn restart_synchronization(&mut self)
        ensures
            *final(self) == restarted(),
    {
        *self = PeerProgress {
            bootstrap_applied: false,
            clock_uncertainty_ticks: None,
            activation_scheduled: false,
            active_reported: false,
            last_snapshot_tick: None,
            spawn_pending: true,
        };
    }

    /// Take the client's report that its clock is synchronized with `uncertainty_ticks`:
    /// refused, changing nothing, above the threshold; otherwise kept.
    pub fn clock_synchronized(&mut self, uncertainty_ticks: u16) -> (result: Result<(), ClockNotReady>)
        ensures
            uncertainty_ticks > MAX_CLOCK_UNCERTAINTY_TICKS ==> result == Err::<(), ClockNotReady>(
                ClockNotReady { uncertainty_ticks },
            ) && *final(self) == *old(self),
            uncertainty_ticks <= MAX_CLOCK_UNCERTAINTY_TICKS ==> result is Ok && *final(self) == (
            PeerProgress { clock_uncertainty_ticks: Some(uncertainty_ticks), ..*old(self) }),
    {
        if uncertainty_ticks > MAX_CLOCK_UNCERTAINTY_TICKS {
            return Err(ClockNotReady { uncertainty_ticks });
        }
        self.clock_uncertainty_ticks = Some(uncertainty_ticks);
        Ok(())
    }

    /// The clock uncertainty to schedule activation with, when activation is due: the
    /// bootstrap was applied, activation is not yet scheduled, the session is
    /// synchronizing, and the clock is synchronized.
    pub fn activation_due(&self, synchronizing: bool) -> (due: Option<u16>)
        ensures
            due == (if self.bootstrap_applied && !self.activation_scheduled && synchronizing {
                self.clock_uncertainty_ticks
            } else {
                None
            }),
    {
        if self.bootstrap_applied && !self.activation_scheduled && synchronizing {
            self.clock_uncertainty_ticks
        } else {
            None
        }
    }

    /// Whether a replication snapshot of `tick` is due for an active session: the actor
    /// is in place, the tick falls on the snapshot interval, and no snapshot of this or a
    /// later tick was queued.
    pub fn snapshot_due(&self, active: bool, tick: u64, interval: u64) -> (due: bool)
        requires
            interval > 0,
        ensures
            due == (active && !self.spawn_pending && tick % interval == 0 && match self.last_snapshot_tick {
                Some(last) => last < tick,
                None => true,
            }),
    {
        if !active || self.spawn_pending || tick % interval != 0 {
            return false;
        }
        match self.last_snapshot_tick {
            Some(last) => last < tick,
            None => true,
        }
    }
}

/// Whether a control for `execute_tick` lies within `max_future_ticks` of the current
/// tick (the window saturates at the largest tick).
pub fn control_within_window(execute_tick: u64, current_tick: u64, max_future_ticks: u64) -> (within: bool)
    ensures
        within == (execute_tick <= (if current_tick + max_future_ticks > u64::MAX {
            u64::MAX as int
        } else {
            current_tick + max_future_ticks
        })),
{
    execute_tick <= current_tick.saturating_add(max_future_ticks)
}

/// What a dropped connection leaves for a later resume: its session with the actor's
/// binding, retained for `window` after `now` (saturating), when it has both.
pub fn detach<B: Copy>(session: Option<u64>, binding: Option<B>, now: u64, window: u64) -> (retained: Option<DetachedSession<B>>)
    ensures
        retained == (match (session, binding) {
            (Some(s), Some(b)) => Some(
                DetachedSession {
                    session: s,
                    binding: b,
                    expires_at: (if now + window > u64::MAX {
                        u64::MAX as int
                    } else {
                        now + window
                    }) as u64,
                },
            ),
            _ => None,
        }),
{
    match (session, binding) {
        (Some(s), Some(b)) => Some(DetachedSession { session: s, binding: b, expires_at: now.saturating_add(window) }),
        _ => None,
    }
}

} // verus!
