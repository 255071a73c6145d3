//! Consecutive scheduling of native movement controls inside the server's future window.
use vstd::prelude::*;
use crate::input::{EdgeSample, InputContext};

verus! {

/// Simulation ticks covered by one movement control.
pub const CONTROL_TICKS: u64 = 4;

/// Server-side bounds on when a submitted control may execute.
#[derive(Debug, Clone, Copy, PartialEq, Eq)]
pub struct ControlWindow {
    /// Furthest execution tick ahead of the current tick that the server accepts.
    pub max_future_ticks: u64,
    /// Ticks a restarted timeline may jump at once when rebasing onto a larger lead.
    pub grace_ticks: u64,
}

/// A control execution tick could not be represented.
#[derive(Debug, Clone, Copy, PartialEq, Eq, Structural)]
pub enum ControlMappingError {
    /// Tick scheduling exhausted the network representation.
    TickOverflow,
}

/// The smallest multiple of `quantum` that is at least `value`, if it fits in `u64`
/// together with `quantum - 1`.
pub open spec fn aligned_up(value: nat, quantum: nat) -> Option<nat> {
    if value + quantum - 1 > u64::MAX {
        None
    } else {
        Some((((value + quantum - 1) as nat) / quantum) * quantum)
    }
}

/// Round `value` up to a multiple of `quantum`.
pub fn align_up(value: u64, quantum: u64) -> (aligned: Result<u64, ControlMappingError>)
    requires
        quantum > 0,
    ensures
        match aligned_up(value as nat, quantum as nat) {
            Some(a) => aligned == Ok::<u64, ControlMappingError>(a as u64),
            None => aligned == Err::<u64, ControlMappingError>(ControlMappingError::TickOverflow),
        },
{
    match value.checked_add(quantum - 1) {
        Some(rounded) => {
            let quotient = rounded / quantum;
            assert(quotient * quantum <= rounded) by (nonlinear_arith)
                requires
                    quotient == rounded / quantum,
                    quantum > 0,
            ;
            Ok(quotient * quantum)
        },
        None => Err(ControlMappingError::TickOverflow),
    }
}

/// The input lead clamped into `[CONTROL_TICKS, max_future_ticks]`.
pub open spec fn clamped_lead(lead: u64, window: ControlWindow) -> nat {
    if lead < CONTROL_TICKS {
        CONTROL_TICKS as nat
    } else if lead > window.max_future_ticks {
        window.max_future_ticks as nat
    } else {
        lead as nat
    }
}

/// First aligned execution tick for a fresh or restarted control timeline.
pub open spec fn first_tick(current: u64, lead: u64, maximum: u64, window: ControlWindow) -> Option<
    nat,
> {
    let requested = current + clamped_lead(lead, window);
    if requested > u64::MAX {
        None
    } else {
        match aligned_up(requested as nat, CONTROL_TICKS as nat) {
            None => None,
            Some(aligned) => Some(
                if aligned > maximum {
                    ((maximum as nat) / (CONTROL_TICKS as nat)) * (CONTROL_TICKS as nat)
                } else {
                    aligned
                },
            ),
        }
    }
}

/// Return the first aligned execution tick at least `lead` ticks ahead, bounded by
/// `maximum`.
pub fn first_execution_tick(
    current_tick: u64,
    input_lead_ticks: u64,
    maximum: u64,
    window: ControlWindow,
) -> (tick: Result<u64, ControlMappingError>)
    requires
        window.max_future_ticks >= CONTROL_TICKS,
    ensures
        match first_tick(current_tick, input_lead_ticks, maximum, window) {
            Some(t) => tick == Ok::<u64, ControlMappingError>(t as u64),
            None => tick == Err::<u64, ControlMappingError>(ControlMappingError::TickOverflow),
        },
{
    let lead = if input_lead_ticks < CONTROL_TICKS {
        CONTROL_TICKS
    } else if input_lead_ticks > window.max_future_ticks {
        window.max_future_ticks
    } else {
        input_lead_ticks
    };
    let requested = match current_tick.checked_add(lead) {
        Some(requested) => requested,
        None => {
            return Err(ControlMappingError::TickOverflow);
        },
    };
    let aligned = match align_up(requested, CONTROL_TICKS) {
        Ok(aligned) => aligned,
        Err(error) => {
            return Err(error);
        },
    };
    let bounded = if aligned > maximum {
        maximum / CONTROL_TICKS * CONTROL_TICKS
    } else {
        aligned
    };
    Ok(bounded)
}

/// One control scheduled for execution.
#[derive(Debug, Clone, Copy, PartialEq, Eq, Structural)]
pub struct ScheduledControl {
    /// Simulation tick at which the control executes.
    pub execute_tick: u64,
    /// Whether the consecutive control timeline restarted with this control.
    pub reset_timeline: bool,
}

/// Scheduling decision for a cadence whose next planned tick is `next`.
pub open spec fn schedule_spec(
    next: Option<u64>,
    current: u64,
    lead: u64,
    window: ControlWindow,
) -> Result<Option<ScheduledControl>, ControlMappingError> {
    if current + window.max_future_ticks > u64::MAX {
        Err(ControlMappingError::TickOverflow)
    } else {
        let maximum = (current + window.max_future_ticks) as u64;
        match first_tick(current, lead, maximum, window) {
            None => Err(ControlMappingError::TickOverflow),
            Some(desired) => match next {
                Some(n) if n > current => {
                    if n < desired {
                        let grace_bounded = if n + window.grace_ticks > u64::MAX {
                            u64::MAX as nat
                        } else {
                            (n + window.grace_ticks) as nat
                        };
                        let tick = if desired < grace_bounded {
                            desired
                        } else {
                            grace_bounded
                        };
                        Ok(Some(ScheduledControl { execute_tick: tick as u64, reset_timeline: true }))
                    } else if n <= maximum {
                        Ok(Some(ScheduledControl { execute_tick: n, reset_timeline: false }))
                    } else {
                        Ok(None)
                    }
                },
                _ => Ok(
                    Some(
                        ScheduledControl { execute_tick: desired as u64, reset_timeline: next is Some },
                    ),
                ),
            },
        }
    }
}

/// Consecutive 60 Hz control timeline: the execution tick planned for the next control.
#[derive(Debug, Default, Clone, Copy, PartialEq, Eq)]
pub struct ControlCadence {
    next_execute_tick: Option<u64>,
}

impl View for ControlCadence {
    type V = Option<u64>;

    closed spec fn view(&self) -> Option<u64> {
        self.next_execute_tick
    }
}

impl ControlCadence {
    /// A cadence with no planned control.
    pub fn new() -> (cadence: Self)
        ensures
            cadence@ is None,
    {
        ControlCadence { next_execute_tick: None }
    }

    /// Return the execution tick planned for the next control.
    pub fn next_execute_tick(&self) -> (next: Option<u64>)
        ensures
            next == self@,
    {
        self.next_execute_tick
    }

    /// Decide when the next control executes at `current_tick` with the network's input
    /// lead: continue the consecutive timeline, rebase it within the grace bound onto a
    /// larger lead, restart it after a stall, or wait when the planned tick is beyond the
    /// server's future window.
    pub fn schedule(
        &self,
        current_tick: u64,
        input_lead_ticks: u64,
        window: ControlWindow,
    ) -> (scheduled: Result<Option<ScheduledControl>, ControlMappingError>)
        requires
            window.max_future_ticks >= CONTROL_TICKS,
        ensures
            scheduled == schedule_spec(self@, current_tick, input_lead_ticks, window),
    {
        let maximum = match current_tick.checked_add(window.max_future_ticks) {
            Some(maximum) => maximum,
            None => {
                return Err(ControlMappingError::TickOverflow);
            },
        };
        let desired = match first_execution_tick(current_tick, input_lead_ticks, maximum, window) {
            Ok(desired) => desired,
            Err(error) => {
                return Err(error);
            },
        };
        if let Some(next) = self.next_execute_tick {
            if next > current_tick {
                if next < desired {
                    let grace = next.saturating_add(window.grace_ticks);
                    let grace_bounded = if desired < grace {
                        desired
                    } else {
                        grace
                    };
                    return Ok(
                        Some(ScheduledControl { execute_tick: grace_bounded, reset_timeline: true }),
                    );
                }
                if next <= maximum {
                    return Ok(Some(ScheduledControl { execute_tick: next, reset_timeline: false }));
                }
                return Ok(None);
            }
        }
        Ok(
            Some(
                ScheduledControl {
                    execute_tick: desired,
                    reset_timeline: self.next_execute_tick.is_some(),
                },
            ),
        )
    }

    /// Commit a successfully submitted execution tick: the next control follows one
    /// control interval later, or the timeline ends when that tick is not representable.
    pub fn commit(&mut self, execute_tick: u64)
        ensures
            final(self)@ == (if execute_tick + CONTROL_TICKS <= u64::MAX {
                Some((execute_tick + CONTROL_TICKS) as u64)
            } else {
                None
            }),
    {
        self.next_execute_tick = execute_tick.checked_add(CONTROL_TICKS);
    }

    /// Forget cadence when prediction is not on an active session timeline.
    pub fn reset(&mut self)
        ensures
            final(self)@ is None,
    {
        self.next_execute_tick = None;
    }
}

/// Every scheduled control executes strictly after the current tick and no further
/// ahead than the server's future window.
pub proof fn lemma_scheduled_within_future_window(
    next: Option<u64>,
    current: u64,
    lead: u64,
    window: ControlWindow,
)
    requires
        window.max_future_ticks >= CONTROL_TICKS,
    ensures
        match schedule_spec(next, current, lead, window) {
            Ok(Some(control)) => current < control.execute_tick <= current + window.max_future_ticks,
            _ => true,
        },
{
    if current + window.max_future_ticks <= u64::MAX {
        let maximum = (current + window.max_future_ticks) as u64;
        let requested = current + clamped_lead(lead, window);
        if requested <= u64::MAX {
            let r = requested as nat;
            if r + 3 <= u64::MAX {
                let aligned = (((r + 3) as nat) / 4) * 4;
                assert(r <= aligned) by (nonlinear_arith)
                    requires
                        aligned == (((r + 3) as nat) / 4) * 4,
                ;
                let floor = ((maximum as nat) / 4) * 4;
                assert(maximum - 3 <= floor <= maximum) by (nonlinear_arith)
                    requires
                        floor == ((maximum as nat) / 4) * 4,
                ;
            }
        }
    }
}

/// A fresh timeline starts on a control-aligned tick and is not a restart.
pub proof fn lemma_fresh_timeline_is_aligned(current: u64, lead: u64, window: ControlWindow)
    requires
        window.max_future_ticks >= CONTROL_TICKS,
    ensures
        match schedule_spec(None, current, lead, window) {
            Ok(Some(control)) => control.execute_tick % CONTROL_TICKS == 0 && !control.reset_timeline,
            _ => true,
        },
{
    if current + window.max_future_ticks <= u64::MAX {
        let maximum = (current + window.max_future_ticks) as u64;
        let requested = current + clamped_lead(lead, window);
        if requested + 3 <= u64::MAX {
            let r = requested as nat;
            let aligned = (((r + 3) as nat) / 4) * 4;
            assert(aligned % 4 == 0) by (nonlinear_arith)
                requires
                    aligned == (((r + 3) as nat) / 4) * 4,
            ;
            let floor = ((maximum as nat) / 4) * 4;
            assert(floor % 4 == 0) by (nonlinear_arith)
                requires
                    floor == ((maximum as nat) / 4) * 4,
            ;
        }
    }
}

/// After a commit, scheduling at a tick before the committed successor, with a lead
/// that needs no rebase, continues the consecutive timeline exactly one control later.
pub proof fn lemma_commit_continues_timeline(
    execute_tick: u64,
    current: u64,
    lead: u64,
    window: ControlWindow,
)
    requires
        window.max_future_ticks >= CONTROL_TICKS,
        execute_tick + CONTROL_TICKS <= u64::MAX,
        current < execute_tick + CONTROL_TICKS <= current + window.max_future_ticks,
        current + window.max_future_ticks <= u64::MAX,
        first_tick(current, lead, (current + window.max_future_ticks) as u64, window) matches Some(
            desired,
        ) && desired <= execute_tick + CONTROL_TICKS,
    ensures
        schedule_spec(
            Some((execute_tick + CONTROL_TICKS) as u64),
            current,
            lead,
            window,
        ) == Ok::<Option<ScheduledControl>, ControlMappingError>(
            Some(
                ScheduledControl {
                    execute_tick: (execute_tick + CONTROL_TICKS) as u64,
                    reset_timeline: false,
                },
            ),
        ),
{
}

/// The desired first tick of a timeline is control-aligned and never past `maximum`; it
/// lies less than one control after the clamped lead when it reaches the lead, and it
/// falls short of the lead only when the next aligned tick would pass `maximum`.
pub proof fn lemma_first_tick_is_least_aligned(current: u64, lead: u64, maximum: u64, window: ControlWindow)
    ensures
        first_tick(current, lead, maximum, window) matches Some(d) ==> {
            let r = current + clamped_lead(lead, window);
            &&& d % (CONTROL_TICKS as nat) == 0
            &&& d <= maximum
            &&& r <= d ==> d < r + CONTROL_TICKS
            &&& d < r ==> maximum < d + CONTROL_TICKS
        },
{
    let r = current + clamped_lead(lead, window);
    if r <= u64::MAX && r + 3 <= u64::MAX {
        let aligned = (((r + 3) as nat) / 4) * 4;
        assert(r <= aligned < r + 4 && aligned % 4 == 0) by (nonlinear_arith)
            requires
                aligned == (((r + 3) as nat) / 4) * 4,
                r >= 0,
        ;
        let floor = ((maximum as nat) / 4) * 4;
        assert(floor <= maximum < floor + 4 && floor % 4 == 0) by (nonlinear_arith)
            requires
                floor == ((maximum as nat) / 4) * 4,
        ;
    }
}

/// A rebase onto a larger lead takes the earlier of the two bounds: when the planned tick
/// is ahead of the current tick but short of the desired first tick, the control restarts
/// the timeline and executes no later than the desired tick and no later than the
/// planned tick plus the grace, at whichever of the two comes first.
pub proof fn lemma_rebase_takes_the_earlier_bound(next: u64, current: u64, lead: u64, window: ControlWindow)
    requires
        window.max_future_ticks >= CONTROL_TICKS,
        current < next,
        current + window.max_future_ticks <= u64::MAX,
        first_tick(current, lead, (current + window.max_future_ticks) as u64, window) matches Some(d)
            && next < d,
    ensures
        schedule_spec(Some(next), current, lead, window) matches Ok(Some(control)) && {
            let d = first_tick(current, lead, (current + window.max_future_ticks) as u64, window)->Some_0;
            let grace = if next + window.grace_ticks > u64::MAX {
                u64::MAX as int
            } else {
                next + window.grace_ticks
            };
            &&& control.reset_timeline
            &&& control.execute_tick <= d
            &&& control.execute_tick <= grace
            &&& (control.execute_tick == d || control.execute_tick == grace)
        },
{
    lemma_first_tick_is_least_aligned(current, lead, (current + window.max_future_ticks) as u64, window);
}

/// The timeline's other cases: with no planned tick, or one the current tick has reached
/// (a stall), the control executes at the desired first tick, restarting the timeline
/// exactly when one was planned; a planned tick at or past the desired tick is kept,
/// without a restart, while it lies inside the future window, and beyond the window the
/// cadence waits.
pub proof fn lemma_schedule_keeps_or_restarts_the_timeline(
    next: Option<u64>,
    current: u64,
    lead: u64,
    window: ControlWindow,
)
    requires
        window.max_future_ticks >= CONTROL_TICKS,
        current + window.max_future_ticks <= u64::MAX,
        first_tick(current, lead, (current + window.max_future_ticks) as u64, window) is Some,
    ensures
        ({
            let maximum = current + window.max_future_ticks;
            let d = first_tick(current, lead, maximum as u64, window)->Some_0;
            let result = schedule_spec(next, current, lead, window);
            &&& (next is None || next->Some_0 <= current) ==> result == Ok::<
                Option<ScheduledControl>,
                ControlMappingError,
            >(Some(ScheduledControl { execute_tick: d as u64, reset_timeline: next is Some }))
            &&& (next matches Some(n) && current < n && d <= n && n <= maximum) ==> result == Ok::<
                Option<ScheduledControl>,
                ControlMappingError,
            >(Some(ScheduledControl { execute_tick: next->Some_0, reset_timeline: false }))
            &&& (next matches Some(n) && current < n && d <= n && n > maximum) ==> result == Ok::<
                Option<ScheduledControl>,
                ControlMappingError,
            >(None)
        }),
{
}

/// Scheduling fails only when the window or the first tick cannot be represented.
pub proof fn lemma_schedule_fails_only_on_overflow(
    next: Option<u64>,
    current: u64,
    lead: u64,
    window: ControlWindow,
)
    ensures
        schedule_spec(next, current, lead, window) is Err <==> (current + window.max_future_ticks
            > u64::MAX || first_tick(current, lead, (current + window.max_future_ticks) as u64, window)
            is None),
{
}

/// Whether device input drives gameplay: the window has focus and gameplay has captured
/// input.
pub open spec fn is_gameplay_active(focused: bool, context: InputContext) -> bool {
    focused && context == InputContext::GameplayCaptured
}

/// Return whether device input drives gameplay.
pub fn gameplay_active(focused: bool, context: InputContext) -> (active: bool)
    ensures
        active == is_gameplay_active(focused, context),
{
    focused && context == InputContext::GameplayCaptured
}

/// One movement axis from a pair of opposing held keys: `1`, `-1`, or `0` when both or
/// neither are held.
pub open spec fn key_axis(positive: bool, negative: bool) -> int {
    (if positive {
        1int
    } else {
        0int
    }) - (if negative {
        1int
    } else {
        0int
    })
}

/// Movement key axes of a device sample, before the diagonal is limited to unit length:
/// (right − left, forward − back), neutral unless gameplay is active.
pub fn movement_keys(sample: &EdgeSample, right: u32, left: u32, forward: u32, back: u32) -> (axes: (i8, i8))
    ensures
        !is_gameplay_active(sample.focused, sample.context) ==> axes == (0i8, 0i8),
        is_gameplay_active(sample.focused, sample.context) ==> axes.0 == key_axis(
            sample.keys@.held.contains(right),
            sample.keys@.held.contains(left),
        ) && axes.1 == key_axis(sample.keys@.held.contains(forward), sample.keys@.held.contains(back)),
{
    if !gameplay_active(sample.focused, sample.context) {
        return (0, 0);
    }
    let horizontal: i8 = (if sample.keys.is_held(right) {
        1i8
    } else {
        0i8
    }) - (if sample.keys.is_held(left) {
        1i8
    } else {
        0i8
    });
    let vertical: i8 = (if sample.keys.is_held(forward) {
        1i8
    } else {
        0i8
    }) - (if sample.keys.is_held(back) {
        1i8
    } else {
        0i8
    });
    (horizontal, vertical)
}

} // verus!
