//! Outcomes and failures of the dedicated server's fixed-rate simulation host.
use vstd::prelude::*;

verus! {

/// Result of an orderly dedicated simulation-host shutdown.
#[derive(Debug, Clone, Copy, PartialEq, Eq, Structural)]
pub struct SimulationExit {
    /// Number of authoritative ticks completed by this process.
    pub completed_ticks: u64,
}

/// Failure while starting, running, or joining the authoritative simulation host.
#[derive(Debug)]
pub enum SimulationHostError {
    /// The operating system rejected creation of the simulation thread.
    ThreadSpawn(std::io::Error),
    /// The authoritative world could not be initialized on its owning thread.
    Initialization(String),
    /// One authoritative simulation tick failed.
    Tick(String),
    /// The simulation thread terminated without reporting initialization.
    InitializationChannelClosed,
    /// The simulation thread panicked.
    ThreadPanicked,
    /// Movement ingress or state exchange failed on the owning thread.
    Movement(String),
}

/// Bounded simulation-ingress or latest-state exchange failure.
#[derive(Debug, Clone, Copy, PartialEq, Eq, Structural)]
pub enum SimulationIngressError {
    /// The simulation input queue is full for this service cycle.
    Full,
    /// The simulation owning thread has stopped.
    Stopped,
    /// The sealed movement-frame mailbox is poisoned.
    StatePoisoned,
}

} // verus!
