//! Verified decision logic of the Blackflower client, server, and agent processes.
pub mod lifecycle;
pub mod text;
pub mod foreground;
pub mod diagnostics;
pub mod telemetry;
pub mod prometheus;
pub mod scheduler;
pub mod controls;
pub mod input;
pub mod network;
pub mod simulation;
pub mod frame_clock;
pub mod arguments;
pub mod admission;
pub mod resumption;
pub mod peer_progress;
