//! Pure state and formatting behind the interactive terminal dashboards.
pub mod client;
pub mod history;
pub mod keys;
pub mod roster;
pub mod board;
pub mod panels;
pub mod agent;
pub mod server;
pub mod terminal;
