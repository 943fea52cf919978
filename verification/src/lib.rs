//! Fleet telemetry dashboard core: a shared fleet registry, a polling merge
//! engine, bounded rolling metric series, and the terminal UI's navigation
//! state machine. Network, terminal and rendering live outside this crate;
//! everything here is plain data and verified logic.

pub mod app;
pub mod input;
pub mod metrics;
pub mod poller;
pub mod registry;
pub mod resources;
pub mod server;
pub mod util;
