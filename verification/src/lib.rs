//! Verified core of a terminal dashboard for cluster resources: startup
//! configuration, the request queues, the shared application state, the three
//! worker engines and the tick-driven interface loop, each as plain state
//! transitions with machine-checked contracts.

pub mod config;
pub mod help;
pub mod key;
pub mod pipeline;
pub mod queue;
pub mod report;
pub mod request;
pub mod state;
pub mod stream;
mod text;
pub mod ui;
pub mod worker;
