//! Per-pane input mode bookkeeping for a terminal multiplexer.

pub mod config;
pub mod laws;
pub mod mode;
pub mod model;
pub mod program;
pub mod reconciler;
pub mod registry;
pub mod snapshot;
pub mod text;
