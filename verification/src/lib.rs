//! A small, verified logging core: styles, log kinds, a component-based
//! formatting pipeline, an ordered hook registry, and the configuration
//! state machine of a logger with console and file sinks.

pub mod hooks;
pub mod logger;
pub mod model;
pub mod render;
