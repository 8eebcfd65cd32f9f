//! Self-diagnosis engine for the `rtx` tool-version manager.
//!
//! The library evaluates a fixed set of health checks against an
//! already-loaded configuration snapshot, renders the diagnostic report
//! (configuration summary and filtered environment variables), and converts
//! the accumulated problems into a single pass/fail outcome.

pub mod checks;
pub mod config;
pub mod doctor;
pub mod numfmt;
pub mod report;
