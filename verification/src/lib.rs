//! Application bootstrap logic: which capabilities are registered at startup,
//! in what order, and how registration failures abort the launch.
//!
//! The host event loop and the capability registrations themselves are
//! side-effecting host-framework calls and live outside this crate; this
//! library decides and records the bootstrap sequence, and those decisions
//! are verified.

pub mod boot;
pub mod laws;
pub mod model;

pub use boot::BootReport;
pub use boot::bootstrap_run;
pub use boot::fatal_diagnostic;
pub use boot::logging_min_severity;
pub use boot::setup_registers_logging;
pub use boot::startup_plan;
pub use model::BootError;
pub use model::BuildMode;
pub use model::Directive;
pub use model::Severity;
