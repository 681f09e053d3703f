//! The vocabulary of the bootstrap sequence: build modes, logging severities,
//! the directives a compliant driver issues, and the errors that abort a
//! launch.

use vstd::prelude::*;

verus! {

/// The compile-time build mode. It is fixed before the process starts and
/// gates whether the logging capability is attached.
#[derive(Clone, Copy, Debug, PartialEq, Eq, Structural)]
pub enum BuildMode {
    Debug,
    Release,
}

impl BuildMode {
    /// True exactly in a debug build.
    pub fn is_debug(&self) -> (b: bool)
        ensures
            b == (*self is Debug),
    {
        match self {
            BuildMode::Debug => true,
            BuildMode::Release => false,
        }
    }
}

/// Logging severities, ordered from least to most severe:
/// `Trace < Debug < Informational < Warning < Error`.
#[derive(Clone, Copy, Debug, PartialEq, Eq, Structural)]
pub enum Severity {
    Trace,
    Debug,
    Informational,
    Warning,
    Error,
}

impl Severity {
    /// The position of a severity in the order, least severe first.
    pub open spec fn rank(self) -> nat {
        match self {
            Severity::Trace => 0,
            Severity::Debug => 1,
            Severity::Informational => 2,
            Severity::Warning => 3,
            Severity::Error => 4,
        }
    }

    /// The rank as a machine integer.
    pub fn level(&self) -> (n: u8)
        ensures
            n as nat == self.rank(),
    {
        match self {
            Severity::Trace => 0,
            Severity::Debug => 1,
            Severity::Informational => 2,
            Severity::Warning => 3,
            Severity::Error => 4,
        }
    }

    /// Whether a logging capability with minimum severity `self` captures an
    /// event of severity `event`: exactly the events at or above the minimum.
    pub fn captures(&self, event: &Severity) -> (b: bool)
        ensures
            b == (event.rank() >= self.rank()),
    {
        event.level() >= self.level()
    }
}

/// One observable call of the bootstrap sequence, as a test double against
/// the builder abstraction would record it.
#[derive(Clone, Copy, Debug, PartialEq, Eq, Structural)]
pub enum Directive {
    /// Register the persistent data-access capability, with its default
    /// configuration.
    RegisterDataAccess,
    /// Register the observability capability, capturing events at or above
    /// `min_severity`.
    RegisterLogging { min_severity: Severity },
    /// Hand the configured builder to the host run loop.
    EnterRunLoop,
}

/// Why a launch aborted. There is no recoverable path: either kind is fatal.
#[derive(Clone, Debug, PartialEq, Eq)]
pub enum BootError {
    /// The setup callback failed: the logging capability could not be
    /// registered. The host's message is propagated unchanged.
    Setup { message: String },
    /// The run loop failed to start or run. The host's message is propagated
    /// unchanged.
    Run { message: String },
}

impl BootError {
    /// The propagated host message.
    pub fn message(&self) -> (m: &String)
        ensures
            self matches BootError::Setup { message } ==> m@ == message@,
            self matches BootError::Run { message } ==> m@ == message@,
    {
        match self {
            BootError::Setup { message } => message,
            BootError::Run { message } => message,
        }
    }
}

} // verus!
