//! The kinds of failure the pipeline knows, and what is done about each.

use vstd::prelude::*;

verus! {

/// Everything that can go wrong, by its cause.
#[derive(Debug, Clone, Copy, PartialEq, Eq, Structural)]
pub enum ErrorKind {
    /// The network failed, or the language model answered without success.
    TransientGateway,
    /// The model's reply could not be read as the structure asked for.
    Decode,
    /// The build reported a failure.
    Compile,
    /// A smoke-test probe was answered with a status outside 200..=299.
    RuntimeProbe,
    /// A credential was missing at startup.
    Config,
}

/// What is done about a failure.
#[derive(Debug, Clone, Copy, PartialEq, Eq, Structural)]
pub enum Policy {
    /// Try again once, with the same input; a second failure is fatal.
    RetryOnce,
    /// Hand the diagnostic to the model and try the corrected code, as long
    /// as the retry budget lasts; fatal once it is spent.
    Repair,
    /// End the run.
    Fatal,
}

/// The policy for each kind of failure.
pub open spec fn policy_of(kind: ErrorKind) -> Policy {
    match kind {
        ErrorKind::TransientGateway => Policy::RetryOnce,
        ErrorKind::Decode => Policy::Fatal,
        ErrorKind::Compile => Policy::Repair,
        ErrorKind::RuntimeProbe => Policy::Repair,
        ErrorKind::Config => Policy::Fatal,
    }
}

/// Executable form of [`policy_of`].
pub fn policy(kind: ErrorKind) -> (policy: Policy)
    ensures
        policy == policy_of(kind),
{
    match kind {
        ErrorKind::TransientGateway => Policy::RetryOnce,
        ErrorKind::Decode => Policy::Fatal,
        ErrorKind::Compile => Policy::Repair,
        ErrorKind::RuntimeProbe => Policy::Repair,
        ErrorKind::Config => Policy::Fatal,
    }
}

/// Why a stage ended without finishing.
#[derive(Debug, Clone, Copy, PartialEq, Eq, Structural)]
pub enum StageError {
    /// The gateway gave up on a request.
    Gateway,
    /// A reply of the model could not be decoded.
    Decode,
    /// The build still failed when the retry budget was spent.
    Compile,
    /// A smoke test still failed when the retry budget was spent.
    RuntimeProbe,
    /// The stage was handed an event that it was not waiting for.
    OutOfTurn,
}

/// The kind of failure behind a stage error, where there is one: an event
/// out of turn is a fault of the driver, not a failure of the pipeline.
pub open spec fn kind_of(error: StageError) -> Option<ErrorKind> {
    match error {
        StageError::Gateway => Some(ErrorKind::TransientGateway),
        StageError::Decode => Some(ErrorKind::Decode),
        StageError::Compile => Some(ErrorKind::Compile),
        StageError::RuntimeProbe => Some(ErrorKind::RuntimeProbe),
        StageError::OutOfTurn => None,
    }
}

impl StageError {
    /// The kind of failure behind this error.
    pub fn kind(&self) -> (kind: Option<ErrorKind>)
        ensures
            kind == kind_of(*self),
    {
        match self {
            StageError::Gateway => Some(ErrorKind::TransientGateway),
            StageError::Decode => Some(ErrorKind::Decode),
            StageError::Compile => Some(ErrorKind::Compile),
            StageError::RuntimeProbe => Some(ErrorKind::RuntimeProbe),
            StageError::OutOfTurn => None,
        }
    }
}

} // verus!
