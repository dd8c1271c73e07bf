use vstd::prelude::*;

verus! {

/// Every failure that the engine surfaces to its callers.
///
/// An `InternalApiCallOutcome::Failure` during remediation is data, not an
/// `Error`: it marks the attribute as `FailedReachedCompliance` but the call
/// that drove it still returns `Ok`. Only the conditions below short-circuit
/// a whole operation.
#[derive(Debug, Clone, PartialEq, Eq)]
pub enum Error {
    /// Malformed endpoint, handshake or authentication failure at startup.
    FailedInitialization(String),
    /// The TCP layer refused the connection.
    FailedTcpBinding(String),
    /// Channel setup after the handshake failed.
    FailureToEstablishConnection(String),
    /// Command dispatch or stream read failure.
    FailureToRunCommand(String),
    /// An operation was attempted on a handler that was never connected.
    NotConnectedToHost,
    /// A prerequisite for assessment is missing on the host.
    FailedDryRunEvaluation(String),
    /// A worker channel receive failed during parallel assessment.
    FailedDryRunEvaluationParallel(String),
    /// Builder-time validation failure of a declared expected state.
    IncoherentExpectedState(String),
    /// An invariant of the engine itself was violated; signals a bug.
    InternalLogicError(String),
    /// Raw content could not be parsed as an expected-state document.
    FailureToParseContent(String),
    WrongInitialization(String),
    MissingInitialization(String),
    AnyOtherError(String),
}

} // verus!
