//! The closed set of error kinds that reaches the wire, and the rule that
//! sorts every daemon failure into it.

use crate::daemon::DaemonFault;
use vstd::prelude::*;
use vstd::std_specs::convert::FromSpecImpl;

verus! {

/// The error kinds of the wire contract.
#[derive(Clone, Copy, Debug, PartialEq, Eq, Structural)]
pub enum MpdError {
    /// Used on the client to represent the API not responding correctly.
    /// The service never produces it.
    MpdErrorApi,
    /// The daemon could not be reached, or the session with it broke.
    MpdErrorConnection,
    /// The daemon was reached, but what it returned could not be turned
    /// into the expected shape; a missing object counts.
    MpdErrorCommunication,
}

/// What handlers and shapers return before the envelope is put around it.
pub type MpdResult<T> = Result<T, MpdError>;

/// The error kind of a daemon failure: a transport failure is a connection
/// error, every other failure a communication error.
pub open spec fn classify(fault: DaemonFault) -> MpdError {
    if fault is Io {
        MpdError::MpdErrorConnection
    } else {
        MpdError::MpdErrorCommunication
    }
}

impl FromSpecImpl<DaemonFault> for MpdError {
    open spec fn obeys_from_spec() -> bool {
        true
    }

    open spec fn from_spec(value: DaemonFault) -> MpdError {
        classify(value)
    }
}

impl From<DaemonFault> for MpdError {
    fn from(value: DaemonFault) -> (kind: MpdError) {
        match value {
            DaemonFault::Io => MpdError::MpdErrorConnection,
            _ => MpdError::MpdErrorCommunication,
        }
    }
}

/// An outcome with the payload taken by its view.
pub open spec fn outcome_view<T: DeepView>(outcome: MpdResult<T>) -> Result<T::V, MpdError> {
    match outcome {
        Ok(payload) => Ok(payload.deep_view()),
        Err(kind) => Err(kind),
    }
}

/// Every daemon failure is classified as exactly one of the two kinds that
/// the service emits, and as a connection error for a transport failure only.
pub proof fn lemma_classification_total(fault: DaemonFault)
    ensures
        classify(fault) != MpdError::MpdErrorApi,
        classify(fault) == MpdError::MpdErrorConnection <==> fault == DaemonFault::Io,
        classify(fault) == MpdError::MpdErrorCommunication <==> fault != DaemonFault::Io,
{
}

} // verus!
