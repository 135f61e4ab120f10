//! The envelope around every response.
//!
//! A response is exactly one of two things: an error kind, or the payload
//! of the request. Every handler outcome passes through [`result`] or
//! [`ConnectionResultWrapper::from_outcome`], so the shape is the same for
//! every payload type.

use crate::error::{MpdError, MpdResult};
use vstd::prelude::*;

verus! {

/// A response: an error kind or a payload.
#[derive(Clone, Debug, PartialEq)]
pub enum ConnectionResultWrapper<T> {
    MpdError(MpdError),
    MpdOk(T),
}

/// The response to a request whose payload is a `T`.
pub type MpdApi<T> = ConnectionResultWrapper<T>;

impl<T: DeepView> DeepView for ConnectionResultWrapper<T> {
    type V = ConnectionResultWrapper<T::V>;

    open spec fn deep_view(&self) -> ConnectionResultWrapper<T::V> {
        match self {
            ConnectionResultWrapper::MpdError(kind) => ConnectionResultWrapper::MpdError(*kind),
            ConnectionResultWrapper::MpdOk(payload) => ConnectionResultWrapper::MpdOk(
                payload.deep_view(),
            ),
        }
    }
}

/// The envelope around an outcome.
pub open spec fn wrap<T>(outcome: Result<T, MpdError>) -> ConnectionResultWrapper<T> {
    match outcome {
        Ok(payload) => ConnectionResultWrapper::MpdOk(payload),
        Err(kind) => ConnectionResultWrapper::MpdError(kind),
    }
}

impl<T> ConnectionResultWrapper<T> {
    /// The outcome that the envelope holds.
    pub open spec fn outcome(self) -> Result<T, MpdError> {
        match self {
            ConnectionResultWrapper::MpdOk(payload) => Ok(payload),
            ConnectionResultWrapper::MpdError(kind) => Err(kind),
        }
    }

    /// Puts the envelope around an outcome: the payload of a success, the
    /// error kind of a failure.
    pub fn from_outcome(outcome: MpdResult<T>) -> (envelope: Self)
        ensures
            envelope == wrap(outcome),
    {
        match outcome {
            Ok(payload) => ConnectionResultWrapper::MpdOk(payload),
            Err(kind) => ConnectionResultWrapper::MpdError(kind),
        }
    }
}

/// Runs an operation and puts the envelope around what it returns.
pub fn result<T, F>(generator: F) -> (envelope: MpdApi<T>) where F: Fn() -> MpdResult<T>
    requires
        generator.requires(()),
    ensures
        generator.ensures((), envelope.outcome()),
{
    ConnectionResultWrapper::from_outcome(generator())
}

/// An envelope holds exactly one of the two: wrapping an outcome and taking
/// it out again gives the outcome back, and every envelope is the wrapping
/// of the outcome it holds.
pub proof fn lemma_envelope_exact<T>(outcome: Result<T, MpdError>, envelope: ConnectionResultWrapper<T>)
    ensures
        wrap(outcome).outcome() == outcome,
        wrap(envelope.outcome()) == envelope,
        wrap(outcome) is MpdOk <==> outcome is Ok,
        wrap(outcome) is MpdError <==> outcome is Err,
        envelope is MpdOk <==> !(envelope is MpdError),
{
}

} // verus!
