use vstd::prelude::*;
use crate::results::{GenericResult, OpenQueueResult};

verus! {

#[verifier::external_type_specification]
#[verifier::external_body]
pub struct ExException(cxx::Exception);

/// Relies on cxx::Exception::what: the message that the native side raised.
#[verifier::external_body]
fn exception_message(e: &cxx::Exception) -> String {
    e.what().to_string()
}

/// Every failure that an operation of this library reports.
#[derive(Debug, Clone, PartialEq, Eq)]
pub enum BlazingMqError {
    /// The native session could not be created or started.
    SessionCreate,
    /// The boundary layer itself faulted, with the message it gave.
    BoundaryFault(String),
    /// A generic session operation did not succeed.
    GenericSessionError(GenericResult),
    /// Opening a queue did not succeed.
    OpenQueueError(OpenQueueResult),
}

impl BlazingMqError {
    /// Wraps a fault of the boundary layer, keeping its message.
    pub fn from_exception(e: &cxx::Exception) -> (r: BlazingMqError)
        ensures
            r is BoundaryFault,
    {
        BlazingMqError::BoundaryFault(exception_message(e))
    }

    /// The error for a non-successful generic outcome given by its ordinal.
    pub fn from_generic_ordinal(n: i32) -> (r: BlazingMqError)
        ensures
            r == BlazingMqError::GenericSessionError(crate::results::generic_of_ordinal(n as int)),
    {
        BlazingMqError::GenericSessionError(GenericResult::from_ordinal(n))
    }

    /// The error for a non-successful open-queue outcome given by its ordinal.
    pub fn from_open_queue_ordinal(n: i32) -> (r: BlazingMqError)
        ensures
            r == BlazingMqError::OpenQueueError(crate::results::open_queue_of_ordinal(n as int)),
    {
        BlazingMqError::OpenQueueError(OpenQueueResult::from_ordinal(n))
    }
}

} // verus!
