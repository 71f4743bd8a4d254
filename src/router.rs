use vstd::prelude::*;
use crate::actor::DispatchError;
use crate::device::DeviceError;
use crate::operation::{Operation, Outcome, ValidationError};

verus! {

/// The protocol's standard exception responses that a call may end in.
#[derive(Clone, Copy, Debug, PartialEq, Eq, Structural)]
pub enum ExceptionCode {
    IllegalDataAddress,
    IllegalDataValue,
    ServerDeviceFailure,
    ServerDeviceBusy,
}

/// Why a routed call produced no outcome.
#[derive(Clone, Debug, PartialEq, Eq)]
pub enum RouteError {
    /// Refused before submission.
    Validation(ValidationError),
    /// The device actor no longer accepts calls.
    Dispatch(DispatchError),
    /// The device answered with a fault.
    Device(DeviceError),
}

/// The exception a route error is reported as on the wire.
pub open spec fn exception_of(e: RouteError) -> ExceptionCode {
    match e {
        RouteError::Validation(ValidationError::AddressOutOfRange) => ExceptionCode::IllegalDataAddress,
        RouteError::Validation(ValidationError::QuantityOutOfRange) => ExceptionCode::IllegalDataValue,
        RouteError::Dispatch(_) => ExceptionCode::ServerDeviceBusy,
        RouteError::Device(_) => ExceptionCode::ServerDeviceFailure,
    }
}

impl RouteError {
    /// The exception this error is reported as; engine diagnostics never
    /// reach the wire.
    pub fn exception_code(&self) -> (r: ExceptionCode)
        ensures
            r == exception_of(*self),
    {
        match self {
            RouteError::Validation(ValidationError::AddressOutOfRange) => ExceptionCode::IllegalDataAddress,
            RouteError::Validation(ValidationError::QuantityOutOfRange) => ExceptionCode::IllegalDataValue,
            RouteError::Dispatch(_) => ExceptionCode::ServerDeviceBusy,
            RouteError::Device(_) => ExceptionCode::ServerDeviceFailure,
        }
    }
}

/// First step of routing a call: a malformed operation is refused here and
/// never submitted.
pub fn screen(op: &Operation) -> (r: Result<(), RouteError>)
    ensures
        match op.validate_spec() {
            Ok(()) => r == Ok::<(), RouteError>(()),
            Err(v) => r == Err::<(), RouteError>(RouteError::Validation(v)),
        },
{
    match op.validate() {
        Ok(()) => Ok(()),
        Err(v) => Err(RouteError::Validation(v)),
    }
}

/// Last step of routing a call: the reply from the device becomes the
/// protocol answer, an outcome as it is or the exception for a fault.
pub fn finish(reply: Result<Outcome, DeviceError>) -> (r: Result<Outcome, ExceptionCode>)
    ensures
        match reply {
            Ok(o) => r == Ok::<Outcome, ExceptionCode>(o),
            Err(_) => r == Err::<Outcome, ExceptionCode>(ExceptionCode::ServerDeviceFailure),
        },
{
    match reply {
        Ok(o) => Ok(o),
        Err(e) => Err(RouteError::Device(e).exception_code()),
    }
}

} // verus!
