//! The error taxonomy, and what each backend status code means in it.
use vstd::prelude::*;

use crate::ffi::types::{
    hv_return_t, HV_BAD_ARGUMENT, HV_BUSY, HV_DENIED, HV_ERROR, HV_ILLEGAL_GUEST_STATE,
    HV_NO_DEVICE, HV_NO_RESOURCES, HV_SUCCESS, HV_UNSUPPORTED,
};

verus! {

/// Represent an error returned by the Hypervisor.
#[derive(Copy, Clone, Debug, PartialEq, Eq, Structural)]
pub enum HypervisorError {
    /// A generic error was returned by the Hypervisor.
    Error,
    /// The Hypervisor is busy.
    Busy,
    /// A bad argument was received.
    BadArgument,
    /// The guest is in an illegal state.
    IllegalGuestState,
    /// No resources availaible.
    NoResources,
    /// No device availaible.
    NoDevice,
    /// Access was denied.
    Denied,
    /// Operation unsupported.
    Unsupported,
    /// Invalid handle sent.
    InvalidHandle,
    /// The given allocation handle is still mapped.
    AllocationStillMapped,
    /// An unknown error was returned.
    Unknown(u32),
}

/// The error that a failing status code stands for.
///
/// Each of the eight codes the backend documents has a variant of its own; every other code is kept
/// verbatim in [`HypervisorError::Unknown`]. The two local kinds, `InvalidHandle` and
/// `AllocationStillMapped`, are never the image of a status code (see
/// [`law_local_errors_never_come_from_the_backend`]).
pub open spec fn error_of_status(value: hv_return_t) -> HypervisorError {
    if value == HV_ERROR {
        HypervisorError::Error
    } else if value == HV_BUSY {
        HypervisorError::Busy
    } else if value == HV_BAD_ARGUMENT {
        HypervisorError::BadArgument
    } else if value == HV_ILLEGAL_GUEST_STATE {
        HypervisorError::IllegalGuestState
    } else if value == HV_NO_RESOURCES {
        HypervisorError::NoResources
    } else if value == HV_NO_DEVICE {
        HypervisorError::NoDevice
    } else if value == HV_DENIED {
        HypervisorError::Denied
    } else if value == HV_UNSUPPORTED {
        HypervisorError::Unsupported
    } else {
        HypervisorError::Unknown(value)
    }
}

/// What a status code means for a call that returns nothing else.
pub open spec fn status_result(value: hv_return_t) -> Result<(), HypervisorError> {
    if value == HV_SUCCESS {
        Ok(())
    } else {
        Err(error_of_status(value))
    }
}

/// What a status code means for a call that also hands back `value`: the value on success,
/// the status' error otherwise.
pub open spec fn reply_result<T>(status: hv_return_t, value: T) -> Result<T, HypervisorError> {
    if status == HV_SUCCESS {
        Ok(value)
    } else {
        Err(error_of_status(status))
    }
}

impl HypervisorError {
    /// The error named by a failing status code.
    ///
    /// `HV_SUCCESS` names no error; callers test for it first, as [`convert_hv_return`] does.
    pub fn from(value: hv_return_t) -> (error: HypervisorError)
        requires
            value != HV_SUCCESS,
        ensures
            error == error_of_status(value),
    {
        match value {
            HV_ERROR => HypervisorError::Error,
            HV_BUSY => HypervisorError::Busy,
            HV_BAD_ARGUMENT => HypervisorError::BadArgument,
            HV_ILLEGAL_GUEST_STATE => HypervisorError::IllegalGuestState,
            HV_NO_RESOURCES => HypervisorError::NoResources,
            HV_NO_DEVICE => HypervisorError::NoDevice,
            HV_DENIED => HypervisorError::Denied,
            HV_UNSUPPORTED => HypervisorError::Unsupported,
            _ => HypervisorError::Unknown(value),
        }
    }
}

/// Util used to convert a hv_return_t into a Result
pub fn convert_hv_return(value: hv_return_t) -> (result: Result<(), HypervisorError>)
    ensures
        result == status_result(value),
{
    if value == HV_SUCCESS {
        Ok(())
    } else {
        Err(HypervisorError::from(value))
    }
}

/// Pair a status code with the value the backend handed back alongside it.
pub fn convert_hv_reply<T>(status: hv_return_t, value: T) -> (result: Result<T, HypervisorError>)
    ensures
        result == reply_result(status, value),
{
    match convert_hv_return(status) {
        Ok(()) => Ok(value),
        Err(error) => Err(error),
    }
}

/// A status code never turns into one of the two errors that this layer detects by itself.
pub proof fn law_local_errors_never_come_from_the_backend(value: hv_return_t)
    ensures
        error_of_status(value) != HypervisorError::InvalidHandle,
        error_of_status(value) != HypervisorError::AllocationStillMapped,
{
}

/// Distinct status codes name distinct errors: no code is lost on the way.
pub proof fn law_status_codes_are_kept_apart(a: hv_return_t, b: hv_return_t)
    requires
        error_of_status(a) == error_of_status(b),
    ensures
        a == b,
{
}

} // verus!
