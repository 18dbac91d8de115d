use vstd::prelude::*;

verus! {

/// The operation completed.
pub const ERROR_SUCCESS: u32 = 0;

/// Access denied: the caller lacks administrative privilege.
pub const ERROR_ACCESS_DENIED: u32 = 5;

/// A handle is not valid.
pub const ERROR_INVALID_HANDLE: u32 = 6;

/// A buffer or a count has a wrong length.
pub const ERROR_BAD_LENGTH: u32 = 24;

/// A parameter, or a combination of them, is not valid.
pub const ERROR_INVALID_PARAMETER: u32 = 87;

/// The buffer handed in is too small; the required size was reported.
pub const ERROR_INSUFFICIENT_BUFFER: u32 = 122;

/// A path name is not valid.
pub const ERROR_BAD_PATHNAME: u32 = 161;

/// An object of that name already exists.
pub const ERROR_ALREADY_EXISTS: u32 = 183;

/// An invalid memory access happened.
pub const ERROR_NOACCESS: u32 = 998;

/// The operation was cancelled.
pub const ERROR_CANCELLED: u32 = 1223;

/// Not enough system resources.
pub const ERROR_NO_SYSTEM_RESOURCES: u32 = 1450;

/// A time value is not valid.
pub const ERROR_INVALID_TIME: u32 = 1901;

/// The named instance (here: a real-time session) was not found.
pub const ERROR_WMI_INSTANCE_NOT_FOUND: u32 = 4201;

/// Why starting a trace session failed.
#[derive(Debug, Clone, Copy, PartialEq, Eq, Structural)]
pub enum StartError {
    /// The properties buffer size is wrong or the buffer is too small.
    BadLength,
    /// The handle, the offsets, the log mode or the name do not fit together.
    InvalidParameter,
    /// A session with the same name or identity is already running.
    AlreadyExists,
    /// A log file path was given where a real-time session was asked for.
    NotRealTime,
    /// The system has not enough resources for another session.
    NoSystemResources,
    /// Only an administrator may start the session.
    AccessDenied,
    /// Any other status, kept as it came.
    Unspecified(u32),
}

/// The error that a start status stands for; `None` for success.
pub open spec fn start_error_of(status: u32) -> Option<StartError> {
    if status == ERROR_SUCCESS {
        None
    } else if status == ERROR_BAD_LENGTH {
        Some(StartError::BadLength)
    } else if status == ERROR_INVALID_PARAMETER {
        Some(StartError::InvalidParameter)
    } else if status == ERROR_ALREADY_EXISTS {
        Some(StartError::AlreadyExists)
    } else if status == ERROR_BAD_PATHNAME {
        Some(StartError::NotRealTime)
    } else if status == ERROR_NO_SYSTEM_RESOURCES {
        Some(StartError::NoSystemResources)
    } else if status == ERROR_ACCESS_DENIED {
        Some(StartError::AccessDenied)
    } else {
        Some(StartError::Unspecified(status))
    }
}

/// Maps the status returned when a session is started.
pub fn start_outcome(status: u32) -> (r: Result<(), StartError>)
    ensures
        r is Ok <==> status == ERROR_SUCCESS,
        r is Err ==> Some(r->Err_0) == start_error_of(status),
{
    if status == ERROR_SUCCESS {
        Ok(())
    } else if status == ERROR_BAD_LENGTH {
        Err(StartError::BadLength)
    } else if status == ERROR_INVALID_PARAMETER {
        Err(StartError::InvalidParameter)
    } else if status == ERROR_ALREADY_EXISTS {
        Err(StartError::AlreadyExists)
    } else if status == ERROR_BAD_PATHNAME {
        Err(StartError::NotRealTime)
    } else if status == ERROR_NO_SYSTEM_RESOURCES {
        Err(StartError::NoSystemResources)
    } else if status == ERROR_ACCESS_DENIED {
        Err(StartError::AccessDenied)
    } else {
        Err(StartError::Unspecified(status))
    }
}

/// Why pumping events from a consumption handle failed.
#[derive(Debug, Clone, Copy, PartialEq, Eq, Structural)]
pub enum PumpError {
    /// The handle count is not valid or exceeds the limit.
    BadHandleCount,
    /// A handle in the array is not a valid consumption handle.
    InvalidHandle,
    /// The end time precedes the start time.
    EndBeforeStart,
    /// The handle array is empty or mixes kinds of sessions.
    InvalidParameter,
    /// A callback that receives events raised an exception.
    CallbackException,
    /// The session is not running or not in real-time mode.
    NotRealTime,
    /// Any other status, kept as it came.
    Unspecified(u32),
}

/// The error that a pump status stands for, given whether cancellation was
/// requested; `None` where the pump ended normally.
pub open spec fn pump_error_of(status: u32, cancel_requested: bool) -> Option<PumpError> {
    if status == ERROR_SUCCESS || (status == ERROR_CANCELLED && cancel_requested) {
        None
    } else if status == ERROR_BAD_LENGTH {
        Some(PumpError::BadHandleCount)
    } else if status == ERROR_INVALID_HANDLE {
        Some(PumpError::InvalidHandle)
    } else if status == ERROR_INVALID_TIME {
        Some(PumpError::EndBeforeStart)
    } else if status == ERROR_INVALID_PARAMETER {
        Some(PumpError::InvalidParameter)
    } else if status == ERROR_NOACCESS || status == ERROR_CANCELLED {
        Some(PumpError::CallbackException)
    } else if status == ERROR_WMI_INSTANCE_NOT_FOUND {
        Some(PumpError::NotRealTime)
    } else {
        Some(PumpError::Unspecified(status))
    }
}

/// Maps the status returned when the event pump ends. A cancelled pump ends
/// normally when the cancellation was ours; otherwise a cancellation means a
/// callback failed.
pub fn pump_outcome(status: u32, cancel_requested: bool) -> (r: Result<(), PumpError>)
    ensures
        r is Ok <==> pump_error_of(status, cancel_requested) is None,
        r is Err ==> Some(r->Err_0) == pump_error_of(status, cancel_requested),
{
    if status == ERROR_SUCCESS || (status == ERROR_CANCELLED && cancel_requested) {
        Ok(())
    } else if status == ERROR_BAD_LENGTH {
        Err(PumpError::BadHandleCount)
    } else if status == ERROR_INVALID_HANDLE {
        Err(PumpError::InvalidHandle)
    } else if status == ERROR_INVALID_TIME {
        Err(PumpError::EndBeforeStart)
    } else if status == ERROR_INVALID_PARAMETER {
        Err(PumpError::InvalidParameter)
    } else if status == ERROR_NOACCESS || status == ERROR_CANCELLED {
        Err(PumpError::CallbackException)
    } else if status == ERROR_WMI_INSTANCE_NOT_FOUND {
        Err(PumpError::NotRealTime)
    } else {
        Err(PumpError::Unspecified(status))
    }
}

} // verus!
