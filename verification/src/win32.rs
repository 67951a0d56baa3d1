//! Numbers of the Windows API, as `windows_sys` gives them.

use vstd::prelude::*;

verus! {

/// Trusted: the constant `SERVICE_STOPPED` of `windows_sys`.
#[verifier::external_body]
pub(crate) fn service_stopped() -> (r: u32)
    ensures
        r == 1,
{
    windows_sys::Win32::System::Services::SERVICE_STOPPED
}

/// Trusted: the constant `ERROR_SERVICE_DOES_NOT_EXIST` of `windows_sys`.
#[verifier::external_body]
pub(crate) fn error_service_does_not_exist() -> (r: u32)
    ensures
        r == 1060,
{
    windows_sys::Win32::Foundation::ERROR_SERVICE_DOES_NOT_EXIST
}

/// Trusted: the constant `ERROR_INVALID_PARAMETER` of `windows_sys`.
#[verifier::external_body]
pub(crate) fn error_invalid_parameter() -> (r: u32)
    ensures
        r == 87,
{
    windows_sys::Win32::Foundation::ERROR_INVALID_PARAMETER
}

/// Trusted: the constant `STILL_ACTIVE` of `windows_sys`, as the exit code it
/// is compared with.
#[verifier::external_body]
pub(crate) fn still_active() -> (r: u32)
    ensures
        r == 259,
{
    windows_sys::Win32::Foundation::STILL_ACTIVE as u32
}

/// Trusted: the constant `WAIT_OBJECT_0` of `windows_sys`.
#[verifier::external_body]
pub(crate) fn wait_object_0() -> (r: u32)
    ensures
        r == 0,
{
    windows_sys::Win32::Foundation::WAIT_OBJECT_0
}

/// Trusted: the constant `WAIT_FAILED` of `windows_sys`.
#[verifier::external_body]
pub(crate) fn wait_failed() -> (r: u32)
    ensures
        r == 0xffff_ffff,
{
    windows_sys::Win32::Foundation::WAIT_FAILED
}

/// Trusted: the constant `WAIT_TIMEOUT` of `windows_sys`.
#[verifier::external_body]
pub(crate) fn wait_timeout() -> (r: u32)
    ensures
        r == 258,
{
    windows_sys::Win32::Foundation::WAIT_TIMEOUT
}

} // verus!
