//! The closed, three-valued status code domain used at every host boundary
//! crossing.

use vstd::prelude::*;

verus! {

/// Status reported by the host, or to the host, at each boundary crossing:
/// scheduling a request, sending a response, and finishing an executor
/// invocation. The domain is closed: a raw code outside it is read as
/// [`HostStatus::ErrorUnknown`].
#[derive(Clone, Copy, PartialEq, Eq, Structural, Debug)]
pub enum HostStatus {
    /// The operation completed.
    Success,
    /// A generic failure without further diagnosis.
    ErrorUnknown,
    /// The host queue is saturated: a backpressure signal.
    ErrorNoSpace,
}

/// Relies on `lv2_sys::LV2_Worker_Status_LV2_WORKER_SUCCESS`: the raw code
/// for a successful worker operation is 0.
#[verifier::external_body]
fn raw_success_code() -> (code: u32)
    ensures
        code == 0u32,
{
    lv2_sys::LV2_Worker_Status_LV2_WORKER_SUCCESS
}

/// Relies on `lv2_sys::LV2_Worker_Status_LV2_WORKER_ERR_UNKNOWN`: the raw
/// code for a generic worker failure is 1.
#[verifier::external_body]
fn raw_unknown_code() -> (code: u32)
    ensures
        code == 1u32,
{
    lv2_sys::LV2_Worker_Status_LV2_WORKER_ERR_UNKNOWN
}

/// Relies on `lv2_sys::LV2_Worker_Status_LV2_WORKER_ERR_NO_SPACE`: the raw
/// code for a saturated host queue is 2.
#[verifier::external_body]
fn raw_no_space_code() -> (code: u32)
    ensures
        code == 2u32,
{
    lv2_sys::LV2_Worker_Status_LV2_WORKER_ERR_NO_SPACE
}

impl HostStatus {
    /// The raw code that stands for this status on the host boundary.
    pub open spec fn code_spec(self) -> u32 {
        match self {
            HostStatus::Success => 0u32,
            HostStatus::ErrorUnknown => 1u32,
            HostStatus::ErrorNoSpace => 2u32,
        }
    }

    /// The status that a raw host code means. Every code outside the closed
    /// domain is a generic failure.
    pub open spec fn from_code_spec(code: u32) -> HostStatus {
        if code == 0u32 {
            HostStatus::Success
        } else if code == 2u32 {
            HostStatus::ErrorNoSpace
        } else {
            HostStatus::ErrorUnknown
        }
    }

    /// Turn this status into the raw code that crosses the host boundary.
    pub fn to_code(self) -> (code: u32)
        ensures
            code == self.code_spec(),
    {
        match self {
            HostStatus::Success => raw_success_code(),
            HostStatus::ErrorUnknown => raw_unknown_code(),
            HostStatus::ErrorNoSpace => raw_no_space_code(),
        }
    }

    /// Read a raw code from the host boundary as a status.
    pub fn from_code(code: u32) -> (status: HostStatus)
        ensures
            status == HostStatus::from_code_spec(code),
    {
        let success = raw_success_code();
        let no_space = raw_no_space_code();
        if code == success {
            HostStatus::Success
        } else if code == no_space {
            HostStatus::ErrorNoSpace
        } else {
            HostStatus::ErrorUnknown
        }
    }
}

} // verus!
