//! The real-time-side scheduling capability: submitting one unit of work to
//! the host.

use crate::status::HostStatus;
use crate::transfer::Plain;
use vstd::prelude::*;

verus! {

/// Errors of [`Schedule::schedule_work`]. Every variant hands the
/// untransmitted payload back to the caller, which stays solely responsible
/// for it: a failed transfer never leaks or consumes the value.
#[derive(PartialEq, Eq, Clone, Copy, Debug)]
pub enum ScheduleError<T> {
    /// Unknown or general host failure.
    Unknown(T),
    /// The host queue is saturated: a backpressure signal.
    NoSpace(T),
    /// The host never supplied the submit callback. Detected without
    /// attempting any call; only a non-conformant host causes it.
    NoCallback(T),
}

impl<T> ScheduleError<T> {
    /// The payload handed back with this error.
    pub open spec fn payload(self) -> T {
        match self {
            ScheduleError::Unknown(worker_data) => worker_data,
            ScheduleError::NoSpace(worker_data) => worker_data,
            ScheduleError::NoCallback(worker_data) => worker_data,
        }
    }

    /// The one-line description of each failure.
    pub open spec fn message_spec(self) -> Seq<char> {
        match self {
            ScheduleError::Unknown(_) => "unknown error"@,
            ScheduleError::NoSpace(_) => "not enough space"@,
            ScheduleError::NoCallback(_) => "no callback"@,
        }
    }

    /// Describe the failure in one line.
    pub fn message(&self) -> (text: &'static str)
        ensures
            text@ == self.message_spec(),
    {
        match self {
            ScheduleError::Unknown(_) => "unknown error",
            ScheduleError::NoSpace(_) => "not enough space",
            ScheduleError::NoCallback(_) => "no callback",
        }
    }
}

/// The host capability that carries one encoded work request out of the
/// real-time thread. The host-binding layer implements it over the raw
/// submit callback; test harnesses implement it over a recording mock.
pub trait WorkSink {
    /// Hand one encoded request to the host. Returns the host's raw status
    /// code, whose meaning [`HostStatus::from_code`] reads; on any code but
    /// success the request is considered untransmitted.
    fn submit(&mut self, view: &[u8]) -> u32;
}

/// What scheduling comes to once the host has answered a submitted request:
/// success consumes the payload, and every failure returns it to the caller
/// under the matching error.
pub open spec fn schedule_outcome<T>(status: HostStatus, worker_data: T) -> Result<
    (),
    ScheduleError<T>,
> {
    match status {
        HostStatus::Success => Ok(()),
        HostStatus::ErrorUnknown => Err(ScheduleError::Unknown(worker_data)),
        HostStatus::ErrorNoSpace => Err(ScheduleError::NoSpace(worker_data)),
    }
}

/// Map the host's answer to one submitted request onto the scheduling
/// result, reuniting the payload with the error on failure.
pub fn classify_submit_status<T>(status: HostStatus, worker_data: T) -> (result: Result<
    (),
    ScheduleError<T>,
>)
    ensures
        result == schedule_outcome(status, worker_data),
{
    match status {
        HostStatus::Success => Ok(()),
        HostStatus::ErrorUnknown => Err(ScheduleError::Unknown(worker_data)),
        HostStatus::ErrorNoSpace => Err(ScheduleError::NoSpace(worker_data)),
    }
}

/// Host feature for requesting non-real-time work: the scheduler capability.
/// Stateless on this side beyond forwarding; the sink is absent exactly when
/// the host never supplied the submit callback.
pub struct Schedule<S> {
    sink: Option<S>,
}

impl<S: WorkSink> Schedule<S> {
    /// Whether the host supplied the submit capability.
    pub closed spec fn has_callback(self) -> bool {
        self.sink is Some
    }

    /// Bundle the host-issued submit capability; `None` stands for a host
    /// that never supplied one.
    pub fn new(sink: Option<S>) -> (schedule: Schedule<S>)
        ensures
            schedule.has_callback() <==> sink is Some,
    {
        Schedule { sink }
    }

    /// Request that the host call the worker with the given payload.
    ///
    /// The payload is moved into a byte view and submitted through the host
    /// capability. On success, ownership has passed to the host and the
    /// caller holds nothing to release. On any failure the payload is
    /// reconstructed from the unconsumed view and returned inside the error,
    /// so it is neither leaked nor consumed twice; without a submit callback
    /// the request fails as `NoCallback` before anything is encoded or
    /// called.
    pub fn schedule_work<T: Plain>(&mut self, worker_data: T) -> (result: Result<
        (),
        ScheduleError<T>,
    >)
        ensures
            final(self).has_callback() == old(self).has_callback(),
            match result {
                Ok(()) => old(self).has_callback(),
                Err(ScheduleError::NoCallback(returned)) => returned == worker_data && !old(
                    self,
                ).has_callback(),
                Err(ScheduleError::Unknown(returned)) => returned == worker_data && old(
                    self,
                ).has_callback(),
                Err(ScheduleError::NoSpace(returned)) => returned == worker_data && old(
                    self,
                ).has_callback(),
            },
    {
        match &mut self.sink {
            None => Err(ScheduleError::NoCallback(worker_data)),
            Some(sink) => {
                let view = worker_data.into_view();
                let code = sink.submit(view.as_slice());
                let status = HostStatus::from_code(code);
                match status {
                    HostStatus::Success => Ok(()),
                    _ => {
                        let returned = T::from_view(view.as_slice());
                        classify_submit_status(status, returned)
                    },
                }
            },
        }
    }
}

} // verus!
