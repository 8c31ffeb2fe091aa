//! The worker-side response channel: sending result payloads back to the
//! real-time thread.

use crate::status::HostStatus;
use crate::transfer::Plain;
use vstd::prelude::*;

verus! {

/// Errors of [`ResponseHandler::respond`]. Every variant hands the
/// untransmitted payload back to the worker, which stays solely responsible
/// for it: a failed transfer never leaks or consumes the value.
#[derive(PartialEq, Eq, Clone, Copy, Debug)]
pub enum RespondError<T> {
    /// Unknown or general host failure.
    Unknown(T),
    /// The host delivery queue is saturated: a backpressure signal.
    NoSpace(T),
    /// The host never supplied the response callback. Detected without
    /// attempting any call; only a non-conformant host causes it.
    NoCallback(T),
}

impl<T> RespondError<T> {
    /// The payload handed back with this error.
    pub open spec fn payload(self) -> T {
        match self {
            RespondError::Unknown(response_data) => response_data,
            RespondError::NoSpace(response_data) => response_data,
            RespondError::NoCallback(response_data) => response_data,
        }
    }

    /// The one-line description of each failure.
    pub open spec fn message_spec(self) -> Seq<char> {
        match self {
            RespondError::Unknown(_) => "unknown error"@,
            RespondError::NoSpace(_) => "not enough space"@,
            RespondError::NoCallback(_) => "no callback"@,
        }
    }

    /// Describe the failure in one line.
    pub fn message(&self) -> (text: &'static str)
        ensures
            text@ == self.message_spec(),
    {
        match self {
            RespondError::Unknown(_) => "unknown error",
            RespondError::NoSpace(_) => "not enough space",
            RespondError::NoCallback(_) => "no callback",
        }
    }
}

/// The host capability that carries one encoded response out of a worker
/// invocation, toward the real-time consumer. The host-binding layer
/// implements it over the raw respond callback; test harnesses implement it
/// over a recording mock.
pub trait ResponseSink {
    /// Hand one encoded response to the host's delivery path. Returns the
    /// host's raw status code, whose meaning [`HostStatus::from_code`]
    /// reads; on any code but success the response is considered
    /// untransmitted.
    fn respond_bytes(&mut self, view: &[u8]) -> u32;
}

/// What responding comes to once the host has answered a forwarded response:
/// success consumes the payload, and every failure returns it to the caller
/// under the matching error.
pub open spec fn respond_outcome<T>(status: HostStatus, response_data: T) -> Result<
    (),
    RespondError<T>,
> {
    match status {
        HostStatus::Success => Ok(()),
        HostStatus::ErrorUnknown => Err(RespondError::Unknown(response_data)),
        HostStatus::ErrorNoSpace => Err(RespondError::NoSpace(response_data)),
    }
}

/// Map the host's answer to one forwarded response onto the responding
/// result, reuniting the payload with the error on failure.
pub fn classify_respond_status<T>(status: HostStatus, response_data: T) -> (result: Result<
    (),
    RespondError<T>,
>)
    ensures
        result == respond_outcome(status, response_data),
{
    match status {
        HostStatus::Success => Ok(()),
        HostStatus::ErrorUnknown => Err(RespondError::Unknown(response_data)),
        HostStatus::ErrorNoSpace => Err(RespondError::NoSpace(response_data)),
    }
}

/// The one-shot channel bound to a single executor invocation, through which
/// the worker sends responses to the run context. Symmetric to
/// [`crate::schedule::Schedule`], but for response payloads; the sink is
/// absent exactly when the host never supplied the response callback.
pub struct ResponseHandler<S> {
    sink: Option<S>,
}

impl<S: ResponseSink> ResponseHandler<S> {
    /// Whether the host supplied the response capability.
    pub closed spec fn has_callback(self) -> bool {
        self.sink is Some
    }

    /// Bundle the host-issued response capability; `None` stands for a host
    /// that never supplied one.
    pub fn new(sink: Option<S>) -> (handler: ResponseHandler<S>)
        ensures
            handler.has_callback() <==> sink is Some,
    {
        ResponseHandler { sink }
    }

    /// Send a response to the run context.
    ///
    /// The payload is moved into a byte view and forwarded through the host
    /// capability. On success, ownership has passed to the host's delivery
    /// path. On any failure the payload is reconstructed from the unconsumed
    /// view and returned inside the error, so it is neither leaked nor
    /// consumed twice; without a response callback the call fails as
    /// `NoCallback` before anything is encoded or called.
    pub fn respond<T: Plain>(&mut self, response_data: T) -> (result: Result<(), RespondError<T>>)
        ensures
            final(self).has_callback() == old(self).has_callback(),
            match result {
                Ok(()) => old(self).has_callback(),
                Err(RespondError::NoCallback(returned)) => returned == response_data && !old(
                    self,
                ).has_callback(),
                Err(RespondError::Unknown(returned)) => returned == response_data && old(
                    self,
                ).has_callback(),
                Err(RespondError::NoSpace(returned)) => returned == response_data && old(
                    self,
                ).has_callback(),
            },
    {
        match &mut self.sink {
            None => Err(RespondError::NoCallback(response_data)),
            Some(sink) => {
                let view = response_data.into_view();
                let code = sink.respond_bytes(view.as_slice());
                let status = HostStatus::from_code(code);
                match status {
                    HostStatus::Success => Ok(()),
                    _ => {
                        let returned = T::from_view(view.as_slice());
                        classify_respond_status(status, returned)
                    },
                }
            },
        }
    }
}

} // verus!
