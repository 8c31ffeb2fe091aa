//! The worker extension: the application-side contract and the dispatch
//! functions the host-binding layer drives.

use crate::cycle::{counted_one_more, CycleTracker};
use crate::respond::{ResponseHandler, ResponseSink};
use crate::status::HostStatus;
use crate::transfer::{decode_view, Plain};
use core::marker::PhantomData;
use vstd::prelude::*;

verus! {

/// Errors a [`Worker`] method may report. The executor maps them one for one
/// onto the host status codes; no payload travels with them.
#[derive(PartialEq, Eq, Clone, Copy, Structural, Debug)]
pub enum WorkerError {
    /// Unknown or general error.
    Unknown,
    /// Failure due to a lack of space.
    NoSpace,
}

/// The status reported to the host for a worker method's result.
pub open spec fn worker_result_status(result: Result<(), WorkerError>) -> HostStatus {
    match result {
        Ok(()) => HostStatus::Success,
        Err(WorkerError::Unknown) => HostStatus::ErrorUnknown,
        Err(WorkerError::NoSpace) => HostStatus::ErrorNoSpace,
    }
}

/// Report a worker method's result to the host as a status.
pub fn status_of_worker_result(result: Result<(), WorkerError>) -> (status: HostStatus)
    ensures
        status == worker_result_status(result),
{
    match result {
        Ok(()) => HostStatus::Success,
        Err(WorkerError::Unknown) => HostStatus::ErrorUnknown,
        Err(WorkerError::NoSpace) => HostStatus::ErrorNoSpace,
    }
}

/// The non-real-time working extension, implemented by the application.
///
/// `work` runs on a host-chosen non-real-time thread; the host guarantees
/// that no two invocations for one instance overlap, but nothing more about
/// which thread runs it or when. `work_response` and `end_run` run in the
/// same serialization domain as the real-time processing itself.
pub trait Worker {
    /// Payload type scheduled from the real-time thread and received by
    /// `work`.
    type WorkData: Plain;

    /// Payload type sent through the response channel and received by
    /// `work_response`.
    type ResponseData: Plain;

    /// The work to do in a non-real-time context. The payload arrives by
    /// move; zero or more responses may be sent through the handler, each
    /// bound to this one invocation.
    fn work<S: ResponseSink>(
        response_handler: &mut ResponseHandler<S>,
        data: Self::WorkData,
    ) -> Result<(), WorkerError>;

    /// Consume one delivered response in the run context. The default does
    /// nothing, for work-only usages that ignore results.
    fn work_response(&mut self, data: Self::ResponseData) -> Result<(), WorkerError> {
        Ok(())
    }

    /// Observe the end-of-cycle barrier, fired once all responses for the
    /// cycle have been delivered. The default does nothing.
    fn end_run(&mut self) -> Result<(), WorkerError> {
        Ok(())
    }
}

/// The dispatch side of the [`Worker`] extension: the three entry points the
/// host drives, over plain byte views and statuses. The host-binding layer
/// wraps them one for one behind the raw interface it hands to the host.
pub struct WorkerDescriptor<W> {
    plugin: PhantomData<W>,
}

impl<W: Worker> WorkerDescriptor<W> {
    /// One executor invocation, driven by the host with a byte view and a
    /// fresh response channel.
    ///
    /// The view's declared length is validated against the work payload's
    /// representation size before anything else: on a mismatch the
    /// invocation is rejected as `ErrorUnknown` with no value constructed
    /// and the channel untouched. Otherwise the one payload the view stands
    /// for is reconstructed and handed to [`Worker::work`] by move, and the
    /// work's own result is reported to the host.
    pub fn work<S: ResponseSink>(
        response_handler: &mut ResponseHandler<S>,
        view: &[u8],
    ) -> (status: HostStatus)
        ensures
            view@.len() != <W::WorkData as Plain>::repr_size() ==> status
                == HostStatus::ErrorUnknown && *final(response_handler) == *old(response_handler),
    {
        match decode_view::<W::WorkData>(view) {
            None => HostStatus::ErrorUnknown,
            Some(data) => status_of_worker_result(W::work(response_handler, data)),
        }
    }

    /// One response delivery, driven by the host in the run context.
    ///
    /// The same length validation as [`WorkerDescriptor::work`] guards the
    /// decode: on a mismatch the delivery is rejected as `ErrorUnknown` with
    /// no value constructed, the worker untouched and nothing counted.
    /// Otherwise the response is counted toward the current cycle and handed
    /// to [`Worker::work_response`] by move, and that result is reported to
    /// the host.
    pub fn work_response(worker: &mut W, tracker: &mut CycleTracker, view: &[u8]) -> (status:
        HostStatus)
        ensures
            view@.len() != <W::ResponseData as Plain>::repr_size() ==> status
                == HostStatus::ErrorUnknown && *final(worker) == *old(worker) && *final(tracker)
                == *old(tracker),
            view@.len() == <W::ResponseData as Plain>::repr_size()
                ==> final(tracker).responses_delivered_spec()
                == counted_one_more(old(tracker).responses_delivered_spec())
                && final(tracker).cycles_closed_spec() == old(tracker).cycles_closed_spec(),
    {
        match decode_view::<W::ResponseData>(view) {
            None => HostStatus::ErrorUnknown,
            Some(data) => {
                tracker.count_response();
                status_of_worker_result(worker.work_response(data))
            },
        }
    }

    /// The end-of-cycle barrier, driven by the host once per cycle, after
    /// all of the cycle's responses have been delivered. It closes the
    /// current cycle on the tracker, hands the signal to [`Worker::end_run`],
    /// and reports that result to the host.
    pub fn end_run(worker: &mut W, tracker: &mut CycleTracker) -> (status: HostStatus)
        ensures
            final(tracker).cycles_closed_spec() == counted_one_more(
                old(tracker).cycles_closed_spec(),
            ),
            final(tracker).responses_delivered_spec() == 0,
    {
        tracker.close_cycle();
        status_of_worker_result(worker.end_run())
    }
}

} // verus!
