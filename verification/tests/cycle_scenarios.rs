//! Whole-cycle scenarios: ordered response delivery with a single barrier,
//! and serialized executor invocations.

use lv2_worker::cycle::CycleTracker;
use lv2_worker::respond::{ResponseHandler, ResponseSink};
use lv2_worker::schedule::{Schedule, WorkSink};
use lv2_worker::status::HostStatus;
use lv2_worker::transfer::Plain;
use lv2_worker::worker::{Worker, WorkerDescriptor, WorkerError};
use std::cell::RefCell;
use std::rc::Rc;

/// Marks the barrier in a worker's trace; never a payload in these tests.
const BARRIER: u64 = u64::MAX;

const ENTER: u64 = 1;

const EXIT: u64 = 2;

struct QueueSubmit {
    queue: Rc<RefCell<Vec<Vec<u8>>>>,
}

impl WorkSink for QueueSubmit {
    fn submit(&mut self, view: &[u8]) -> u32 {
        self.queue.borrow_mut().push(view.to_vec());
        0
    }
}

struct QueueRespond {
    queue: Rc<RefCell<Vec<Vec<u8>>>>,
}

impl ResponseSink for QueueRespond {
    fn respond_bytes(&mut self, view: &[u8]) -> u32 {
        self.queue.borrow_mut().push(view.to_vec());
        0
    }
}

/// Echoes each work payload back as a response; consumed responses and the
/// barrier signal land in one trace, in the order they arrive.
struct TracingWorker {
    trace: Vec<u64>,
    barriers: u64,
}

impl Worker for TracingWorker {
    type WorkData = u64;
    type ResponseData = u64;

    fn work<S: ResponseSink>(
        response_handler: &mut ResponseHandler<S>,
        data: u64,
    ) -> Result<(), WorkerError> {
        let _ = response_handler.respond(data);
        Ok(())
    }

    fn work_response(&mut self, data: u64) -> Result<(), WorkerError> {
        self.trace.push(data);
        Ok(())
    }

    fn end_run(&mut self) -> Result<(), WorkerError> {
        self.barriers += 1;
        self.trace.push(BARRIER);
        Ok(())
    }
}

/// Brackets the body of each invocation between two response markers, so a
/// replay of the emitted responses shows how deeply invocations nested.
struct BracketWorker;

impl Worker for BracketWorker {
    type WorkData = u64;
    type ResponseData = u64;

    fn work<S: ResponseSink>(
        response_handler: &mut ResponseHandler<S>,
        _data: u64,
    ) -> Result<(), WorkerError> {
        let _ = response_handler.respond(ENTER);
        let _ = response_handler.respond(EXIT);
        Ok(())
    }
}

#[test]
fn responses_in_order_then_single_barrier() {
    // Schedule three requests tagged 1, 2, 3 within one cycle.
    let requests: Rc<RefCell<Vec<Vec<u8>>>> = Rc::new(RefCell::new(Vec::new()));
    let mut schedule = Schedule::new(Some(QueueSubmit { queue: requests.clone() }));
    for tag in [1u64, 2, 3] {
        assert_eq!(schedule.schedule_work(tag), Ok(()));
    }

    // The host runs one executor invocation per request; each echoes its tag
    // into the response queue.
    let responses: Rc<RefCell<Vec<Vec<u8>>>> = Rc::new(RefCell::new(Vec::new()));
    for request in requests.borrow().iter() {
        let mut handler = ResponseHandler::new(Some(QueueRespond { queue: responses.clone() }));
        let status = WorkerDescriptor::<TracingWorker>::work(&mut handler, request.as_slice());
        assert_eq!(status, HostStatus::Success);
    }

    // The host delivers the responses in the order 1, 2, 3, then fires the
    // barrier once.
    let mut worker = TracingWorker { trace: Vec::new(), barriers: 0 };
    let mut tracker = CycleTracker::new();
    for view in responses.borrow().iter() {
        let status = WorkerDescriptor::<TracingWorker>::work_response(
            &mut worker,
            &mut tracker,
            view.as_slice(),
        );
        assert_eq!(status, HostStatus::Success);
    }
    assert_eq!(tracker.responses_delivered(), 3);
    assert_eq!(tracker.cycles_closed(), 0);

    let status = WorkerDescriptor::<TracingWorker>::end_run(&mut worker, &mut tracker);
    assert_eq!(status, HostStatus::Success);

    // The barrier fired exactly once, strictly after response 3.
    assert_eq!(worker.trace, vec![1, 2, 3, BARRIER]);
    assert_eq!(worker.barriers, 1);
    assert_eq!(tracker.cycles_closed(), 1);
    assert_eq!(tracker.responses_delivered(), 0);
}

#[test]
fn back_to_back_invocations_do_not_overlap() {
    // Two executor invocations issued back-to-back for one instance; each
    // brackets itself with markers through its own one-shot channel.
    let events: Rc<RefCell<Vec<Vec<u8>>>> = Rc::new(RefCell::new(Vec::new()));
    for tag in [10u64, 20] {
        let mut handler = ResponseHandler::new(Some(QueueRespond { queue: events.clone() }));
        let view = tag.into_view();
        let status = WorkerDescriptor::<BracketWorker>::work(&mut handler, view.as_slice());
        assert_eq!(status, HostStatus::Success);
    }

    // Replay the markers: the nesting depth never exceeds 1.
    let mut depth: i64 = 0;
    let mut max_depth: i64 = 0;
    for view in events.borrow().iter() {
        let marker: u64 = <u64 as Plain>::from_view(view.as_slice());
        if marker == ENTER {
            depth += 1;
        } else {
            depth -= 1;
        }
        if depth > max_depth {
            max_depth = depth;
        }
    }
    assert_eq!(events.borrow().len(), 4);
    assert_eq!(max_depth, 1);
    assert_eq!(depth, 0);
}
