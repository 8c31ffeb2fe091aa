//! Work offloading for real-time plugins, modelled on the LV2 worker
//! extension.
//!
//! A real-time processing thread delegates blocking or non-deterministic work
//! to a host-scheduled worker and receives the results back inside its own
//! processing cycle. A unit of work crosses the host boundary twice: once as a
//! request scheduled from the real-time side, and once as zero or more
//! responses sent back from the worker. Payloads travel as plain byte views;
//! the [`transfer`] module states exactly how a typed value is moved into and
//! out of such a view, and every boundary crossing reports one of the three
//! host status codes of the [`status`] module.
//!
//! The host itself is opaque: each capability it supplies (submitting a
//! request, delivering a response) is abstracted as a sink trait, implemented
//! by the host-binding layer or by a test harness.

pub mod cycle;
pub mod respond;
pub mod schedule;
pub mod status;
pub mod transfer;
pub mod worker;

pub use cycle::CycleTracker;
pub use respond::RespondError;
pub use respond::ResponseHandler;
pub use respond::ResponseSink;
pub use schedule::Schedule;
pub use schedule::ScheduleError;
pub use schedule::WorkSink;
pub use status::HostStatus;
pub use transfer::Plain;
pub use worker::Worker;
pub use worker::WorkerDescriptor;
pub use worker::WorkerError;
