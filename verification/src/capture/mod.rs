//! The capture engine: validates the frames that the signal ring delivers,
//! hands them to the arena's consumers and keeps count.

pub mod attach;
pub mod batch;
pub mod dispatch;
pub mod metrics;
pub mod percpu_ring;
pub mod sink;
pub mod vacuum;
pub mod workers;

pub use attach::{AttachError, AttachStep, DetachError, DetachStep};
pub use batch::BATCH_SIZE;
pub use dispatch::{dispatch_channel, try_dispatch, DISPATCH_CAPACITY};
pub use metrics::{reporter_stops, Metrics, Report, Reporter};
pub use percpu_ring::PerCpuRingTable;
pub use sink::{DispatchReceiver, DispatchSender, FrameSink, SendOutcome};
pub use vacuum::{DropReason, Vacuum, VacuumAction};
pub use workers::{build_ring_handles, plan_workers, worker_count, NoWorkers};
