//! Job queues: configuration, job envelopes, and the decisions of a worker.
use vstd::prelude::*;
use vstd::string::*;
use crate::time::seconds_duration;

pub mod config;
pub mod job;
pub mod sqs;
pub mod store;
pub mod worker;

verus! {

/// The queue a job goes to when it names none.
pub open spec fn default_queue_name() -> Seq<char> {
    "default"@
}

/// Where a dispatched job goes, and after how many seconds it becomes available.
pub struct DispatchPlan {
    pub queue: String,
    pub delay_secs: Option<u64>,
}

/// Entry points of the queue.
pub struct Queue;

impl Queue {
    /// Where a job that asks for `queue` and `delay_secs` is pushed: its own queue, or
    /// `default`, with its delay unchanged.
    pub fn dispatch_plan(queue: Option<String>, delay_secs: Option<u64>) -> (p: DispatchPlan)
        ensures
            p.queue@ == (match queue { Some(q) => q@, None => default_queue_name() }),
            p.delay_secs == delay_secs,
    {
        let q = match queue {
            Some(q) => q,
            None => String::from_str("default"),
        };
        DispatchPlan { queue: q, delay_secs }
    }

    /// A worker for `queue`.
    pub fn worker(queue: &str) -> (w: worker::Worker)
        ensures
            w.queue_name() == queue@,
            w.max_attempts() == 3,
            w.idle_wait() == seconds_duration(1),
    {
        worker::Worker::new(queue)
    }
}

} // verus!
