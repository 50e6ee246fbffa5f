//! A queue worker's decisions. The loop that pops, runs, deletes and releases jobs
//! performs each action chosen here and reports what happened as the next event.
use vstd::prelude::*;
use vstd::string::*;
use std::sync::Arc;
use std::sync::atomic::AtomicBool;
use std::sync::atomic::Ordering;
use core::time::Duration;
use crate::time::seconds_duration;

verus! {

/// The delay, in seconds, before a failed job becomes available again.
pub const RELEASE_DELAY_SECS: u64 = 30;

/// What the worker learned from its last action.
#[derive(Debug, Clone, Copy, PartialEq, Eq)]
pub enum WorkerEvent {
    /// The queue had no available job.
    QueueEmpty,
    /// A job was reserved; it had been attempted `attempts` times.
    Popped { attempts: u32 },
    /// The job's payload was (or was not) a valid job envelope.
    Decoded { valid: bool },
    /// Running the job succeeded (or failed).
    Handled { succeeded: bool },
}

/// Why a job is deleted.
#[derive(Debug, Clone, Copy, PartialEq, Eq)]
pub enum DeleteReason {
    TooManyAttempts,
    Malformed,
    Completed,
}

/// What the worker does next.
#[derive(Debug, Clone, Copy, PartialEq, Eq)]
pub enum WorkerAction {
    /// Wait for the sleep duration, then pop again.
    Sleep,
    /// Decode the reserved job's payload.
    Decode,
    /// Run the decoded job.
    Process,
    /// Delete the reserved job, then pop again.
    Delete(DeleteReason),
    /// Put the reserved job back, available after `delay_secs`, then pop again.
    Release { delay_secs: u64 },
}

/// The action that follows `event` for a worker allowing `max_tries` attempts.
pub open spec fn action_after(max_tries: u32, event: WorkerEvent) -> WorkerAction {
    match event {
        WorkerEvent::QueueEmpty => WorkerAction::Sleep,
        WorkerEvent::Popped { attempts } => if attempts > max_tries {
            WorkerAction::Delete(DeleteReason::TooManyAttempts)
        } else {
            WorkerAction::Decode
        },
        WorkerEvent::Decoded { valid } => if valid {
            WorkerAction::Process
        } else {
            WorkerAction::Delete(DeleteReason::Malformed)
        },
        WorkerEvent::Handled { succeeded } => if succeeded {
            WorkerAction::Delete(DeleteReason::Completed)
        } else {
            WorkerAction::Release { delay_secs: RELEASE_DELAY_SECS }
        },
    }
}

/// Processes the jobs of one queue.
pub struct Worker {
    queue: String,
    sleep_duration: Duration,
    max_tries: u32,
    /// Cleared by `stop`; the loop ends once it is clear.
    pub running: Arc<AtomicBool>,
}

impl Worker {
    /// The queue the worker serves.
    pub closed spec fn queue_name(&self) -> Seq<char> {
        self.queue@
    }

    /// How many attempts a job is allowed.
    pub closed spec fn max_attempts(&self) -> u32 {
        self.max_tries
    }

    /// The shared flag that `stop` clears.
    pub closed spec fn stop_flag(&self) -> Arc<AtomicBool> {
        self.running
    }

    /// How long the worker waits when the queue is empty.
    pub closed spec fn idle_wait(&self) -> Duration {
        self.sleep_duration
    }

    /// A running worker for `queue`: three attempts per job, one second of sleep.
    pub fn new(queue: &str) -> (w: Self)
        ensures
            w.queue_name() == queue@,
            w.max_attempts() == 3,
            w.idle_wait() == seconds_duration(1),
    {
        Worker {
            queue: String::from_str(queue),
            sleep_duration: Duration::from_secs(1),
            max_tries: 3,
            running: Arc::new(AtomicBool::new(true)),
        }
    }

    /// Sets the sleep duration.
    pub fn sleep_duration(self, duration: Duration) -> (w: Self)
        ensures
            w.idle_wait() == duration,
            w.queue_name() == self.queue_name(),
            w.max_attempts() == self.max_attempts(),
            w.stop_flag() == self.stop_flag(),
    {
        let mut w = self;
        w.sleep_duration = duration;
        w
    }

    /// Sets how many attempts a job is allowed.
    pub fn max_tries(self, tries: u32) -> (w: Self)
        ensures
            w.max_attempts() == tries,
            w.queue_name() == self.queue_name(),
            w.idle_wait() == self.idle_wait(),
            w.stop_flag() == self.stop_flag(),
    {
        let mut w = self;
        w.max_tries = tries;
        w
    }

    /// The queue the worker serves.
    pub fn queue(&self) -> (q: &str)
        ensures
            q@ == self.queue_name(),
    {
        self.queue.as_str()
    }

    /// How long the worker waits when the queue is empty.
    pub fn idle_duration(&self) -> (d: Duration)
        ensures
            d == self.idle_wait(),
    {
        self.sleep_duration
    }

    /// Asks the loop to end after its current step. The flag is shared with every
    /// clone of it; its value is not tracked here.
    pub fn stop(&self) {
        self.running.store(false, Ordering::SeqCst);
    }

    /// Whether the loop should go on.
    pub fn is_running(&self) -> bool {
        self.running.load(Ordering::SeqCst)
    }

    /// The action that follows `event`.
    pub fn next_action(&self, event: WorkerEvent) -> (a: WorkerAction)
        ensures
            a == action_after(self.max_attempts(), event),
    {
        match event {
            WorkerEvent::QueueEmpty => WorkerAction::Sleep,
            WorkerEvent::Popped { attempts } => if attempts > self.max_tries {
                WorkerAction::Delete(DeleteReason::TooManyAttempts)
            } else {
                WorkerAction::Decode
            },
            WorkerEvent::Decoded { valid } => if valid {
                WorkerAction::Process
            } else {
                WorkerAction::Delete(DeleteReason::Malformed)
            },
            WorkerEvent::Handled { succeeded } => if succeeded {
                WorkerAction::Delete(DeleteReason::Completed)
            } else {
                WorkerAction::Release { delay_secs: RELEASE_DELAY_SECS }
            },
        }
    }
}

/// A job that has used up its attempts is deleted, never run again; a job whose run
/// failed is put back and becomes available again after the release delay.
pub proof fn exhausted_jobs_never_run(max_tries: u32, attempts: u32)
    ensures
        action_after(max_tries, WorkerEvent::Popped { attempts }) == WorkerAction::Decode ==> attempts <= max_tries,
        attempts > max_tries ==> action_after(max_tries, WorkerEvent::Popped { attempts })
            == WorkerAction::Delete(DeleteReason::TooManyAttempts),
        action_after(max_tries, WorkerEvent::Handled { succeeded: false })
            == (WorkerAction::Release { delay_secs: RELEASE_DELAY_SECS }),
{
}

/// Only a job that was decoded as a valid envelope is run.
pub proof fn only_valid_jobs_run(max_tries: u32, event: WorkerEvent)
    ensures
        action_after(max_tries, event) == WorkerAction::Process ==> event == (WorkerEvent::Decoded { valid: true }),
{
}

/// A job popped within its allowed attempts is decoded and so goes on to run, however
/// few times it was tried before (a fresh job too); only exhausted jobs are dropped.
pub proof fn jobs_within_attempts_are_decoded(max_tries: u32, attempts: u32)
    ensures
        attempts <= max_tries ==> action_after(max_tries, WorkerEvent::Popped { attempts }) == WorkerAction::Decode,
        action_after(max_tries, WorkerEvent::Popped { attempts }) == WorkerAction::Decode
            || action_after(max_tries, WorkerEvent::Popped { attempts })
                == WorkerAction::Delete(DeleteReason::TooManyAttempts),
{
}

} // verus!
