//! The rules of the database queue: which stored job a worker gets next, and how
//! pushing, reserving, releasing, deleting and clearing change the stored jobs.
//! Times are instants in one fixed unit (the caller's clock); delays are in the
//! same unit.
use vstd::prelude::*;
use vstd::string::*;
use crate::text::str_eq;

verus! {

broadcast use vstd::seq_lib::group_filter_ensures;

/// A job as the queue stores it.
pub struct JobRecord {
    /// The job's identifier; jobs are handed out in increasing order of it.
    pub id: u128,
    pub queue: String,
    pub payload: String,
    /// How many times the job has been released after a failed run.
    pub attempts: u32,
    /// When a worker took the job, if one holds it.
    pub reserved_at: Option<i64>,
    /// From when the job may be taken.
    pub available_at: i64,
    pub created_at: i64,
}

impl Clone for JobRecord {
    fn clone(&self) -> (j: Self)
        ensures
            j == *self,
    {
        JobRecord {
            id: self.id,
            queue: self.queue.clone(),
            payload: self.payload.clone(),
            attempts: self.attempts,
            reserved_at: self.reserved_at,
            available_at: self.available_at,
            created_at: self.created_at,
        }
    }
}

/// The instant `delay` after `now`, or `now` when there is no delay.
pub open spec fn after_delay(now: int, delay: Option<i64>) -> int {
    match delay {
        None => now,
        Some(d) => now + d,
    }
}

/// Whether the time arithmetic of a delay stays in range.
pub open spec fn delay_fits(now: i64, delay: Option<i64>) -> bool {
    i64::MIN <= after_delay(now as int, delay) <= i64::MAX
}

/// Whether the instant `delay` after `now` can be represented.
pub fn delay_in_range(now: i64, delay: Option<i64>) -> (b: bool)
    ensures
        b == delay_fits(now, delay),
{
    match delay {
        None => true,
        Some(d) => now.checked_add(d).is_some(),
    }
}

/// Whether a worker of `queue` may take `job` at `now`: it belongs to the queue, no
/// worker holds it, and it is available.
pub open spec fn eligible(job: JobRecord, queue: Seq<char>, now: int) -> bool {
    job.queue@ == queue && job.reserved_at is None && job.available_at <= now
}

/// The job `push` stores for `queue` at `now`: not attempted, not held, available
/// after `delay`.
pub fn pushed_job(id: u128, queue: &str, payload: String, now: i64, delay: Option<i64>) -> (j: JobRecord)
    requires
        delay_fits(now, delay),
    ensures
        j.id == id,
        j.queue@ == queue@,
        j.payload == payload,
        j.attempts == 0,
        j.reserved_at is None,
        j.available_at == after_delay(now as int, delay),
        j.created_at == now,
{
    let available_at = match delay {
        None => now,
        Some(d) => now + d,
    };
    JobRecord {
        id,
        queue: String::from_str(queue),
        payload,
        attempts: 0,
        reserved_at: None,
        available_at,
        created_at: now,
    }
}

/// The position of the job a worker of `queue` gets at `now`: the eligible job with
/// the smallest identifier (the first of them when several share it); none when no
/// job is eligible.
pub fn next_job(jobs: &Vec<JobRecord>, queue: &str, now: i64) -> (r: Option<usize>)
    ensures
        r is None <==> (forall|i: int| 0 <= i < jobs@.len() ==> !eligible(#[trigger] jobs@[i], queue@, now as int)),
        r matches Some(k) ==> {
            &&& k < jobs@.len()
            &&& eligible(jobs@[k as int], queue@, now as int)
            &&& forall|i: int| 0 <= i < jobs@.len() && eligible(#[trigger] jobs@[i], queue@, now as int)
                ==> jobs@[k as int].id <= jobs@[i].id
            &&& forall|i: int| 0 <= i < k && eligible(#[trigger] jobs@[i], queue@, now as int)
                ==> jobs@[k as int].id < jobs@[i].id
        },
{
    let mut best: Option<usize> = None;
    let mut i: usize = 0;
    while i < jobs.len()
        invariant
            i <= jobs.len(),
            best is None <==> (forall|j: int| 0 <= j < i ==> !eligible(#[trigger] jobs@[j], queue@, now as int)),
            best matches Some(k) ==> {
                &&& k < i
                &&& eligible(jobs@[k as int], queue@, now as int)
                &&& forall|j: int| 0 <= j < i && eligible(#[trigger] jobs@[j], queue@, now as int)
                    ==> jobs@[k as int].id <= jobs@[j].id
                &&& forall|j: int| 0 <= j < k && eligible(#[trigger] jobs@[j], queue@, now as int)
                    ==> jobs@[k as int].id < jobs@[j].id
            },
        decreases jobs.len() - i,
    {
        let job = &jobs[i];
        let ok = str_eq(job.queue.as_str(), queue) && job.reserved_at.is_none() && job.available_at <= now;
        if ok {
            match best {
                None => {
                    best = Some(i);
                },
                Some(k) => {
                    if job.id < jobs[k].id {
                        best = Some(i);
                    }
                },
            }
        }
        i = i + 1;
    }
    best
}

/// `job` taken by a worker at `now`.
pub fn reserve(job: &mut JobRecord, now: i64)
    ensures
        *final(job) == (JobRecord { reserved_at: Some(now), ..*old(job) }),
{
    job.reserved_at = Some(now);
}

/// `job` put back after a failed run at `now`: no longer held, available after
/// `delay`, with one more attempt counted.
pub fn release(job: &mut JobRecord, now: i64, delay: Option<i64>)
    requires
        old(job).attempts < u32::MAX,
        delay_fits(now, delay),
    ensures
        final(job).reserved_at is None,
        final(job).available_at == after_delay(now as int, delay),
        final(job).attempts == old(job).attempts + 1,
        final(job).id == old(job).id,
        final(job).queue == old(job).queue,
        final(job).payload == old(job).payload,
        final(job).created_at == old(job).created_at,
{
    job.reserved_at = None;
    job.available_at = match delay {
        None => now,
        Some(d) => now + d,
    };
    job.attempts = job.attempts + 1;
}

/// Whether `job` belongs to `queue`.
pub open spec fn in_queue(queue: Seq<char>) -> spec_fn(JobRecord) -> bool {
    |job: JobRecord| job.queue@ == queue
}

/// Whether `job` does not belong to `queue`.
pub open spec fn not_in_queue(queue: Seq<char>) -> spec_fn(JobRecord) -> bool {
    |job: JobRecord| job.queue@ != queue
}

/// Whether `job` does not have the identifier `id`.
pub open spec fn other_id(id: u128) -> spec_fn(JobRecord) -> bool {
    |job: JobRecord| job.id != id
}

/// How many jobs `queue` holds, held or not.
pub fn queue_size(jobs: &Vec<JobRecord>, queue: &str) -> (n: u64)
    requires
        jobs@.len() <= u64::MAX,
    ensures
        n == jobs@.filter(in_queue(queue@)).len(),
{
    let ghost p = in_queue(queue@);
    let mut n: u64 = 0;
    let mut i: usize = 0;
    while i < jobs.len()
        invariant
            i <= jobs.len(),
            jobs@.len() <= u64::MAX,
            p == in_queue(queue@),
            n == jobs@.take(i as int).filter(p).len(),
        decreases jobs.len() - i,
    {
        proof {
            reveal(Seq::filter);
            assert(jobs@.take(i + 1).drop_last() =~= jobs@.take(i as int));
            assert(jobs@.take(i + 1).last() == jobs@[i as int]);
            jobs@.take(i as int).lemma_filter_len(p);
        }
        if str_eq(jobs[i].queue.as_str(), queue) {
            n = n + 1;
        }
        i = i + 1;
    }
    assert(jobs@.take(jobs.len() as int) =~= jobs@);
    n
}

/// The jobs kept, in order, when those of `queue` are removed (with `by_queue`) or
/// those with the identifier `id` (without it).
fn retain_jobs(jobs: Vec<JobRecord>, queue: &str, by_queue: bool, id: u128) -> (r: Vec<JobRecord>)
    ensures
        by_queue ==> r@ == jobs@.filter(not_in_queue(queue@)),
        !by_queue ==> r@ == jobs@.filter(other_id(id)),
{
    let ghost p = if by_queue { not_in_queue(queue@) } else { other_id(id) };
    let mut out: Vec<JobRecord> = Vec::new();
    let mut i: usize = 0;
    while i < jobs.len()
        invariant
            i <= jobs.len(),
            p == (if by_queue { not_in_queue(queue@) } else { other_id(id) }),
            out@ == jobs@.take(i as int).filter(p),
        decreases jobs.len() - i,
    {
        proof {
            reveal(Seq::filter);
            assert(jobs@.take(i + 1).drop_last() =~= jobs@.take(i as int));
            assert(jobs@.take(i + 1).last() == jobs@[i as int]);
        }
        let keep = if by_queue {
            !str_eq(jobs[i].queue.as_str(), queue)
        } else {
            jobs[i].id != id
        };
        if keep {
            out.push(jobs[i].clone());
        }
        i = i + 1;
    }
    assert(jobs@.take(jobs.len() as int) =~= jobs@);
    out
}

/// The jobs left after `clear(queue)`: those of other queues, in order.
pub fn clear_queue(jobs: Vec<JobRecord>, queue: &str) -> (r: Vec<JobRecord>)
    ensures
        r@ == jobs@.filter(not_in_queue(queue@)),
{
    retain_jobs(jobs, queue, true, 0)
}

/// The jobs left after `delete(id)`: all but those with that identifier, in order.
pub fn delete_job(jobs: Vec<JobRecord>, id: u128) -> (r: Vec<JobRecord>)
    ensures
        r@ == jobs@.filter(other_id(id)),
{
    retain_jobs(jobs, "", false, id)
}

/// A job taken by a worker is not handed out again until it is released.
pub proof fn reserved_job_is_not_taken(job: JobRecord, at: i64, queue: Seq<char>, later: int)
    ensures
        !eligible(JobRecord { reserved_at: Some(at), ..job }, queue, later),
{
}

/// A job as `push` and `release` leave it (not held, available after a delay from
/// `now`) is handed to a worker of its queue exactly once the delay has passed.
pub proof fn available_exactly_after_delay(job: JobRecord, now: i64, delay: Option<i64>, later: int)
    requires
        job.reserved_at is None,
        job.available_at == after_delay(now as int, delay),
    ensures
        eligible(job, job.queue@, later) <==> later >= after_delay(now as int, delay),
{
}

/// After `clear(queue)` the queue holds no job, and no job of another queue is lost.
pub proof fn clear_empties_only_that_queue(jobs: Seq<JobRecord>, queue: Seq<char>)
    ensures
        jobs.filter(not_in_queue(queue)).filter(in_queue(queue)).len() == 0,
        forall|i: int| 0 <= i < jobs.len() && jobs[i].queue@ != queue
            ==> #[trigger] jobs.filter(not_in_queue(queue)).contains(jobs[i]),
{
    let left = jobs.filter(not_in_queue(queue));
    assert forall|i: int| 0 <= i < left.len() implies !in_queue(queue)(#[trigger] left[i]) by {
        jobs.lemma_filter_pred(not_in_queue(queue), i);
    }
    assert(left.all(|j: JobRecord| !in_queue(queue)(j)));
    left.lemma_all_neg_filter_empty(in_queue(queue));
    assert forall|i: int| 0 <= i < jobs.len() && jobs[i].queue@ != queue
        implies #[trigger] jobs.filter(not_in_queue(queue)).contains(jobs[i]) by {
        jobs.lemma_filter_contains(not_in_queue(queue), i);
    }
}

} // verus!
