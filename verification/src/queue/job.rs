//! The envelope a job travels in: its type name and its serialized data.
use vstd::prelude::*;

verus! {

/// A job ready to be stored on a queue.
pub struct JobWrapper {
    pub job_type: String,
    pub job_data: String,
}

impl JobWrapper {
    /// The envelope of a job of type `job_type` serialized as `job_data`.
    pub fn new(job_type: String, job_data: String) -> (w: Self)
        ensures
            w.job_type == job_type,
            w.job_data == job_data,
    {
        JobWrapper { job_type, job_data }
    }
}

} // verus!
