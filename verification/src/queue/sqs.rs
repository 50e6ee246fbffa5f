//! The Amazon SQS queue driver's settings (the driver itself is not implemented).
use vstd::prelude::*;
use vstd::string::*;

verus! {

/// An SQS queue.
pub struct SqsDriver {
    region: String,
    queue_url: String,
}

impl SqsDriver {
    /// A driver for the queue at `queue_url` in `region`; it is always created.
    pub fn new(region: &str, queue_url: &str) -> (r: Result<Self, ()>)
        ensures
            r matches Ok(d) && d.region() == region@ && d.queue_url() == queue_url@,
    {
        Ok(SqsDriver { region: String::from_str(region), queue_url: String::from_str(queue_url) })
    }

    /// The region.
    pub closed spec fn region(&self) -> Seq<char> {
        self.region@
    }

    /// The queue URL.
    pub closed spec fn queue_url(&self) -> Seq<char> {
        self.queue_url@
    }
}

} // verus!
