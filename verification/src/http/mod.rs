//! The HTTP client's decisions: which endpoint serves a request, whether a failed
//! request is tried again, whether a request waits for a slot, and the mock
//! responses used in tests. Sending requests is left to the caller.
pub mod client;
pub mod mock;
