//! Seeders fill the database with initial rows.
use vstd::prelude::*;
use crate::database::connection::DatabaseError;

verus! {

/// Runs the registered seeders, in the order they were registered.
pub struct DatabaseSeeder;

impl DatabaseSeeder {
    /// Finds the seeders to run. They register themselves when the program starts,
    /// so there is nothing to look for and this always succeeds.
    pub fn discover_seeders() -> (r: Result<(), DatabaseError>)
        ensures
            r is Ok,
    {
        Ok(())
    }
}

} // verus!
