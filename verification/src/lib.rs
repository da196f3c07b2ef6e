// A host-telemetry log: one point-in-time snapshot of a machine's vitals,
// disks, network counters, thermal sensors and reachability is decomposed
// into linked rows of a relational store and reconstructed on read. The
// records module holds the data model, probe the latency parsing, store the
// trusted surface over the database, engine the write and read paths, model
// and laws the store's mathematical model and what is proved of it.

use vstd::prelude::*;

pub mod engine;
pub mod laws;
pub mod model;
pub mod probe;
pub mod records;
pub mod store;

verus! {

/// An error reported by the persistence store, carried as plain text.
#[derive(Clone, Debug, PartialEq)]
pub struct StoreError {
    pub text: String,
}

impl StoreError {
    /// The stored description of what went wrong.
    pub fn detail(&self) -> (r: &String)
        ensures
            r@ == self.text@,
    {
        &self.text
    }
}

} // verus!
