//! What the store computes around its queries: filters, pages over a
//! collection, cursor pages, and its error type.
pub mod repository;

use vstd::prelude::*;

verus! {

/// An error reported by the store, carrying its message.
#[derive(Debug)]
pub struct StoreError {
    pub msg: String,
}

impl StoreError {
    /// An error whose message is `msg`.
    pub fn new(msg: &str) -> (r: StoreError)
        ensures
            r.msg@ == msg@,
    {
        StoreError { msg: String::from_str(msg) }
    }

    /// The message of the error (what `Display` writes).
    pub fn message(&self) -> (r: &str)
        ensures
            r@ == self.msg@,
    {
        self.msg.as_str()
    }
}

} // verus!
