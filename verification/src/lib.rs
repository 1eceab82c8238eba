//! A single-record filter over a key-addressed store of tagged records.
//!
//! The filter reads a query string stored at a fixed, well-known key, scans a
//! candidate record's value for the query as a contiguous substring, and on a
//! match asks the host to create a result record pointing back at the matched
//! record. Whatever the outcome, it leaves a terminal tag on the candidate so
//! the pipeline never reinvokes it on the same record.

use vstd::prelude::*;

pub mod filter;
pub mod gate;
pub mod host;
pub mod record;
pub mod store;
pub mod text;

verus! {

/// The library's name, as the host registers it.
pub fn filter_name() -> (r: &'static str)
    ensures
        r@ == "find"@,
{
    "find"
}

} // verus!
