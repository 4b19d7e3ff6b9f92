//! The roots of the outward-facing query interface. The resolvers
//! themselves do transport work and live with the surrounding program; the
//! types and the version constant are here.

use vstd::prelude::*;

verus! {

/// The root of the read-only queries.
pub struct QueryRoot;

/// The root of the mutations; the interface offers none.
pub struct MutationRoot;

impl QueryRoot {
    /// The version string the query interface reports.
    pub fn api_version() -> (r: &'static str)
        ensures
            r@ == "0.1.0"@,
    {
        "0.1.0"
    }
}

} // verus!
