use vstd::prelude::*;

use crate::db::results::BsonValue;

verus! {

/// What can go wrong when reading a database response.
#[derive(Debug, Clone, Copy, PartialEq, Eq)]
pub enum DbResultError {
    /// The response to an insert carried something other than an object id.
    NoInsertedObjectId { actual: BsonValue },
}

impl DbResultError {
    /// A human-readable description of the error.
    pub fn message(&self) -> (r: &'static str)
        ensures
            r@ == "Expected an object id in response to insert operation"@,
    {
        "Expected an object id in response to insert operation"
    }
}

} // verus!
