use vstd::prelude::*;

use crate::db::error::DbResultError;
use crate::db::Id;

verus! {

/// A value reported by the database. The collections of this library key
/// their documents by object id, but a response may in general carry any
/// kind of value; everything that is not an object id is kept opaque.
#[derive(Debug, Clone, Copy, PartialEq, Eq)]
pub enum BsonValue {
    ObjectId(Id),
    Other,
}

/// Outcome of a single-document insert: the value the database reported as
/// the new document's identifier.
#[derive(Debug, Clone, Copy, PartialEq, Eq)]
pub struct InsertOneResult {
    pub inserted_id: BsonValue,
}

/// Extracts the object id assigned by an insert; any response whose
/// identifier is not an object id is rejected, carrying that value.
pub fn inserted_id(res: InsertOneResult) -> (r: Result<Id, DbResultError>)
    ensures
        match res.inserted_id {
            BsonValue::ObjectId(oid) => r == Ok::<Id, DbResultError>(oid),
            BsonValue::Other => r == Err::<Id, DbResultError>(
                DbResultError::NoInsertedObjectId { actual: res.inserted_id },
            ),
        },
{
    match res.inserted_id {
        BsonValue::ObjectId(oid) => Ok(oid),
        BsonValue::Other => Err(DbResultError::NoInsertedObjectId { actual: BsonValue::Other }),
    }
}

} // verus!
