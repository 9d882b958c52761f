use vstd::prelude::*;
use vstd::string::StringExecFns;

use crate::db::Database;

verus! {

/// The collection that stores binary assets, addressed by the database that
/// holds it and the fixed collection name.
#[derive(Debug, Clone, PartialEq, Eq)]
pub struct AssetCollection {
    database: String,
    collection: String,
}

impl AssetCollection {
    /// The name of the database holding the collection, for specifications.
    pub closed spec fn spec_database(&self) -> Seq<char> {
        self.database@
    }

    /// The collection's name, for specifications.
    pub closed spec fn spec_collection(&self) -> Seq<char> {
        self.collection@
    }

    pub fn new(db: &Database) -> (r: Self)
        ensures
            r.spec_database() == db.name@,
            r.spec_collection() == "assets"@,
    {
        Self { database: db.name.clone(), collection: String::from_str("assets") }
    }

    /// The collection's name.
    pub fn collection_name(&self) -> (r: &str)
        ensures
            r@ == self.spec_collection(),
    {
        self.collection.as_str()
    }
}

} // verus!
