use vstd::prelude::*;

pub mod assets;
pub mod error;
pub mod models;
pub mod results;

verus! {

/// Where a database lives: a connection URI and the name of the database
/// addressed within it.
#[derive(Debug, Clone, PartialEq, Eq)]
pub struct DatabaseLocation {
    pub uri: String,
    pub database: String,
}

/// A handle to one named database. Establishing and pooling the driver
/// connection is the embedding application's concern; the library tracks
/// only which database is addressed.
#[derive(Debug, Clone, PartialEq, Eq)]
pub struct Database {
    pub name: String,
}

/// A twelve-byte document identifier.
#[derive(Debug, Clone, Copy, PartialEq, Eq, Hash)]
pub struct Id([u8; 12]);

impl Id {
    /// The identifier's bytes, for specifications.
    pub closed spec fn spec_bytes(&self) -> [u8; 12] {
        self.0
    }

    pub fn from_bytes(bytes: [u8; 12]) -> (r: Self)
        ensures
            r.spec_bytes() == bytes,
    {
        Self(bytes)
    }

    pub fn bytes(&self) -> (r: [u8; 12])
        ensures
            r == self.spec_bytes(),
    {
        self.0
    }
}

/// One stored document: an identifier together with its value.
#[derive(Debug, Clone, PartialEq, Eq)]
pub struct Doc<T> {
    id: Id,
    value: T,
}

impl<T> Doc<T> {
    /// The document's identifier, for specifications.
    pub closed spec fn spec_id(&self) -> Id {
        self.id
    }

    /// The document's value, for specifications.
    pub closed spec fn spec_value(&self) -> T {
        self.value
    }

    pub fn new(id: Id, value: T) -> (r: Self)
        ensures
            r.spec_id() == id,
            r.spec_value() == value,
    {
        Self { id, value }
    }

    pub fn id(&self) -> (r: Id)
        ensures
            r == self.spec_id(),
    {
        self.id
    }

    pub fn value(&self) -> (r: &T)
        ensures
            *r == self.spec_value(),
    {
        &self.value
    }

    pub fn value_mut(&mut self) -> (r: &mut T)
        ensures
            *r == old(self).spec_value(),
            final(self).spec_id() == old(self).spec_id(),
            final(self).spec_value() == *final(r),
    {
        &mut self.value
    }

    pub fn into_value(self) -> (r: T)
        ensures
            r == self.spec_value(),
    {
        self.value
    }
}

} // verus!
