use vstd::prelude::*;

use crate::db::DatabaseLocation;

verus! {

/// What is missing when the database location cannot be assembled.
#[derive(Debug, Clone, Copy, PartialEq, Eq, Structural)]
pub enum LocationError {
    UriNotSet,
    DatabaseNotSet,
}

impl LocationError {
    /// A human-readable description of the error.
    pub fn message(&self) -> (r: &'static str)
        ensures
            self is UriNotSet ==> r@ == "$LATOSOL_MONGODB_URI is not set!"@,
            self is DatabaseNotSet ==> r@ == "$LATOSOL_MONGODB_DATABASE is not set!"@,
    {
        match self {
            LocationError::UriNotSet => "$LATOSOL_MONGODB_URI is not set!",
            LocationError::DatabaseNotSet => "$LATOSOL_MONGODB_DATABASE is not set!",
        }
    }
}

/// Assembles the database location from the configured URI and database
/// name, if both were supplied; the URI is checked first.
pub fn read_location(uri: Option<String>, database: Option<String>) -> (r: Result<
    DatabaseLocation,
    LocationError,
>)
    ensures
        r == match (uri, database) {
            (Option::None, _) => Err::<DatabaseLocation, LocationError>(LocationError::UriNotSet),
            (Option::Some(_), Option::None) => Err::<DatabaseLocation, LocationError>(
                LocationError::DatabaseNotSet,
            ),
            (Option::Some(u), Option::Some(d)) => Ok::<DatabaseLocation, LocationError>(
                DatabaseLocation { uri: u, database: d },
            ),
        },
{
    let u = match uri {
        Some(u) => u,
        None => {
            return Err(LocationError::UriNotSet);
        },
    };
    let d = match database {
        Some(d) => d,
        None => {
            return Err(LocationError::DatabaseNotSet);
        },
    };
    Ok(DatabaseLocation { uri: u, database: d })
}

} // verus!
