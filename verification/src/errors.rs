//! The ways in which reading, building or generating a description fails.

use vstd::prelude::*;
use vstd::string::*;

verus! {

/// A hard failure. Findings of the validator are not errors of this kind:
/// they are returned as data.
#[derive(Debug, PartialEq, Eq)]
pub enum Error {
    /// A path could not be read. Holds the path.
    FileNotFound(String),
    /// A path or a structure is unusable. Holds what was wrong.
    InvalidFormat(String),
    /// A document is not JSON, or a value fits no shape of the schema.
    /// Holds where decoding stopped.
    Decode(String),
    /// A mandatory field was left out while an entity was assembled.
    /// Holds the name of the first such field.
    Construction(String),
}

impl Clone for Error {
    fn clone(&self) -> (r: Error)
        ensures
            r == *self,
    {
        match self {
            Error::FileNotFound(path) => Error::FileNotFound(path.clone()),
            Error::InvalidFormat(what) => Error::InvalidFormat(what.clone()),
            Error::Decode(place) => Error::Decode(place.clone()),
            Error::Construction(field) => Error::Construction(field.clone()),
        }
    }
}

} // verus!
