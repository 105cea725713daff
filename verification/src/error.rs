//! The three ways an operation of the store can fail.

use vstd::prelude::*;
use vstd::string::*;

verus! {

pub const NOT_FOUND: &'static str = "object not found: ";

pub const DATABASE: &'static str = "database error: ";

pub const JSON: &'static str = "json error: ";

/// Why an operation failed. The three kinds are exhaustive.
#[derive(Debug, Clone, PartialEq, Eq)]
pub enum Error {
    /// A mutation named an identifier that no document has.
    NotFound(String),
    /// The engine failed; this is what it said.
    Database(String),
    /// A value could not be written as JSON text, or stored text could not be
    /// read back; this is what the JSON codec said.
    Json(String),
}

impl Error {
    /// The message of this error: what kind it is, then the identifier that
    /// was not found or what the engine or the JSON codec said.
    pub open spec fn message(self) -> Seq<char> {
        match self {
            Error::NotFound(id) => NOT_FOUND@ + id@,
            Error::Database(said) => DATABASE@ + said@,
            Error::Json(said) => JSON@ + said@,
        }
    }

    /// The message of this error.
    pub fn to_string(&self) -> (r: String)
        ensures
            r@ == self.message(),
    {
        match self {
            Error::NotFound(id) => NOT_FOUND.to_owned().concat(id.as_str()),
            Error::Database(said) => DATABASE.to_owned().concat(said.as_str()),
            Error::Json(said) => JSON.to_owned().concat(said.as_str()),
        }
    }

    /// Is this the absence of the target of a mutation?
    pub fn is_not_found(&self) -> (r: bool)
        ensures
            r == (self is NotFound),
    {
        match self {
            Error::NotFound(_) => true,
            _ => false,
        }
    }
}

} // verus!
