use vstd::prelude::*;

verus! {

/// Errors surfaced by the index library.
///
/// Configuration errors (an invalid glob, an unknown language or color
/// word) fail fast before any index is touched; engine and query errors
/// carry the engine's message; `MissingField` reports a generic document
/// that lacks a required field.
#[derive(Debug, Clone)]
pub enum IndexError {
    /// A glob pattern was rejected by the matcher.
    InvalidGlob(String),
    /// The engine failed to open, write or commit the index store.
    Engine(String),
    /// The query could not be parsed or executed.
    Query(String),
    /// A generic document did not supply a value for a schema field.
    MissingField(String),
    /// A word did not name any known variant.
    InvalidValue(String),
}

impl IndexError {
    /// A human-readable description of the error.
    pub fn message(&self) -> (r: String)
        ensures
            r@ == self.detail(),
    {
        match self {
            IndexError::InvalidGlob(s) => s.clone(),
            IndexError::Engine(s) => s.clone(),
            IndexError::Query(s) => s.clone(),
            IndexError::MissingField(s) => s.clone(),
            IndexError::InvalidValue(s) => s.clone(),
        }
    }

    /// The text carried by the error, whichever variant it is.
    pub open spec fn detail(&self) -> Seq<char> {
        match self {
            IndexError::InvalidGlob(s) => s@,
            IndexError::Engine(s) => s@,
            IndexError::Query(s) => s@,
            IndexError::MissingField(s) => s@,
            IndexError::InvalidValue(s) => s@,
        }
    }
}

} // verus!
