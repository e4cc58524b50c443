use vstd::prelude::*;

use crate::error::IndexError;

verus! {

/// The capability a generic document source must offer: produce a text
/// value for a named field. Ingestion resolves every schema field
/// through this interface and fails when a document lacks one.
pub trait FieldMap {
    /// The document's text for the named field, or an error when it
    /// has none.
    fn get_field(&self, key: &str) -> Result<String, IndexError>;
}

/// A document given as a list of (field name, text) pairs.
#[derive(Debug, Clone)]
pub struct StringFieldMap(pub Vec<(String, String)>);

impl FieldMap for StringFieldMap {
    /// The first pair with the requested name, or `MissingField`.
    fn get_field(&self, key: &str) -> Result<String, IndexError> {
        let mut i: usize = 0;
        while i < self.0.len()
            invariant
                i <= self.0@.len(),
            decreases self.0@.len() - i,
        {
            if self.0[i].0 == String::from_str(key) {
                return Ok(self.0[i].1.clone());
            }
            i += 1;
        }
        Err(IndexError::MissingField(String::from_str(key)))
    }
}

} // verus!
