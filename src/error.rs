use vstd::prelude::*;

verus! {

/// What can go wrong when reading or storing the library's values.
#[derive(Debug, Clone, Copy, PartialEq, Eq, Structural)]
pub enum ModelError {
    /// A text does not name a value of the expected type.
    Validation,
    /// No stored row carries the requested identity.
    NotFound,
    /// The data store refused or failed an operation.
    Storage,
    /// A composite column does not hold a well-formed encoding.
    Decode,
}

} // verus!
