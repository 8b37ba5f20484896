use vstd::prelude::*;

verus! {

/// What the store's own rules reject while a bucket is read. Failures of the
/// reads themselves are the caller's errors and pass through unchanged.
#[derive(Debug, Clone, PartialEq, Eq)]
pub enum StoreError {
    /// An entry's name is not valid UTF-8.
    InvalidName,
    /// A value's bytes, once bounded by the size ceiling, are not valid UTF-8.
    InvalidText,
}

} // verus!
