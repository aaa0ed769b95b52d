//! The errors of the core.
use vstd::prelude::*;

verus! {

/// The errors that the core raises itself. Errors of a model implementation
/// travel beside these, uninterpreted.
#[derive(Debug, Clone, Copy, PartialEq, Eq, Structural)]
pub enum BmiError {
    /// An optional operation that the implementation does not provide.
    NotImplemented,
    /// An index at or past the current length of the target array.
    IndexOutOfBounds,
    /// A malformed argument: a negative count or index, an unencodable string,
    /// a size that does not fit the boundary's integer types.
    InvalidArgument,
}

} // verus!
