//! The errors of this layer's own checks.

use vstd::prelude::*;
use crate::enums::Status;

verus! {

/// Why direct access to the pixels of a surface was refused.
#[derive(Clone, Copy, Debug, PartialEq, Eq, Structural)]
pub enum BorrowError {
    /// The surface has another owner, which could touch the pixels meanwhile.
    NonExclusive,
    /// The engine reported a failure on the surface.
    Cairo(Status),
}

impl From<Status> for BorrowError {
    fn from(status: Status) -> (error: BorrowError) {
        BorrowError::Cairo(status)
    }
}

impl vstd::std_specs::convert::FromSpecImpl<Status> for BorrowError {
    open spec fn obeys_from_spec() -> bool {
        true
    }

    open spec fn from_spec(status: Status) -> BorrowError {
        BorrowError::Cairo(status)
    }
}

/// A handle that was null where a native object was expected.
#[derive(Clone, Copy, Debug, PartialEq, Eq, Structural)]
pub struct NullHandle;

/// An operation that this layer names but does not offer.
#[derive(Clone, Copy, Debug, PartialEq, Eq, Structural)]
pub struct NotSupported;

} // verus!
