//! A verified 2D sprite-batching core.
//!
//! Sprites are grouped into texture-keyed buckets of bounded capacity and
//! handed to a GPU backend in slot order on `present`.  Geometry (rotation,
//! scaling, origin and flip handling) is computed in 16.16 fixed-point
//! arithmetic; the backend itself, image decoding and window plumbing are
//! external collaborators and stay outside this crate.

use vstd::prelude::*;
use vstd::string::StringExecFns;

pub mod blend;
pub mod dynamic;
pub mod fx;
pub mod geometry;
pub mod internal;
pub mod texture;

verus! {

/// Which capacity bound a rejected submission ran into.
#[derive(Debug, Clone, Copy, PartialEq, Eq, Structural)]
pub enum CapacityKind {
    Buckets,
    Sprites,
}

/// Everything a fallible operation of this crate can report.
#[derive(Debug)]
pub enum Error {
    /// A caller-supplied argument was rejected (zero capacity, zero texture id).
    InvalidArgument,
    /// A bucket or sprite capacity bound would have been exceeded.
    CapacityExceeded(CapacityKind),
    /// The GPU backend reported a failure; carries its last-error text.
    BackendError(String),
}

impl Error {
    /// The human-readable text of this error: synthesized locally for
    /// argument and capacity errors, taken from the backend otherwise.
    pub open spec fn spec_message(self) -> Seq<char> {
        match self {
            Error::InvalidArgument => "Invalid argument"@,
            Error::CapacityExceeded(CapacityKind::Buckets) => "Bucket capacity exceeded"@,
            Error::CapacityExceeded(CapacityKind::Sprites) => "Sprite capacity exceeded"@,
            Error::BackendError(m) => m@,
        }
    }

    /// The human-readable text of this error.
    pub fn message(self) -> (r: String)
        ensures
            r@ == self.spec_message(),
    {
        match self {
            Error::InvalidArgument => String::from_str("Invalid argument"),
            Error::CapacityExceeded(CapacityKind::Buckets) => String::from_str(
                "Bucket capacity exceeded",
            ),
            Error::CapacityExceeded(CapacityKind::Sprites) => String::from_str(
                "Sprite capacity exceeded",
            ),
            Error::BackendError(m) => m,
        }
    }
}

/// Result type of the fallible operations that return no value.
pub type CallResult = Result<(), Error>;

} // verus!
