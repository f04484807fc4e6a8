//! The result type of this crate.

use vstd::prelude::*;

verus! {

/// A result whose error is this crate's [`Error`](crate::error::Error).
pub type Result<T> = std::result::Result<T, crate::error::Error>;

} // verus!
