//! Library-specific type definitions.

use vstd::prelude::*;

verus! {

/// A `Result` alias where the `Err` case is [`crate::Error`].
pub type Result<T> = std::result::Result<T, crate::Error>;

} // verus!
