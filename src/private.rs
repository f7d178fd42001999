//! The sealing trait that keeps `Strict` implemented by this crate's pointer types alone.
use vstd::prelude::*;

verus! {

/// Implemented by the pointer types that may implement `Strict`.
pub trait Sealed {}

} // verus!
