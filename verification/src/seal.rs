//! The sealing trait that keeps `MappingTable` implemented by this crate alone.
use vstd::prelude::*;

verus! {

/// Implemented only by the channel mapping types of this crate.
pub trait Sealed {}

} // verus!
