//! The sample formats that decoded audio can be written in.
use vstd::prelude::*;

verus! {

/// A sample format.
pub trait Sample {}

impl Sample for i16 {}

/// A buffer of samples.
pub trait Samples<T: Sample> {}

impl<'a, T> Samples<T> for &'a mut [T] where T: Sample {}

impl<T> Samples<T> for Vec<T> where T: Sample {}

} // verus!
