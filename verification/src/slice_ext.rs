//! Convienence methods on slices: bounds-checked accessors that report a
//! `BoundsError` in place of `None`.
use vstd::prelude::*;

verus! {

/// The error returned when an index or a range lies outside a slice.
#[derive(Debug, PartialEq, Eq, PartialOrd, Ord, Clone, Copy, Hash, Default)]
pub struct BoundsError;

impl BoundsError {
    /// A description of the error.
    pub fn description(&self) -> (r: &'static str)
        ensures
            r@ == "out of bounds"@,
    {
        "out of bounds"
    }
}

/// Bounds-checked accessors on slices.
pub trait SliceExt<T> {
    /// The first element.
    fn first_res(&self) -> Result<&T, BoundsError>;

    /// A mutable reference to the first element.
    fn first_mut_res(&mut self) -> Result<&mut T, BoundsError>;

    /// The first element and the rest.
    fn split_first_res(&self) -> Result<(&T, &[T]), BoundsError>;

    /// Mutable references to the first element and to the rest.
    fn split_first_mut_res(&mut self) -> Result<(&mut T, &mut [T]), BoundsError>;

    /// The last element and the rest.
    fn split_last_res(&self) -> Result<(&T, &[T]), BoundsError>;

    /// Mutable references to the last element and to the rest.
    fn split_last_mut_res(&mut self) -> Result<(&mut T, &mut [T]), BoundsError>;

    /// The last element.
    fn last_res(&self) -> Result<&T, BoundsError>;

    /// A mutable reference to the last element.
    fn last_mut_res(&mut self) -> Result<&mut T, BoundsError>;

    /// The element at `index`.
    fn get_res(&self, index: usize) -> Result<&T, BoundsError>;

    /// The elements from `start` up to (not including) `end`.
    fn get_range_res(&self, start: usize, end: usize) -> Result<&[T], BoundsError>;

    /// A mutable reference to the element at `index`.
    fn get_mut_res(&mut self, index: usize) -> Result<&mut T, BoundsError>;
}

impl<T> SliceExt<T> for [T] {
    fn first_res(&self) -> (r: Result<&T, BoundsError>)
        ensures
            r is Ok <==> self@.len() > 0,
            r matches Ok(x) ==> *x == self@[0],
    {
        if self.len() > 0 {
            Ok(&self[0])
        } else {
            Err(BoundsError)
        }
    }

    fn first_mut_res(&mut self) -> (r: Result<&mut T, BoundsError>)
        ensures
            r is Ok <==> old(self)@.len() > 0,
            r is Ok ==> *r.unwrap() == old(self)@[0] && final(self)@ == old(self)@.update(
                0,
                *final(r.unwrap()),
            ),
            r is Err ==> final(self)@ == old(self)@,
    {
        match self.first_mut() {
            Some(x) => Ok(x),
            None => Err(BoundsError),
        }
    }

    fn split_first_res(&self) -> (r: Result<(&T, &[T]), BoundsError>)
        ensures
            r is Ok <==> self@.len() > 0,
            r matches Ok((x, rest)) ==> *x == self@[0] && rest@ == self@.drop_first(),
    {
        if self.len() > 0 {
            let (head, tail) = self.split_at(1);
            Ok((&head[0], tail))
        } else {
            Err(BoundsError)
        }
    }

    fn split_first_mut_res(&mut self) -> (r: Result<(&mut T, &mut [T]), BoundsError>)
        ensures
            r is Ok <==> old(self)@.len() > 0,
            r is Ok ==> *r.unwrap().0 == old(self)@[0] && r.unwrap().1@ == old(self)@.drop_first()
                && final(self)@ == seq![*final(r.unwrap().0)] + final(r.unwrap().1)@,
            r is Err ==> final(self)@ == old(self)@,
    {
        if self.len() > 0 {
            let (head, tail) = self.split_at_mut(1);
            match head.first_mut() {
                Some(x) => Ok((x, tail)),
                None => Err(BoundsError),
            }
        } else {
            Err(BoundsError)
        }
    }

    fn split_last_res(&self) -> (r: Result<(&T, &[T]), BoundsError>)
        ensures
            r is Ok <==> self@.len() > 0,
            r matches Ok((x, rest)) ==> *x == self@.last() && rest@ == self@.drop_last(),
    {
        if self.len() > 0 {
            let (init, last) = self.split_at(self.len() - 1);
            Ok((&last[0], init))
        } else {
            Err(BoundsError)
        }
    }

    fn split_last_mut_res(&mut self) -> (r: Result<(&mut T, &mut [T]), BoundsError>)
        ensures
            r is Ok <==> old(self)@.len() > 0,
            r is Ok ==> *r.unwrap().0 == old(self)@.last() && r.unwrap().1@ == old(self)@.drop_last()
                && final(self)@ == final(r.unwrap().1)@.push(*final(r.unwrap().0)),
            r is Err ==> final(self)@ == old(self)@,
    {
        if self.len() > 0 {
            let mid = self.len() - 1;
            let (init, last) = self.split_at_mut(mid);
            match last.first_mut() {
                Some(x) => Ok((x, init)),
                None => Err(BoundsError),
            }
        } else {
            Err(BoundsError)
        }
    }

    fn last_res(&self) -> (r: Result<&T, BoundsError>)
        ensures
            r is Ok <==> self@.len() > 0,
            r matches Ok(x) ==> *x == self@.last(),
    {
        if self.len() > 0 {
            Ok(&self[self.len() - 1])
        } else {
            Err(BoundsError)
        }
    }

    fn last_mut_res(&mut self) -> (r: Result<&mut T, BoundsError>)
        ensures
            r is Ok <==> old(self)@.len() > 0,
            r is Ok ==> *r.unwrap() == old(self)@.last() && final(self)@ == old(self)@.update(
                old(self)@.len() - 1,
                *final(r.unwrap()),
            ),
            r is Err ==> final(self)@ == old(self)@,
    {
        match self.last_mut() {
            Some(x) => Ok(x),
            None => Err(BoundsError),
        }
    }

    fn get_res(&self, index: usize) -> (r: Result<&T, BoundsError>)
        ensures
            r is Ok <==> index < self@.len(),
            r matches Ok(x) ==> *x == self@[index as int],
    {
        if index < self.len() {
            Ok(&self[index])
        } else {
            Err(BoundsError)
        }
    }

    fn get_range_res(&self, start: usize, end: usize) -> (r: Result<&[T], BoundsError>)
        ensures
            r is Ok <==> start <= end <= self@.len(),
            r matches Ok(s) ==> s@ == self@.subrange(start as int, end as int),
    {
        if start <= end && end <= self.len() {
            Ok(vstd::slice::slice_subrange(self, start, end))
        } else {
            Err(BoundsError)
        }
    }

    fn get_mut_res(&mut self, index: usize) -> (r: Result<&mut T, BoundsError>)
        ensures
            r is Ok <==> index < old(self)@.len(),
            r is Ok ==> *r.unwrap() == old(self)@[index as int] && final(self)@ == old(self)@.update(
                index as int,
                *final(r.unwrap()),
            ),
            r is Err ==> final(self)@ == old(self)@,
    {
        if index < self.len() {
            let (_init, rest) = self.split_at_mut(index);
            match rest.first_mut() {
                Some(x) => Ok(x),
                None => Err(BoundsError),
            }
        } else {
            Err(BoundsError)
        }
    }
}

} // verus!
