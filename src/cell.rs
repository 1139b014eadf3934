//! A write-once cell: the first value set wins and is read thereafter, for
//! values a session learns once (an id, a bound the robot reports).

use vstd::prelude::*;

verus! {

pub struct WriteOnce<T> {
    value: Option<T>,
}

impl<T> View for WriteOnce<T> {
    type V = Option<T>;

    closed spec fn view(&self) -> Option<T> {
        self.value
    }
}

impl<T> WriteOnce<T> {
    pub fn new() -> (r: WriteOnce<T>)
        ensures
            r@ is None,
    {
        WriteOnce { value: None }
    }

    /// Stores `v` if nothing is stored yet; tells whether it did.
    pub fn set(&mut self, v: T) -> (r: bool)
        ensures
            r == old(self)@ is None,
            final(self)@ == if r {
                Some(v)
            } else {
                old(self)@
            },
    {
        if self.value.is_none() {
            self.value = Some(v);
            true
        } else {
            false
        }
    }

    /// The stored value, if any (a polling read).
    pub fn get(&self) -> (r: Option<&T>)
        ensures
            r is Some == self@ is Some,
            r matches Some(x) ==> *x == self@.unwrap(),
    {
        match &self.value {
            Some(x) => Some(x),
            None => None,
        }
    }

    pub fn is_set(&self) -> (r: bool)
        ensures
            r == self@ is Some,
    {
        self.value.is_some()
    }
}

} // verus!
