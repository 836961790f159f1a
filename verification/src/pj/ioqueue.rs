use std::marker::PhantomData;

use vstd::prelude::*;

verus! {

/// An I/O queue of pjlib, known by its address.
pub struct PjIoqueue<'a> {
    pub ioqueue: usize,
    pub marker: PhantomData<&'a ()>,
}

impl<'a> PjIoqueue<'a> {
    /// The address of the I/O queue.
    pub fn as_ptr(&self) -> (r: usize)
        ensures
            r == self.ioqueue,
    {
        self.ioqueue
    }

    /// The address of the I/O queue, for calls that change it.
    pub fn as_mut_ptr(&self) -> (r: usize)
        ensures
            r == self.ioqueue,
    {
        self.ioqueue
    }

    pub fn from(value: usize) -> (r: Self)
        ensures
            r.ioqueue == value,
    {
        PjIoqueue { ioqueue: value, marker: PhantomData }
    }
}

} // verus!
