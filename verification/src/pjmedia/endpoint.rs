use vstd::prelude::*;

use crate::pj::pool::PjCachingPool;

verus! {

/// A media endpoint of pjmedia and the caching pool it allocates from.
pub struct PjMediaEndpt {
    pub endpt: PjMediaEndptRef,
    pub caching_pool: PjCachingPool,
}

impl PjMediaEndpt {
    /// The address of the endpoint.
    pub fn as_ptr(&self) -> (r: usize)
        ensures
            r == self.endpt.endpt,
    {
        self.endpt.as_ptr()
    }

    /// The address of the endpoint, for calls that change it.
    pub fn as_mut_ptr(&self) -> (r: usize)
        ensures
            r == self.endpt.endpt,
    {
        self.endpt.as_ptr()
    }

    pub fn as_ref(&self) -> (r: &PjMediaEndptRef)
        ensures
            *r == self.endpt,
    {
        &self.endpt
    }

    pub fn as_mut(&mut self) -> (r: &mut PjMediaEndptRef)
        ensures
            *r == old(self).endpt,
            final(self).endpt == *final(r),
    {
        &mut self.endpt
    }
}

/// A media endpoint, known by its address.
#[derive(Clone, Copy, Debug, PartialEq, Eq, Structural)]
pub struct PjMediaEndptRef {
    pub endpt: usize,
}

impl PjMediaEndptRef {
    pub fn as_ptr(&self) -> (r: usize)
        ensures
            r == self.endpt,
    {
        self.endpt
    }

    pub fn from(value: usize) -> (r: Self)
        ensures
            r.endpt == value,
    {
        PjMediaEndptRef { endpt: value }
    }
}

} // verus!
