use vstd::prelude::*;

use crate::pj::pool::PjPool;

verus! {

/// A master port, which drives the clock between two media ports, and the
/// pool it lives in.
pub struct PjMediaMasterPort {
    pub port: usize,
    pub pool: PjPool,
}

impl PjMediaMasterPort {
    /// The address of the master port.
    pub fn as_ptr(&self) -> (r: usize)
        ensures
            r == self.port,
    {
        self.port
    }

    /// The address of the master port, for calls that change it.
    pub fn as_mut_ptr(&mut self) -> (r: usize)
        ensures
            r == old(self).port,
            *final(self) == *old(self),
    {
        self.port
    }
}

} // verus!
