use vstd::prelude::*;

verus! {

/// A media port, known by its address.
#[derive(Clone, Copy, Debug, PartialEq, Eq, Structural)]
pub struct PjMediaPort {
    pub port: usize,
}

impl PjMediaPort {
    /// The address of the port.
    pub fn as_ptr(&self) -> (r: usize)
        ensures
            r == self.port,
    {
        self.port
    }

    /// The address of the port, for calls that change it.
    pub fn as_mut_ptr(&mut self) -> (r: usize)
        ensures
            r == old(self).port,
            *final(self) == *old(self),
    {
        self.port
    }

    pub fn from(value: usize) -> (r: Self)
        ensures
            r.port == value,
    {
        PjMediaPort { port: value }
    }
}

} // verus!
