use vstd::prelude::*;

verus! {

/// A high-resolution timestamp (`pj_timestamp`), read as one 64-bit count.
#[derive(Clone, Copy, Debug, PartialEq, Eq, Structural)]
pub struct PjTimestamp(pub u64);

impl PjTimestamp {
    pub fn ts(&self) -> (r: u64)
        ensures
            r == self.0,
    {
        self.0
    }

    pub fn set_ts(&mut self, ts: u64)
        ensures
            final(self).0 == ts,
    {
        self.0 = ts;
    }
}

} // verus!
