use vstd::prelude::*;

use crate::pj::pool::PjPool;

verus! {

/// A media event manager and the pool it lives in.
pub struct PjMediaEventMgr {
    pub event_mgr: usize,
    pub pool: PjPool,
}

impl PjMediaEventMgr {
    /// The address of the event manager.
    pub fn as_ptr(&self) -> (r: usize)
        ensures
            r == self.event_mgr,
    {
        self.event_mgr
    }
}

} // verus!
