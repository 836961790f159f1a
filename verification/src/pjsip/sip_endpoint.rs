use vstd::prelude::*;

use crate::pj::pool::PjCachingPool;

verus! {

/// The port that SIP listens on by default.
pub const DEFAULT_SIP_PORT: u16 = 5060;

/// A SIP endpoint and the caching pool it allocates from.
pub struct PjSipEndpoint {
    pub pjsip_endpoint: usize,
    pub caching_pool: PjCachingPool,
}

impl PjSipEndpoint {
    /// The address of the endpoint.
    pub fn as_mut_ptr(&self) -> (r: usize)
        ensures
            r == self.pjsip_endpoint,
    {
        self.pjsip_endpoint
    }
}

} // verus!
