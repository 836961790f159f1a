use vstd::prelude::*;

use crate::pjsip::sip_types::{HostPortData, PjSipHostPortRef};

verus! {

/// A UDP transport of SIP, known by its address, and the host and port it
/// is known by.
pub struct PjSipTransportUdp {
    pub pjsip_transport: usize,
    pub local_name: HostPortData,
}

impl PjSipTransportUdp {
    /// The host and port that the transport is known by.
    pub fn local_name(&self) -> (r: PjSipHostPortRef)
        ensures
            r.pjsip_host_port == self.local_name,
    {
        PjSipHostPortRef::from(self.local_name.clone())
    }
}

} // verus!
