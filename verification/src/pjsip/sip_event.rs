use vstd::prelude::*;

verus! {

/// A SIP event, known by its address.
pub struct PjSipEvent {
    pub pjsip_event: usize,
}

impl PjSipEvent {
    pub fn from(value: usize) -> (r: Self)
        ensures
            r.pjsip_event == value,
    {
        PjSipEvent { pjsip_event: value }
    }
}

} // verus!
