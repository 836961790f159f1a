use vstd::prelude::*;

use crate::error::Error;
use crate::status::{PjStatus, PJ_SUCCESS};

verus! {

/// A SIP message to send, known by its address.
pub struct PjSipTxData {
    pub pjsip_tx_data: usize,
}

impl PjSipTxData {
    /// The message that creating a request gave: its address and the
    /// status of the call. A null address is refused before the status is
    /// looked at.
    pub fn from_created(status: i32, pjsip_tx_data: usize) -> (r: Result<PjSipTxData, Error>)
        ensures
            pjsip_tx_data == 0 ==> (r matches Err(Error::Validation(m)) && m@
                == "Got null creating PjSipTxData"@),
            pjsip_tx_data != 0 && status != PJ_SUCCESS ==> r == Err::<PjSipTxData, Error>(
                Error::PjError(PjStatus(status)),
            ),
            pjsip_tx_data != 0 && status == PJ_SUCCESS ==> (r matches Ok(t) && t.pjsip_tx_data
                == pjsip_tx_data),
    {
        if pjsip_tx_data == 0 {
            return Err(Error::Validation("Got null creating PjSipTxData".to_owned()));
        }
        match PjStatus::result_for_status(status) {
            Ok(()) => Ok(PjSipTxData { pjsip_tx_data }),
            Err(e) => Err(e),
        }
    }

    /// The address of the message.
    pub fn as_ptr(&self) -> (r: usize)
        ensures
            r == self.pjsip_tx_data,
    {
        self.pjsip_tx_data
    }

    /// The address of the message, for calls that change it.
    pub fn as_mut_ptr(&mut self) -> (r: usize)
        ensures
            r == old(self).pjsip_tx_data,
            *final(self) == *old(self),
    {
        self.pjsip_tx_data
    }
}

} // verus!
