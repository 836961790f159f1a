use bytes::BytesMut;
use vstd::prelude::*;

use crate::error::Error;
use crate::pjmedia::packet_buf::{
    bytes_mut_contents, bytes_mut_extend_from_slice, bytes_mut_with_capacity,
};
use crate::text::{decimal_signed, spec_decimal_signed};

verus! {

/// An RTCP compound packet.
pub struct RtcpPacket(pub BytesMut);

impl RtcpPacket {
    /// Builds the packet from what building an RTCP packet gave: its bytes
    /// and its length. A length that is not positive is refused; else the
    /// packet holds the first `rtcp_len` bytes.
    pub fn from_built(pkt: &[u8], rtcp_len: i32) -> (r: Result<Self, Error>)
        requires
            rtcp_len > 0 ==> pkt@.len() >= rtcp_len,
        ensures
            rtcp_len <= 0 ==> (r matches Err(Error::Validation(m)) && m@ == "Invalid rtcp packet: "@
                + spec_decimal_signed(rtcp_len as int)),
            rtcp_len > 0 ==> (r matches Ok(p) && bytes_mut_contents(p.0) == pkt@.subrange(
                0,
                rtcp_len as int,
            )),
    {
        if rtcp_len <= 0 {
            let mut msg = "Invalid rtcp packet: ".to_owned();
            msg.append(decimal_signed(rtcp_len as i64).as_str());
            return Err(Error::Validation(msg));
        }
        let len = rtcp_len as usize;
        let mut b = bytes_mut_with_capacity(len);
        bytes_mut_extend_from_slice(&mut b, &pkt[0..len]);
        proof {
            assert(bytes_mut_contents(b) =~= pkt@.subrange(0, rtcp_len as int));
        }
        Ok(RtcpPacket(b))
    }
}

} // verus!
