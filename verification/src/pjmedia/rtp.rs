use bytes::BytesMut;
use vstd::prelude::*;

use crate::error::Error;
use crate::pjmedia::packet_buf::{bytes_mut_contents, bytes_mut_copy_at, bytes_mut_zeroed};
use crate::status::{PjStatus, PJ_SUCCESS};
use crate::text::{decimal_signed, spec_decimal_signed};

verus! {

/// An RTP packet: the header and the payload, in one buffer.
pub struct RtpPacket(pub BytesMut);

impl RtpPacket {
    /// Builds the packet from what encoding its RTP header gave: the
    /// status, the header bytes and the header length. A header length that
    /// is not positive is refused before the status is looked at; else the
    /// packet is the header followed by `payload`, if the status is success.
    pub fn from_encoded_header(status: i32, hdr: &[u8], hdrlen: i32, payload: &[u8]) -> (r:
        Result<Self, Error>)
        requires
            hdrlen > 0 ==> hdr@.len() >= hdrlen,
            hdrlen > 0 ==> hdrlen + payload@.len() <= usize::MAX,
        ensures
            hdrlen <= 0 ==> (r matches Err(Error::Validation(m)) && m@ == "invalid rtp hdrlen: "@
                + spec_decimal_signed(hdrlen as int)),
            hdrlen > 0 && status != PJ_SUCCESS ==> r == Err::<Self, Error>(
                Error::PjError(PjStatus(status)),
            ),
            hdrlen > 0 && status == PJ_SUCCESS ==> (r matches Ok(p) && bytes_mut_contents(p.0)
                == hdr@.subrange(0, hdrlen as int) + payload@),
    {
        if hdrlen <= 0 {
            let mut msg = "invalid rtp hdrlen: ".to_owned();
            msg.append(decimal_signed(hdrlen as i64).as_str());
            return Err(Error::Validation(msg));
        }
        let hdrlen = hdrlen as usize;
        let mut packet = bytes_mut_zeroed(hdrlen + payload.len());
        let header = &hdr[0..hdrlen];
        bytes_mut_copy_at(&mut packet, 0, header);
        bytes_mut_copy_at(&mut packet, hdrlen, payload);
        proof {
            assert(bytes_mut_contents(packet) =~= hdr@.subrange(0, hdrlen as int) + payload@);
        }
        match PjStatus::result_for_status(status) {
            Ok(()) => Ok(RtpPacket(packet)),
            Err(e) => Err(e),
        }
    }
}

} // verus!
