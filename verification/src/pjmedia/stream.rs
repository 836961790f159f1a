use vstd::prelude::*;

use crate::pj::pool::PjPool;
use crate::pj::sock::{PjSockaddrRef, SockaddrData};
use crate::pjmedia::codec::{CodecInfoData, PjMediaCodecRef};

verus! {

/// A media stream and the pool it lives in.
pub struct PjMediaStream {
    pub stream: usize,
    pub pool: PjPool,
}

impl PjMediaStream {
    /// The address of the stream.
    pub fn as_ptr(&self) -> (r: usize)
        ensures
            r == self.stream,
    {
        self.stream
    }

    /// The address of the stream, for calls that change it.
    pub fn as_mut_ptr(&self) -> (r: usize)
        ensures
            r == self.stream,
    {
        self.stream
    }
}

/// What a media stream is set up with (`pjmedia_stream_info`): the codec,
/// the payload type it sends, the remote RTP and RTCP addresses, and
/// whether voice activity detection is on.
pub struct StreamInfoData {
    pub fmt: CodecInfoData,
    pub tx_pt: u32,
    pub rem_addr: SockaddrData,
    pub rem_rtcp: SockaddrData,
    pub vad: bool,
}

/// The setup of a media stream.
pub struct PjMediaStreamInfo {
    pub stream_info: StreamInfoData,
}

impl PjMediaStreamInfo {
    /// The codec.
    pub fn fmt<'a>(&'a self) -> (r: PjMediaCodecRef<'a>)
        ensures
            r.codec == self.stream_info.fmt,
    {
        PjMediaCodecRef::from(self.stream_info.fmt.clone())
    }

    /// The payload type that the stream sends.
    pub fn tx_pt(&self) -> (r: u32)
        ensures
            r == self.stream_info.tx_pt,
    {
        self.stream_info.tx_pt
    }

    /// The remote RTP address.
    pub fn rem_addr<'a>(&'a self) -> (r: PjSockaddrRef<'a>)
        ensures
            r.sockaddr == self.stream_info.rem_addr,
    {
        PjSockaddrRef::from(self.stream_info.rem_addr)
    }

    /// The remote RTCP address.
    pub fn rem_rtcp<'a>(&'a self) -> (r: PjSockaddrRef<'a>)
        ensures
            r.sockaddr == self.stream_info.rem_rtcp,
    {
        PjSockaddrRef::from(self.stream_info.rem_rtcp)
    }

    /// Whether voice activity detection is on.
    pub fn vad_enabled(&self) -> (r: bool)
        ensures
            r == self.stream_info.vad,
    {
        self.stream_info.vad
    }

    pub fn disable_vad(&mut self)
        ensures
            !final(self).stream_info.vad,
            final(self).stream_info.fmt == old(self).stream_info.fmt,
            final(self).stream_info.tx_pt == old(self).stream_info.tx_pt,
            final(self).stream_info.rem_addr == old(self).stream_info.rem_addr,
            final(self).stream_info.rem_rtcp == old(self).stream_info.rem_rtcp,
    {
        self.stream_info.vad = false;
    }

    pub fn enable_vad(&mut self)
        ensures
            final(self).stream_info.vad,
            final(self).stream_info.fmt == old(self).stream_info.fmt,
            final(self).stream_info.tx_pt == old(self).stream_info.tx_pt,
            final(self).stream_info.rem_addr == old(self).stream_info.rem_addr,
            final(self).stream_info.rem_rtcp == old(self).stream_info.rem_rtcp,
    {
        self.stream_info.vad = true;
    }
}

} // verus!
