use std::marker::PhantomData;

use vstd::prelude::*;

verus! {

/// The identity of a codec (`pjmedia_codec_info`).
#[derive(Debug)]
pub struct CodecInfoData {
    /// The media type.
    pub type_: u32,
    /// The RTP payload type.
    pub pt: u32,
    pub encoding_name: String,
    pub clock_rate: u32,
    pub channel_cnt: u32,
}

impl Clone for CodecInfoData {
    fn clone(&self) -> (r: Self)
        ensures
            r == *self,
    {
        CodecInfoData {
            type_: self.type_,
            pt: self.pt,
            encoding_name: self.encoding_name.clone(),
            clock_rate: self.clock_rate,
            channel_cnt: self.channel_cnt,
        }
    }
}

/// A codec's identity that this value owns.
#[derive(Debug)]
pub struct PjMediaCodec {
    pub codec: PjMediaCodecRef<'static>,
}

impl PjMediaCodec {
    pub fn as_ptr(&mut self) -> (r: &CodecInfoData)
        ensures
            *r == old(self).codec.codec,
            *final(self) == *old(self),
    {
        &self.codec.codec
    }

    pub fn as_mut_ptr(&mut self) -> (r: &mut CodecInfoData)
        ensures
            *r == old(self).codec.codec,
            final(self).codec.codec == *final(r),
    {
        &mut self.codec.codec
    }

    pub fn as_ref(&self) -> (r: &PjMediaCodecRef<'static>)
        ensures
            *r == self.codec,
    {
        &self.codec
    }
}

/// A view of a codec's identity.
#[derive(Debug)]
pub struct PjMediaCodecRef<'a> {
    pub codec: CodecInfoData,
    pub phantom: PhantomData<&'a ()>,
}

impl<'a> PjMediaCodecRef<'a> {
    pub fn as_ptr(&self) -> (r: &CodecInfoData)
        ensures
            *r == self.codec,
    {
        &self.codec
    }

    pub fn as_ref(&self) -> (r: &CodecInfoData)
        ensures
            *r == self.codec,
    {
        &self.codec
    }

    pub fn type_(&self) -> (r: u32)
        ensures
            r == self.codec.type_,
    {
        self.codec.type_
    }

    pub fn pt(&self) -> (r: u32)
        ensures
            r == self.codec.pt,
    {
        self.codec.pt
    }

    pub fn encoding_name(&self) -> (r: &str)
        ensures
            r@ == self.codec.encoding_name@,
    {
        self.codec.encoding_name.as_str()
    }

    pub fn clock_rate(&self) -> (r: u32)
        ensures
            r == self.codec.clock_rate,
    {
        self.codec.clock_rate
    }

    pub fn channel(&self) -> (r: u32)
        ensures
            r == self.codec.channel_cnt,
    {
        self.codec.channel_cnt
    }

    pub fn from(value: CodecInfoData) -> (r: Self)
        ensures
            r.codec == value,
    {
        PjMediaCodecRef { codec: value, phantom: PhantomData }
    }
}

} // verus!
