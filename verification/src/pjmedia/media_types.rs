use vstd::prelude::*;

verus! {

/// The direction of a media stream (`pjmedia_dir`).
#[derive(Clone, Copy, Debug, PartialEq, Eq, Structural)]
pub enum PjMediaDir {
    /// None
    NoDirection,
    /// Encoding (outgoing to network) stream, also known as capture
    Encoding,
    /// Decoding (incoming from network) stream, also known as playback.
    Decoding,
    /// Incoming and outgoing stream, same as PJMEDIA_DIR_CAPTURE_PLAYBACK
    EncodingDecoding,
}

/// The number of a direction: a bit for encoding and a bit for decoding.
pub open spec fn spec_dir_value(d: PjMediaDir) -> u32 {
    match d {
        PjMediaDir::NoDirection => 0,
        PjMediaDir::Encoding => 1,
        PjMediaDir::Decoding => 2,
        PjMediaDir::EncodingDecoding => 3,
    }
}

impl PjMediaDir {
    /// None
    pub const NONE: PjMediaDir = PjMediaDir::NoDirection;

    /// Encoding (outgoing to network) stream, also known as capture
    pub const ENCODING: PjMediaDir = PjMediaDir::Encoding;

    /// Same as encoding direction.
    pub const CAPTURE: PjMediaDir = PjMediaDir::Encoding;

    /// Decoding (incoming from network) stream, also known as playback.
    pub const DECODING: PjMediaDir = PjMediaDir::Decoding;

    /// Same as decoding.
    pub const PLAYBACK: PjMediaDir = PjMediaDir::Decoding;

    /// Same as decoding.
    pub const RENDER: PjMediaDir = PjMediaDir::Decoding;

    /// Incoming and outgoing stream, same as PJMEDIA_DIR_CAPTURE_PLAYBACK
    pub const ENCODING_DECODING: PjMediaDir = PjMediaDir::EncodingDecoding;

    /// Same as ENCODING_DECODING
    pub const CAPTURE_PLAYBACK: PjMediaDir = PjMediaDir::EncodingDecoding;

    /// Same as ENCODING_DECODING
    pub const CAPTURE_RENDER: PjMediaDir = PjMediaDir::EncodingDecoding;

    /// The `pjmedia_dir` number of the direction.
    pub fn to_pjmedia_dir(self) -> (r: u32)
        ensures
            r == spec_dir_value(self),
    {
        match self {
            PjMediaDir::NoDirection => 0,
            PjMediaDir::Encoding => 1,
            PjMediaDir::Decoding => 2,
            PjMediaDir::EncodingDecoding => 3,
        }
    }
}

} // verus!
