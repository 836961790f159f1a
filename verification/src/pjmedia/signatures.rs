use vstd::prelude::*;

verus! {

/// The signature of a WAV player port: "APWP".
pub const PJMEDIA_SIG_PORT_WAV_PLAYER: [u8; 4] = [0x41, 0x50, 0x57, 0x50];

/// The tag that opens a RIFF file: "RIFF".
pub const PJMEDIA_RIFF_TAG: [u8; 4] = [0x52, 0x49, 0x46, 0x46];

/// The form type of a WAVE file: "WAVE".
pub const PJMEDIA_WAVE_TAG: [u8; 4] = [0x57, 0x41, 0x56, 0x45];

/// The tag of the format chunk of a WAVE file: "fmt ".
pub const PJMEDIA_FMT_TAG: [u8; 4] = [0x66, 0x6d, 0x74, 0x20];

/// The tag of the data chunk of a WAVE file: "data".
pub const PJMEDIA_DATA_TAG: [u8; 4] = [0x64, 0x61, 0x74, 0x61];

} // verus!
