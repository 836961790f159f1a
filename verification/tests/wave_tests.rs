use pjproject::errno::{PJMEDIA_ENOTVALIDWAVE, PJMEDIA_EWAVEUNSUPP};
use pjproject::pjmedia::fourcc_to_int;
use pjproject::pjmedia::signatures::{
    PJMEDIA_DATA_TAG, PJMEDIA_FMT_TAG, PJMEDIA_RIFF_TAG, PJMEDIA_SIG_PORT_WAV_PLAYER,
    PJMEDIA_WAVE_TAG,
};
use pjproject::pjmedia::wave::{
    alaw_to_linear, ulaw_to_linear, PjMediaWaveHdr, PJMEDIA_WAVE_FMT_TAG_ALAW,
    PJMEDIA_WAVE_FMT_TAG_PCM, PJMEDIA_WAVE_FMT_TAG_ULAW, PJMEDIA_WAVE_HDR_SIZE,
};
use pjproject::status::PJ_SUCCESS;

fn header(fmt_tag: u16, nchan: u16, rate: u32, block_align: u16, bits: u16) -> Vec<u8> {
    let mut h = Vec::new();
    h.extend_from_slice(b"RIFF");
    h.extend_from_slice(&1000u32.to_le_bytes());
    h.extend_from_slice(b"WAVE");
    h.extend_from_slice(b"fmt ");
    h.extend_from_slice(&16u32.to_le_bytes());
    h.extend_from_slice(&fmt_tag.to_le_bytes());
    h.extend_from_slice(&nchan.to_le_bytes());
    h.extend_from_slice(&rate.to_le_bytes());
    h.extend_from_slice(&(rate * block_align as u32).to_le_bytes());
    h.extend_from_slice(&block_align.to_le_bytes());
    h.extend_from_slice(&bits.to_le_bytes());
    h.extend_from_slice(b"data");
    h.extend_from_slice(&956u32.to_le_bytes());
    h
}

#[test]
fn fourcc_packs_little_endian() {
    assert_eq!(fourcc_to_int(&PJMEDIA_RIFF_TAG), u32::from_le_bytes(*b"RIFF"));
    assert_eq!(fourcc_to_int(&PJMEDIA_SIG_PORT_WAV_PLAYER), u32::from_le_bytes(*b"APWP"));
    assert_eq!(fourcc_to_int(&[1, 2, 3, 4]), 0x0403_0201);
    assert_ne!(fourcc_to_int(&PJMEDIA_WAVE_TAG), fourcc_to_int(&PJMEDIA_DATA_TAG));
}

#[test]
fn tags_are_the_riff_names() {
    assert_eq!(&PJMEDIA_RIFF_TAG, b"RIFF");
    assert_eq!(&PJMEDIA_WAVE_TAG, b"WAVE");
    assert_eq!(&PJMEDIA_FMT_TAG, b"fmt ");
    assert_eq!(&PJMEDIA_DATA_TAG, b"data");
}

#[test]
fn header_fields_read_little_endian() {
    let h = header(PJMEDIA_WAVE_FMT_TAG_PCM, 2, 8000, 4, 16);
    assert_eq!(h.len(), PJMEDIA_WAVE_HDR_SIZE);
    let hdr = PjMediaWaveHdr::from_bytes(&h);
    assert_eq!(hdr.fmt_tag, 1);
    assert_eq!(hdr.nchan, 2);
    assert_eq!(hdr.sample_rate, 8000);
    assert_eq!(hdr.bytes_per_sec, 32000);
    assert_eq!(hdr.block_align, 4);
    assert_eq!(hdr.bits_per_sample, 16);
    assert_eq!(hdr.file_len, 1000);
    assert_eq!(hdr.data_len, 956);
    assert!(hdr.tags_valid());
}

#[test]
fn a_wrong_tag_is_caught() {
    let mut h = header(PJMEDIA_WAVE_FMT_TAG_PCM, 1, 8000, 2, 16);
    h[8] = b'X';
    assert!(!PjMediaWaveHdr::from_bytes(&h).tags_valid());
}

#[test]
fn format_status_per_format() {
    let ok_pcm = PjMediaWaveHdr::from_bytes(&header(PJMEDIA_WAVE_FMT_TAG_PCM, 1, 8000, 2, 16));
    assert_eq!(ok_pcm.format_status(), PJ_SUCCESS);
    let bad_pcm = PjMediaWaveHdr::from_bytes(&header(PJMEDIA_WAVE_FMT_TAG_PCM, 1, 8000, 1, 8));
    assert_eq!(bad_pcm.format_status(), PJMEDIA_EWAVEUNSUPP);
    let ok_ulaw = PjMediaWaveHdr::from_bytes(&header(PJMEDIA_WAVE_FMT_TAG_ULAW, 1, 8000, 1, 8));
    assert_eq!(ok_ulaw.format_status(), PJ_SUCCESS);
    let bad_alaw = PjMediaWaveHdr::from_bytes(&header(PJMEDIA_WAVE_FMT_TAG_ALAW, 1, 8000, 2, 16));
    assert_eq!(bad_alaw.format_status(), PJMEDIA_ENOTVALIDWAVE);
    let other = PjMediaWaveHdr::from_bytes(&header(3, 1, 8000, 4, 32));
    assert_eq!(other.format_status(), PJMEDIA_EWAVEUNSUPP);
}

#[test]
fn ulaw_expansion_values() {
    assert_eq!(ulaw_to_linear(0xFF), 0);
    assert_eq!(ulaw_to_linear(0x7F), 0);
    assert_eq!(ulaw_to_linear(0x00), -32124);
    assert_eq!(ulaw_to_linear(0x80), 32124);
    assert_eq!(ulaw_to_linear(0x0F), -16764);
    assert_eq!(ulaw_to_linear(0x8F), 16764);
}

#[test]
fn alaw_expansion_values() {
    assert_eq!(alaw_to_linear(0xD5), 8);
    assert_eq!(alaw_to_linear(0x55), -8);
    assert_eq!(alaw_to_linear(0x2A), -32256);
    assert_eq!(alaw_to_linear(0xAA), 32256);
    assert_eq!(alaw_to_linear(0x00), -5504);
    assert_eq!(alaw_to_linear(0x80), 5504);
}
