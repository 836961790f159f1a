use vstd::prelude::*;

use crate::errno::{PJMEDIA_ENOTVALIDWAVE, PJMEDIA_EWAVEUNSUPP};
use crate::pjmedia::signatures::{
    PJMEDIA_DATA_TAG, PJMEDIA_FMT_TAG, PJMEDIA_RIFF_TAG, PJMEDIA_WAVE_TAG,
};
use crate::pjmedia::{fourcc_to_int, fourcc_value, lemma_fourcc_injective};
use crate::status::PJ_SUCCESS;

verus! {

/// The size in bytes of the canonical WAVE file header.
pub const PJMEDIA_WAVE_HDR_SIZE: usize = 44;

/// The format tag of linear PCM samples.
pub const PJMEDIA_WAVE_FMT_TAG_PCM: u16 = 1;

/// The format tag of A-law samples.
pub const PJMEDIA_WAVE_FMT_TAG_ALAW: u16 = 6;

/// The format tag of u-law samples.
pub const PJMEDIA_WAVE_FMT_TAG_ULAW: u16 = 7;

/// The canonical 44-byte header of a WAVE file: the RIFF header, the format
/// chunk and the head of the data chunk, each field as the file stores it.
#[derive(Clone, Copy, Debug, PartialEq, Eq, Structural)]
pub struct PjMediaWaveHdr {
    pub riff: u32,
    pub file_len: u32,
    pub wave: u32,
    pub fmt: u32,
    pub fmt_len: u32,
    pub fmt_tag: u16,
    pub nchan: u16,
    pub sample_rate: u32,
    pub bytes_per_sec: u32,
    pub block_align: u16,
    pub bits_per_sample: u16,
    pub data: u32,
    pub data_len: u32,
}

/// The little-endian 16-bit number at `off`.
pub open spec fn le_u16(s: Seq<u8>, off: int) -> u16 {
    (s[off] as int + s[off + 1] as int * 256) as u16
}

/// The little-endian 32-bit number at `off`.
pub open spec fn le_u32(s: Seq<u8>, off: int) -> u32 {
    (s[off] as int + s[off + 1] as int * 256 + s[off + 2] as int * 65536 + s[off + 3] as int
        * 16777216) as u32
}

/// The header that the first 44 bytes of `s` hold, every field read
/// little-endian, as WAVE files store them.
pub open spec fn spec_wave_hdr(s: Seq<u8>) -> PjMediaWaveHdr {
    PjMediaWaveHdr {
        riff: le_u32(s, 0),
        file_len: le_u32(s, 4),
        wave: le_u32(s, 8),
        fmt: le_u32(s, 12),
        fmt_len: le_u32(s, 16),
        fmt_tag: le_u16(s, 20),
        nchan: le_u16(s, 22),
        sample_rate: le_u32(s, 24),
        bytes_per_sec: le_u32(s, 28),
        block_align: le_u16(s, 32),
        bits_per_sample: le_u16(s, 34),
        data: le_u32(s, 36),
        data_len: le_u32(s, 40),
    }
}

fn read_le_u16(s: &[u8], off: usize) -> (r: u16)
    requires
        off + 2 <= s@.len(),
    ensures
        r == le_u16(s@, off as int),
{
    (s[off] as u16) + (s[off + 1] as u16) * 256
}

fn read_le_u32(s: &[u8], off: usize) -> (r: u32)
    requires
        off + 4 <= s@.len(),
    ensures
        r == le_u32(s@, off as int),
{
    (s[off] as u32) + (s[off + 1] as u32) * 256 + (s[off + 2] as u32) * 65536 + (s[off + 3] as u32)
        * 16777216
}

impl PjMediaWaveHdr {
    /// Reads the header from the first 44 bytes of `data`.
    pub fn from_bytes(data: &[u8]) -> (r: Self)
        requires
            data@.len() >= PJMEDIA_WAVE_HDR_SIZE,
        ensures
            r == spec_wave_hdr(data@),
    {
        PjMediaWaveHdr {
            riff: read_le_u32(data, 0),
            file_len: read_le_u32(data, 4),
            wave: read_le_u32(data, 8),
            fmt: read_le_u32(data, 12),
            fmt_len: read_le_u32(data, 16),
            fmt_tag: read_le_u16(data, 20),
            nchan: read_le_u16(data, 22),
            sample_rate: read_le_u32(data, 24),
            bytes_per_sec: read_le_u32(data, 28),
            block_align: read_le_u16(data, 32),
            bits_per_sample: read_le_u16(data, 34),
            data: read_le_u32(data, 36),
            data_len: read_le_u32(data, 40),
        }
    }

    /// The four chunk tags are those of a WAVE file: "RIFF", "WAVE", "fmt "
    /// and "data".
    pub open spec fn spec_tags_valid(self) -> bool {
        &&& self.riff == fourcc_value(PJMEDIA_RIFF_TAG@)
        &&& self.wave == fourcc_value(PJMEDIA_WAVE_TAG@)
        &&& self.fmt == fourcc_value(PJMEDIA_FMT_TAG@)
        &&& self.data == fourcc_value(PJMEDIA_DATA_TAG@)
    }

    /// Checking the format overflows a 16-bit product: linear PCM with
    /// 16 bits per sample and 32768 channels or more.
    pub open spec fn spec_format_check_overflows(self) -> bool {
        self.fmt_tag == PJMEDIA_WAVE_FMT_TAG_PCM && self.bits_per_sample == 16 && 2 * self.nchan
            > u16::MAX
    }

    /// The status of the format check: linear PCM must have 16 bits per
    /// sample and 2 bytes per channel in a block, else it is unsupported;
    /// A-law and u-law must have 8 bits per sample and 1 byte per channel,
    /// else the file is not valid; every other format is unsupported.
    pub open spec fn spec_format_status(self) -> i32 {
        if self.fmt_tag == PJMEDIA_WAVE_FMT_TAG_PCM {
            if self.bits_per_sample != 16 || self.block_align != 2 * self.nchan {
                PJMEDIA_EWAVEUNSUPP
            } else {
                PJ_SUCCESS
            }
        } else if self.fmt_tag == PJMEDIA_WAVE_FMT_TAG_ALAW || self.fmt_tag
            == PJMEDIA_WAVE_FMT_TAG_ULAW {
            if self.bits_per_sample != 8 || self.block_align != self.nchan {
                PJMEDIA_ENOTVALIDWAVE
            } else {
                PJ_SUCCESS
            }
        } else {
            PJMEDIA_EWAVEUNSUPP
        }
    }

    /// Whether the chunk tags are those of a WAVE file.
    pub fn tags_valid(&self) -> (r: bool)
        ensures
            r == self.spec_tags_valid(),
    {
        self.riff == fourcc_to_int(&PJMEDIA_RIFF_TAG) && self.wave == fourcc_to_int(
            &PJMEDIA_WAVE_TAG,
        ) && self.fmt == fourcc_to_int(&PJMEDIA_FMT_TAG) && self.data == fourcc_to_int(
            &PJMEDIA_DATA_TAG,
        )
    }

    /// The status of the format check (see `spec_format_status`).
    pub fn format_status(&self) -> (r: i32)
        requires
            !self.spec_format_check_overflows(),
        ensures
            r == self.spec_format_status(),
            self.fmt_tag == PJMEDIA_WAVE_FMT_TAG_PCM && self.bits_per_sample == 16 ==> (r
                == PJ_SUCCESS <==> self.block_align as int == 2 * (self.nchan as int)),
            (self.fmt_tag == PJMEDIA_WAVE_FMT_TAG_ALAW || self.fmt_tag
                == PJMEDIA_WAVE_FMT_TAG_ULAW) && self.bits_per_sample == 8 ==> (r == PJ_SUCCESS
                <==> self.block_align == self.nchan),
    {
        if self.fmt_tag == PJMEDIA_WAVE_FMT_TAG_PCM {
            if self.bits_per_sample != 16 || self.block_align != 2 * self.nchan {
                PJMEDIA_EWAVEUNSUPP
            } else {
                PJ_SUCCESS
            }
        } else if self.fmt_tag == PJMEDIA_WAVE_FMT_TAG_ALAW || self.fmt_tag
            == PJMEDIA_WAVE_FMT_TAG_ULAW {
            if self.bits_per_sample != 8 || self.block_align != self.nchan {
                PJMEDIA_ENOTVALIDWAVE
            } else {
                PJ_SUCCESS
            }
        } else {
            PJMEDIA_EWAVEUNSUPP
        }
    }
}

/// The 16-bit linear sample that a G.711 u-law byte stands for.
pub open spec fn spec_ulaw_to_linear(u_val: u8) -> i16 {
    let u = (!u_val) as u32;
    let t = ((((u & 0x0f) << 3u32) + 0x84) as u32) << ((u & 0x70) >> 4u32);
    if u & 0x80 != 0 {
        (0x84 - t) as i16
    } else {
        (t - 0x84) as i16
    }
}

/// The 16-bit linear sample that a G.711 A-law byte stands for.
pub open spec fn spec_alaw_to_linear(a_val: u8) -> i16 {
    let a = (a_val ^ 0x55u8) as u32;
    let seg = (a & 0x70) >> 4u32;
    let base = (a & 0x0f) << 4u32;
    let t: u32 = if seg == 0 {
        (base + 8) as u32
    } else if seg == 1 {
        (base + 0x108) as u32
    } else {
        ((base + 0x108) as u32) << ((seg - 1) as u32)
    };
    if a & 0x80 != 0 {
        t as i16
    } else {
        (-(t as int)) as i16
    }
}

/// Expands a G.711 u-law byte to a 16-bit linear sample.
pub fn ulaw_to_linear(u_val: u8) -> (r: i16)
    ensures
        r == spec_ulaw_to_linear(u_val),
{
    let u: u32 = (!u_val) as u32;
    let q: u32 = u & 0x0f;
    let seg: u32 = (u & 0x70) >> 4u32;
    assert(q <= 15 && seg <= 7) by (bit_vector)
        requires
            q == u & 0x0f,
            seg == (u & 0x70) >> 4u32,
    ;
    assert(q << 3u32 <= 120) by (bit_vector)
        requires
            q <= 15,
    ;
    let t0: u32 = (q << 3u32) + 0x84;
    let t: u32 = t0 << seg;
    assert(t0 << seg <= 32256 && t0 << seg >= 0x84) by (bit_vector)
        requires
            t0 <= 252,
            t0 >= 0x84,
            seg <= 7,
    ;
    if u & 0x80 != 0 {
        (0x84 - (t as i32)) as i16
    } else {
        ((t as i32) - 0x84) as i16
    }
}

/// Expands a G.711 A-law byte to a 16-bit linear sample.
pub fn alaw_to_linear(a_val: u8) -> (r: i16)
    ensures
        r == spec_alaw_to_linear(a_val),
{
    let a: u32 = (a_val ^ 0x55u8) as u32;
    let seg: u32 = (a & 0x70) >> 4u32;
    let q: u32 = a & 0x0f;
    assert(q <= 15 && seg <= 7) by (bit_vector)
        requires
            q == a & 0x0f,
            seg == (a & 0x70) >> 4u32,
    ;
    let base: u32 = q << 4u32;
    assert(q << 4u32 <= 240) by (bit_vector)
        requires
            q <= 15,
    ;
    let t: u32 = if seg == 0 {
        base + 8
    } else if seg == 1 {
        base + 0x108
    } else {
        let b = base + 0x108;
        let sh: u32 = seg - 1;
        assert(b << sh <= 32256) by (bit_vector)
            requires
                b <= 504,
                sh <= 6,
        ;
        b << sh
    };
    if a & 0x80 != 0 {
        t as i16
    } else {
        (-(t as i32)) as i16
    }
}

/// A 32-bit field of the header is the four-character code of its bytes.
pub proof fn lemma_le_u32_is_fourcc(s: Seq<u8>, off: int)
    requires
        0 <= off,
        off + 4 <= s.len(),
    ensures
        le_u32(s, off) == fourcc_value(s.subrange(off, off + 4)),
{
}

/// The header check on the chunk tags is a check of the bytes: the header
/// of `data` has valid tags exactly when its bytes 0..4 spell "RIFF", 8..12
/// "WAVE", 12..16 "fmt " and 36..40 "data".
pub proof fn lemma_tags_are_bytes(data: Seq<u8>)
    requires
        data.len() >= PJMEDIA_WAVE_HDR_SIZE,
    ensures
        spec_wave_hdr(data).spec_tags_valid() <==> {
            &&& data.subrange(0, 4) == PJMEDIA_RIFF_TAG@
            &&& data.subrange(8, 12) == PJMEDIA_WAVE_TAG@
            &&& data.subrange(12, 16) == PJMEDIA_FMT_TAG@
            &&& data.subrange(36, 40) == PJMEDIA_DATA_TAG@
        },
{
    lemma_le_u32_is_fourcc(data, 0);
    lemma_le_u32_is_fourcc(data, 8);
    lemma_le_u32_is_fourcc(data, 12);
    lemma_le_u32_is_fourcc(data, 36);
    if spec_wave_hdr(data).spec_tags_valid() {
        lemma_fourcc_injective(data.subrange(0, 4), PJMEDIA_RIFF_TAG@);
        lemma_fourcc_injective(data.subrange(8, 12), PJMEDIA_WAVE_TAG@);
        lemma_fourcc_injective(data.subrange(12, 16), PJMEDIA_FMT_TAG@);
        lemma_fourcc_injective(data.subrange(36, 40), PJMEDIA_DATA_TAG@);
    }
}

/// The A-law byte of the positive level numbered `c` (0 to 127): the
/// segment in bits 4 to 6, the step within it in bits 0 to 3, the sign
/// bit set, and the even bits inverted, as G.711 sends them.
pub open spec fn alaw_positive_byte(c: u8) -> u8 {
    (c | 0x80u8) ^ 0x55u8
}

/// The A-law byte of the negative level numbered `c`.
pub open spec fn alaw_negative_byte(c: u8) -> u8 {
    c ^ 0x55u8
}

/// The u-law byte of the positive level numbered `c` (0 to 127): G.711
/// sends u-law bytes inverted, the sign bit then set for positive levels.
pub open spec fn ulaw_positive_byte(c: u8) -> u8 {
    !c
}

/// The u-law byte of the negative level numbered `c`.
pub open spec fn ulaw_negative_byte(c: u8) -> u8 {
    !(c | 0x80u8)
}

/// G.711 A-law expansion, level by level: the first positive level is 8,
/// the first segment climbs in steps of 16, the second segment lies 256
/// above the first, each later segment is the one before it doubled, and
/// a negative level is the positive one negated. Together these fix the
/// value of every one of the 256 bytes.
pub proof fn lemma_alaw_levels(c: u8)
    requires
        c < 128,
    ensures
        c == 0 ==> spec_alaw_to_linear(alaw_positive_byte(c)) == 8,
        1 <= c < 16 ==> spec_alaw_to_linear(alaw_positive_byte(c)) == spec_alaw_to_linear(
            alaw_positive_byte((c - 1) as u8),
        ) + 16,
        16 <= c < 32 ==> spec_alaw_to_linear(alaw_positive_byte(c)) == spec_alaw_to_linear(
            alaw_positive_byte((c - 16) as u8),
        ) + 256,
        32 <= c ==> spec_alaw_to_linear(alaw_positive_byte(c)) == 2 * spec_alaw_to_linear(
            alaw_positive_byte((c - 16) as u8),
        ),
        spec_alaw_to_linear(alaw_negative_byte(c)) == -spec_alaw_to_linear(alaw_positive_byte(c)),
{
    assert(c == 0 ==> spec_alaw_to_linear(alaw_positive_byte(c)) == 8) by (bit_vector);
    assert(1 <= c < 16 ==> spec_alaw_to_linear(alaw_positive_byte(c)) == spec_alaw_to_linear(
        alaw_positive_byte((c - 1) as u8),
    ) + 16) by (bit_vector);
    assert(16 <= c < 32 ==> spec_alaw_to_linear(alaw_positive_byte(c)) == spec_alaw_to_linear(
        alaw_positive_byte((c - 16) as u8),
    ) + 256) by (bit_vector);
    assert(32 <= c < 128 ==> spec_alaw_to_linear(alaw_positive_byte(c)) == 2 * spec_alaw_to_linear(
        alaw_positive_byte((c - 16) as u8),
    )) by (bit_vector);
    assert(c < 128 ==> spec_alaw_to_linear(alaw_negative_byte(c)) == -spec_alaw_to_linear(
        alaw_positive_byte(c),
    )) by (bit_vector);
}

/// G.711 u-law expansion, level by level: the first positive level is 0,
/// the first segment climbs in steps of 8, each later segment is the one
/// before it doubled once the bias of 132 is added to both, and a negative
/// level is the positive one negated. Together these fix the value of
/// every one of the 256 bytes.
pub proof fn lemma_ulaw_levels(c: u8)
    requires
        c < 128,
    ensures
        c == 0 ==> spec_ulaw_to_linear(ulaw_positive_byte(c)) == 0,
        1 <= c < 16 ==> spec_ulaw_to_linear(ulaw_positive_byte(c)) == spec_ulaw_to_linear(
            ulaw_positive_byte((c - 1) as u8),
        ) + 8,
        16 <= c ==> spec_ulaw_to_linear(ulaw_positive_byte(c)) + 132 == 2 * (spec_ulaw_to_linear(
            ulaw_positive_byte((c - 16) as u8),
        ) + 132),
        spec_ulaw_to_linear(ulaw_negative_byte(c)) == -spec_ulaw_to_linear(ulaw_positive_byte(c)),
{
    assert(c == 0 ==> spec_ulaw_to_linear(ulaw_positive_byte(c)) == 0) by (bit_vector);
    assert(1 <= c < 16 ==> spec_ulaw_to_linear(ulaw_positive_byte(c)) == spec_ulaw_to_linear(
        ulaw_positive_byte((c - 1) as u8),
    ) + 8) by (bit_vector);
    assert(16 <= c < 128 ==> spec_ulaw_to_linear(ulaw_positive_byte(c)) + 132 == 2 * (
    spec_ulaw_to_linear(ulaw_positive_byte((c - 16) as u8)) + 132)) by (bit_vector);
    assert(c < 128 ==> spec_ulaw_to_linear(ulaw_negative_byte(c)) == -spec_ulaw_to_linear(
        ulaw_positive_byte(c),
    )) by (bit_vector);
}

/// The format check, rule by rule: 16-bit linear PCM is accepted exactly
/// when each block holds two bytes for every channel, whatever the number
/// of channels, and PCM of another sample size is unsupported; 8-bit A-law
/// and u-law are accepted exactly when each block holds one byte for every
/// channel, and of another sample size they are not valid; every other
/// format is unsupported.
pub proof fn lemma_format_status_rules(h: PjMediaWaveHdr)
    ensures
        h.fmt_tag == PJMEDIA_WAVE_FMT_TAG_PCM && h.bits_per_sample == 16 ==> (
        h.spec_format_status() == PJ_SUCCESS <==> h.block_align as int == 2 * (h.nchan as int)),
        h.fmt_tag == PJMEDIA_WAVE_FMT_TAG_PCM && h.bits_per_sample == 16 && h.block_align as int
            != 2 * (h.nchan as int) ==> h.spec_format_status() == PJMEDIA_EWAVEUNSUPP,
        h.fmt_tag == PJMEDIA_WAVE_FMT_TAG_PCM && h.bits_per_sample != 16
            ==> h.spec_format_status() == PJMEDIA_EWAVEUNSUPP,
        (h.fmt_tag == PJMEDIA_WAVE_FMT_TAG_ALAW || h.fmt_tag == PJMEDIA_WAVE_FMT_TAG_ULAW)
            && h.bits_per_sample == 8 ==> (h.spec_format_status() == PJ_SUCCESS <==> h.block_align
            == h.nchan),
        (h.fmt_tag == PJMEDIA_WAVE_FMT_TAG_ALAW || h.fmt_tag == PJMEDIA_WAVE_FMT_TAG_ULAW) && (
        h.bits_per_sample != 8 || h.block_align != h.nchan) ==> h.spec_format_status()
            == PJMEDIA_ENOTVALIDWAVE,
        h.fmt_tag != PJMEDIA_WAVE_FMT_TAG_PCM && h.fmt_tag != PJMEDIA_WAVE_FMT_TAG_ALAW
            && h.fmt_tag != PJMEDIA_WAVE_FMT_TAG_ULAW ==> h.spec_format_status()
            == PJMEDIA_EWAVEUNSUPP,
{
}

/// The header's numbers are read little-endian: a 16-bit field's low byte
/// is the first of its two bytes and its high byte the second, and a
/// 32-bit field's bytes run from lowest to highest.
pub proof fn lemma_fields_little_endian(s: Seq<u8>, off: int)
    requires
        0 <= off,
        off + 4 <= s.len(),
    ensures
        le_u16(s, off) % 256 == s[off],
        le_u16(s, off) / 256 == s[off + 1],
        le_u32(s, off) % 256 == s[off],
        (le_u32(s, off) / 256) % 256 == s[off + 1],
        (le_u32(s, off) / 65536) % 256 == s[off + 2],
        le_u32(s, off) / 16777216 == s[off + 3],
{
}

} // verus!
