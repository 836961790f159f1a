use std::collections::VecDeque;

use vstd::prelude::*;

use crate::errno::PJMEDIA_ENOTVALIDWAVE;
use crate::error::Error;
use crate::pjmedia::wave::{
    alaw_to_linear, spec_alaw_to_linear, spec_ulaw_to_linear, spec_wave_hdr, ulaw_to_linear,
    PjMediaWaveHdr, PJMEDIA_WAVE_FMT_TAG_ALAW, PJMEDIA_WAVE_FMT_TAG_PCM, PJMEDIA_WAVE_FMT_TAG_ULAW, PJMEDIA_WAVE_HDR_SIZE,
};
use crate::status::{PjStatus, PJ_SUCCESS};
use crate::text::{decimal, spec_decimal};

verus! {

pub const DEFAULT_PTIME: u32 = 20;

pub const DEFAULT_BITS_PER_SAMPLE: u32 = 16;

pub const DEFAULT_CLOCK_RATE: u32 = 8000;

pub const DEFAULT_CHANNEL_COUNT: u32 = 1;

pub const DEFAULT_SAMPLES_PER_FRAME: u32 = 80;

pub const DEFAULT_BUF_SIZE_MULTIPLIER: usize = 3;

/// The audio format that the streamer's media port announces.
#[derive(Clone, Copy, Debug, PartialEq, Eq, Structural)]
pub struct WavPortFormat {
    pub clock_rate: u32,
    pub channel_count: u32,
    pub bits_per_sample: u32,
    pub samples_per_frame: u32,
}

/// The state of a WAV streamer: the buffer of audio bytes that arrive by
/// `add_data` and leave by `get_frame`, and what the WAVE header told.
pub struct WavStreamerState {
    /// Packet time in milliseconds.
    pub ptime: u32,
    /// The audio bytes not yet played, oldest first.
    pub buf: VecDeque<u8>,
    /// How many bytes the buffer keeps at most; 0 until the header sets it.
    pub buf_size: usize,
    /// The WAVE format tag of the samples.
    pub fmt_tag: u32,
    pub bytes_per_sample: u32,
    /// Milliseconds of audio that one call of `add_data` brings.
    pub timescale: u32,
    /// How many timescales of audio the buffer holds when the header sets
    /// its size.
    pub buf_size_multiplier: usize,
    /// Whether a header was accepted.
    pub initialized: bool,
    /// The format that the media port announces.
    pub format: WavPortFormat,
}

/// A frame that the streamer hands to its port.
pub enum WavFrame {
    /// The frame's bytes as they were buffered, zero-padded to the frame
    /// size.
    Raw(Vec<u8>),
    /// For A-law and u-law audio: one linear sample per frame byte.
    Linear(Vec<i16>),
}

/// The samples that a frame of G.711 bytes expands to.
pub open spec fn spec_expand(fmt_tag: u32, bytes: Seq<u8>) -> Seq<i16> {
    Seq::new(
        bytes.len(),
        |i: int|
            if fmt_tag == PJMEDIA_WAVE_FMT_TAG_ULAW {
                spec_ulaw_to_linear(bytes[i])
            } else {
                spec_alaw_to_linear(bytes[i])
            },
    )
}

/// The text of the error for a buffer too small for one timescale of audio.
pub open spec fn spec_buf_too_small_msg(buf_size: usize, timescale: u32) -> Seq<char> {
    "buf_size("@ + spec_decimal(buf_size as nat)
        + ") is too small for data recevied every timescale of "@ + spec_decimal(
        timescale as nat,
    ) + "ms"@
}

/// `n` zero bytes.
pub open spec fn zeros(n: nat) -> Seq<u8> {
    Seq::new(n, |i: int| 0u8)
}

/// How many of the oldest bytes of `buf` adding `n` bytes drops, with room
/// for `buf_size` bytes: those that the new ones leave no room for.
pub open spec fn spec_drop_count(buf: Seq<u8>, buf_size: nat, n: nat) -> int {
    let free = buf_size - buf.len();
    if n > free {
        (if buf_size < n {
            buf_size as int
        } else {
            n as int
        }) - free
    } else {
        0
    }
}

/// How many of `n` new bytes are kept: no more than `buf_size`, taken from
/// the front of the data.
pub open spec fn spec_add_count(buf_size: nat, n: nat) -> int {
    if buf_size < n {
        buf_size as int
    } else {
        n as int
    }
}

/// The buffer after adding `data` to `buf`.
pub open spec fn spec_after_add(buf: Seq<u8>, buf_size: nat, data: Seq<u8>) -> Seq<u8> {
    buf.subrange(spec_drop_count(buf, buf_size, data.len()), buf.len() as int) + data.subrange(
        0,
        spec_add_count(buf_size, data.len()),
    )
}

/// How many bytes a frame of `frame_size` takes from `buf`.
pub open spec fn spec_frame_take(buf: Seq<u8>, frame_size: nat) -> int {
    if frame_size < buf.len() {
        frame_size as int
    } else {
        buf.len() as int
    }
}

/// The bytes of a frame of `frame_size` taken from `buf`: its oldest bytes,
/// zero-padded.
pub open spec fn spec_frame_bytes(buf: Seq<u8>, frame_size: nat) -> Seq<u8> {
    let k = spec_frame_take(buf, frame_size);
    buf.subrange(0, k) + zeros((frame_size - k) as nat)
}

/// The buffer after a frame of `frame_size` is taken from `buf`.
pub open spec fn spec_after_frame(buf: Seq<u8>, frame_size: nat) -> Seq<u8> {
    buf.subrange(spec_frame_take(buf, frame_size), buf.len() as int)
}

impl WavStreamerState {
    /// A streamer with no header yet: the packet time defaults to 20 ms, the
    /// buffer size to 0 (the header sets it) and the multiplier to 3; the port
    /// announces 8 kHz mono 16-bit audio, 80 samples a frame.
    pub fn new(
        ptime: Option<u32>,
        buf_size: Option<usize>,
        timescale: u32,
        buf_size_multiplier: Option<usize>,
    ) -> (r: Self)
        ensures
            r.ptime == (match ptime {
                Some(p) => p,
                None => DEFAULT_PTIME,
            }),
            r.buf_size == (match buf_size {
                Some(b) => b,
                None => 0,
            }),
            r.buf_size_multiplier == (match buf_size_multiplier {
                Some(m) => m,
                None => DEFAULT_BUF_SIZE_MULTIPLIER,
            }),
            r.timescale == timescale,
            r.buf@ == Seq::<u8>::empty(),
            r.fmt_tag == 0,
            r.bytes_per_sample == 0,
            !r.initialized,
            r.format == (WavPortFormat {
                clock_rate: DEFAULT_CLOCK_RATE,
                channel_count: DEFAULT_CHANNEL_COUNT,
                bits_per_sample: DEFAULT_BITS_PER_SAMPLE,
                samples_per_frame: DEFAULT_SAMPLES_PER_FRAME,
            }),
    {
        let ptime = match ptime {
            Some(p) => p,
            None => DEFAULT_PTIME,
        };
        let buf_size = match buf_size {
            Some(b) => b,
            None => 0,
        };
        let buf_size_multiplier = match buf_size_multiplier {
            Some(m) => m,
            None => DEFAULT_BUF_SIZE_MULTIPLIER,
        };
        WavStreamerState {
            ptime,
            buf: VecDeque::with_capacity(buf_size),
            buf_size,
            fmt_tag: 0,
            bytes_per_sample: 0,
            timescale,
            buf_size_multiplier,
            initialized: false,
            format: WavPortFormat {
                clock_rate: DEFAULT_CLOCK_RATE,
                channel_count: DEFAULT_CHANNEL_COUNT,
                bits_per_sample: DEFAULT_BITS_PER_SAMPLE,
                samples_per_frame: DEFAULT_SAMPLES_PER_FRAME,
            },
        }
    }

    /// `initialize` gets past the header checks: the data holds a header,
    /// no header was accepted before, the chunk tags are right and the
    /// format is supported.
    pub open spec fn spec_init_accepts(&self, data: Seq<u8>) -> bool {
        let hdr = spec_wave_hdr(data);
        &&& data.len() >= PJMEDIA_WAVE_HDR_SIZE
        &&& !self.initialized
        &&& hdr.spec_tags_valid()
        &&& !hdr.spec_format_check_overflows()
        &&& hdr.spec_format_status() == PJ_SUCCESS
    }

    /// Samples per frame for the header's rate and channels.
    pub open spec fn spec_samples_per_frame(&self, hdr: PjMediaWaveHdr) -> int {
        self.ptime * hdr.sample_rate * hdr.nchan / 1000
    }

    /// Bytes of audio in one timescale at the header's byte rate.
    pub open spec fn spec_bytes_per_timescale(&self, hdr: PjMediaWaveHdr) -> int {
        (hdr.bytes_per_sec / 1000) * self.timescale
    }

    /// The buffer size once the header is accepted.
    pub open spec fn spec_init_buf_size(&self, hdr: PjMediaWaveHdr) -> int {
        if self.buf_size == 0 {
            self.spec_bytes_per_timescale(hdr) * self.buf_size_multiplier
        } else {
            self.buf_size as int
        }
    }

    /// The inputs on which `initialize` would panic: an arithmetic overflow
    /// while checking the format or sizing the buffer, or a buffer size
    /// below the header's size, so that the data to copy would start past
    /// its end.
    pub open spec fn spec_init_panics(&self, data: Seq<u8>) -> bool {
        let hdr = spec_wave_hdr(data);
        &&& data.len() >= PJMEDIA_WAVE_HDR_SIZE
        &&& !self.initialized
        &&& hdr.spec_tags_valid()
        &&& (hdr.spec_format_check_overflows() || (hdr.spec_format_status() == PJ_SUCCESS && (
        self.ptime * hdr.sample_rate > u32::MAX || self.ptime * hdr.sample_rate * hdr.nchan
            > u32::MAX || self.spec_bytes_per_timescale(hdr) > u32::MAX || (self.buf_size == 0
            && self.spec_init_buf_size(hdr) > usize::MAX) || (!(self.buf_size != 0
            && self.spec_bytes_per_timescale(hdr) > self.buf_size)
            && self.spec_init_buf_size(hdr) < PJMEDIA_WAVE_HDR_SIZE))))
    }

    /// Whether `initialize` on `data` would meet an arithmetic overflow or a
    /// buffer size below the header's (see `spec_init_panics`), so that a
    /// caller can test it first.
    pub fn init_panics(&self, data: &[u8]) -> (r: bool)
        ensures
            r == self.spec_init_panics(data@),
    {
        if data.len() < PJMEDIA_WAVE_HDR_SIZE || self.initialized {
            return false;
        }
        let hdr = PjMediaWaveHdr::from_bytes(data);
        if !hdr.tags_valid() {
            return false;
        }
        if hdr.fmt_tag == PJMEDIA_WAVE_FMT_TAG_PCM && hdr.bits_per_sample == 16 && hdr.nchan
            > 32767 {
            return true;
        }
        if hdr.format_status() != PJ_SUCCESS {
            return false;
        }
        let ptime: u128 = self.ptime as u128;
        let rate: u128 = hdr.sample_rate as u128;
        let nchan: u128 = hdr.nchan as u128;
        assert(ptime * rate < 0x1_0000_0000_0000_0000) by (nonlinear_arith)
            requires
                ptime < 0x1_0000_0000,
                rate < 0x1_0000_0000,
        ;
        let rate_time: u128 = ptime * rate;
        assert(rate_time * nchan < 0x1_0000_0000_0000_0000_0000) by (nonlinear_arith)
            requires
                rate_time < 0x1_0000_0000_0000_0000,
                nchan < 0x1_0000,
        ;
        let frame: u128 = rate_time * nchan;
        let per_ms: u128 = (hdr.bytes_per_sec / 1000) as u128;
        let ts: u128 = self.timescale as u128;
        assert(per_ms * ts < 0x1_0000_0000_0000_0000) by (nonlinear_arith)
            requires
                per_ms < 0x1_0000_0000,
                ts < 0x1_0000_0000,
        ;
        let bpt: u128 = per_ms * ts;
        let mult: u128 = self.buf_size_multiplier as u128;
        assert(bpt * mult < 0x1_0000_0000_0000_0000_0000_0000_0000_0000) by (nonlinear_arith)
            requires
                bpt < 0x1_0000_0000_0000_0000,
                mult < 0x1_0000_0000_0000_0000,
        ;
        let init_buf_size: u128 = if self.buf_size == 0 {
            bpt * mult
        } else {
            self.buf_size as u128
        };
        let max32: u128 = 0xFFFF_FFFF;
        let max_usize: u128 = usize::MAX as u128;
        rate_time > max32 || frame > max32 || bpt > max32 || (self.buf_size == 0 && init_buf_size
            > max_usize) || (!(self.buf_size != 0 && bpt > self.buf_size as u128)
            && init_buf_size < PJMEDIA_WAVE_HDR_SIZE as u128)
    }

    /// Reads the WAVE header at the start of `data`, checks it, sets the
    /// format and the buffer size from it, and buffers the audio that
    /// follows the header, up to the buffer size counted from the start of
    /// `data`. Once a header was accepted, later calls change nothing.
    pub fn initialize(&mut self, data: &[u8]) -> (r: Result<(), Error>)
        requires
            !old(self).spec_init_panics(data@),
        ensures
            ({
                let hdr = spec_wave_hdr(data@);
                let o = *old(self);
                let f = *final(self);
                if data@.len() < PJMEDIA_WAVE_HDR_SIZE {
                    &&& r matches Err(Error::Validation(m))
                    &&& m@ == "Invalid wav header"@
                    &&& f == o
                } else if o.initialized {
                    r is Ok && f == o
                } else if !hdr.spec_tags_valid() {
                    r == Err::<(), Error>(Error::PjError(PjStatus(PJMEDIA_ENOTVALIDWAVE))) && f
                        == o
                } else if hdr.spec_format_status() != PJ_SUCCESS {
                    r == Err::<(), Error>(Error::PjError(PjStatus(hdr.spec_format_status())))
                        && f == o
                } else {
                    let bpt = o.spec_bytes_per_timescale(hdr);
                    let format = WavPortFormat {
                        clock_rate: hdr.sample_rate,
                        channel_count: hdr.nchan as u32,
                        bits_per_sample: DEFAULT_BITS_PER_SAMPLE,
                        samples_per_frame: o.spec_samples_per_frame(hdr) as u32,
                    };
                    &&& f.fmt_tag == hdr.fmt_tag as u32
                    &&& f.bytes_per_sample == hdr.bits_per_sample as u32 / 8
                    &&& f.format == format
                    &&& f.format.samples_per_frame as int * 1000 <= o.ptime * hdr.sample_rate
                        * hdr.nchan
                    &&& o.ptime * hdr.sample_rate * hdr.nchan < f.format.samples_per_frame as int
                        * 1000 + 1000
                    &&& f.ptime == o.ptime
                    &&& f.timescale == o.timescale
                    &&& f.buf_size_multiplier == o.buf_size_multiplier
                    &&& if o.buf_size != 0 && bpt > o.buf_size {
                        &&& r matches Err(Error::Validation(m))
                        &&& m@ == spec_buf_too_small_msg(o.buf_size, o.timescale)
                        &&& f.buf_size == o.buf_size
                        &&& f.buf@ == o.buf@
                        &&& !f.initialized
                    } else {
                        let bs = o.spec_init_buf_size(hdr);
                        let end = if bs < data@.len() {
                            bs
                        } else {
                            data@.len() as int
                        };
                        let added = data@.subrange(PJMEDIA_WAVE_HDR_SIZE as int, end);
                        &&& r is Ok
                        &&& f.initialized
                        &&& f.buf_size == bs
                        &&& o.buf_size == 0 ==> f.buf_size == (hdr.bytes_per_sec / 1000)
                            * o.timescale * o.buf_size_multiplier
                        &&& o.buf_size != 0 ==> f.buf_size == o.buf_size
                        &&& f.buf@ == (if o.buf_size == 0 {
                            added
                        } else {
                            o.buf@ + added
                        })
                    }
                }
            }),
    {
        if data.len() < PJMEDIA_WAVE_HDR_SIZE {
            let msg = "Invalid wav header".to_owned();
            return Err(Error::Validation(msg));
        }
        if !self.initialized {
            let wave_hdr = PjMediaWaveHdr::from_bytes(data);
            if !wave_hdr.tags_valid() {
                return Err(Error::PjError(PjStatus::new(PJMEDIA_ENOTVALIDWAVE)));
            }
            let status = wave_hdr.format_status();
            let res = PjStatus::result_for_status(status);
            if let Err(e) = res {
                return Err(e);
            }
            self.fmt_tag = wave_hdr.fmt_tag as u32;
            self.bytes_per_sample = wave_hdr.bits_per_sample as u32 / 8;

            let rate_time = self.ptime * wave_hdr.sample_rate;
            let samples_per_frame = rate_time * (wave_hdr.nchan as u32) / 1000;
            self.format = WavPortFormat {
                clock_rate: wave_hdr.sample_rate,
                channel_count: wave_hdr.nchan as u32,
                bits_per_sample: DEFAULT_BITS_PER_SAMPLE,
                samples_per_frame,
            };

            let bytes_per_timescale = (wave_hdr.bytes_per_sec / 1000 * self.timescale) as usize;
            assert(bytes_per_timescale == old(self).spec_bytes_per_timescale(wave_hdr));
            if self.buf_size == 0 {
                self.buf_size = bytes_per_timescale * self.buf_size_multiplier;
                self.buf = VecDeque::with_capacity(self.buf_size);
            } else {
                if bytes_per_timescale > self.buf_size {
                    let mut msg = "buf_size(".to_owned();
                    msg.append(decimal(self.buf_size as u64).as_str());
                    msg.append(") is too small for data recevied every timescale of ");
                    msg.append(decimal(self.timescale as u64).as_str());
                    msg.append("ms");
                    return Err(Error::Validation(msg));
                }
            }

            let data_off = PJMEDIA_WAVE_HDR_SIZE;
            let size_to_add = if self.buf_size < data.len() {
                self.buf_size
            } else {
                data.len()
            };
            let ghost before = self.buf@;
            let ghost snap = *self;
            let mut i = data_off;
            while i < size_to_add
                invariant
                    data_off <= i <= size_to_add <= data@.len(),
                    self.buf_size == snap.buf_size,
                    self.ptime == snap.ptime,
                    self.timescale == snap.timescale,
                    self.buf_size_multiplier == snap.buf_size_multiplier,
                    self.fmt_tag == snap.fmt_tag,
                    self.bytes_per_sample == snap.bytes_per_sample,
                    self.format == snap.format,
                    self.initialized == snap.initialized,
                    self.buf@ == before + data@.subrange(data_off as int, i as int),
                decreases size_to_add - i,
            {
                self.buf.push_back(data[i]);
                proof {
                    assert(data@.subrange(data_off as int, i + 1) =~= data@.subrange(
                        data_off as int,
                        i as int,
                    ).push(data@[i as int]));
                }
                i = i + 1;
            }
            self.initialized = true;
        }
        Ok(())
    }

    /// Adds audio bytes: drops the oldest buffered bytes that the new ones
    /// do not leave room for, then buffers the first `buf_size` bytes of
    /// `data` (all of it when it fits).
    pub fn add_data(&mut self, data: &[u8])
        requires
            old(self).buf@.len() <= old(self).buf_size,
        ensures
            final(self).buf@ == spec_after_add(old(self).buf@, old(self).buf_size as nat, data@),
            final(self).buf@.len() <= final(self).buf_size,
            final(self).buf_size == old(self).buf_size,
            final(self).ptime == old(self).ptime,
            final(self).fmt_tag == old(self).fmt_tag,
            final(self).bytes_per_sample == old(self).bytes_per_sample,
            final(self).timescale == old(self).timescale,
            final(self).buf_size_multiplier == old(self).buf_size_multiplier,
            final(self).initialized == old(self).initialized,
            final(self).format == old(self).format,
    {
        let ghost o = *self;
        let free_spc = self.buf_size - self.buf.len();
        if data.len() > free_spc {
            let keep = if self.buf_size < data.len() {
                self.buf_size
            } else {
                data.len()
            };
            let size_to_remove = keep - free_spc;
            let rest = self.buf.split_off(size_to_remove);
            self.buf = rest;
        }
        let size_to_add = if self.buf_size < data.len() {
            self.buf_size
        } else {
            data.len()
        };
        let ghost kept = self.buf@;
        let ghost snap = *self;
        assert(kept == o.buf@.subrange(
            spec_drop_count(o.buf@, o.buf_size as nat, data@.len()),
            o.buf@.len() as int,
        ));
        let mut i: usize = 0;
        while i < size_to_add
            invariant
                i <= size_to_add <= data@.len(),
                self.buf@ == kept + data@.subrange(0, i as int),
                self.buf_size == snap.buf_size,
                self.ptime == snap.ptime,
                self.timescale == snap.timescale,
                self.buf_size_multiplier == snap.buf_size_multiplier,
                self.fmt_tag == snap.fmt_tag,
                self.bytes_per_sample == snap.bytes_per_sample,
                self.format == snap.format,
                self.initialized == snap.initialized,
            decreases size_to_add - i,
        {
            self.buf.push_back(data[i]);
            proof {
                assert(data@.subrange(0, i + 1) =~= data@.subrange(0, i as int).push(
                    data@[i as int],
                ));
            }
            i = i + 1;
        }
    }

    /// Takes up to `frame_size` of the oldest buffered bytes for one frame,
    /// zero-padded to `frame_size`; for A-law and u-law audio each of the
    /// frame's bytes is expanded to a linear sample.
    pub fn get_frame(&mut self, frame_size: usize) -> (r: WavFrame)
        ensures
            final(self).buf@ == spec_after_frame(old(self).buf@, frame_size as nat),
            if old(self).fmt_tag == PJMEDIA_WAVE_FMT_TAG_ULAW as u32 || old(self).fmt_tag
                == PJMEDIA_WAVE_FMT_TAG_ALAW as u32 {
                r matches WavFrame::Linear(samples) && samples@ == spec_expand(
                    old(self).fmt_tag,
                    spec_frame_bytes(old(self).buf@, frame_size as nat),
                )
            } else {
                r matches WavFrame::Raw(b) && b@ == spec_frame_bytes(
                    old(self).buf@,
                    frame_size as nat,
                )
            },
            final(self).buf_size == old(self).buf_size,
            final(self).ptime == old(self).ptime,
            final(self).fmt_tag == old(self).fmt_tag,
            final(self).bytes_per_sample == old(self).bytes_per_sample,
            final(self).timescale == old(self).timescale,
            final(self).buf_size_multiplier == old(self).buf_size_multiplier,
            final(self).initialized == old(self).initialized,
            final(self).format == old(self).format,
    {
        let ghost o = *self;
        let size_to_read = if frame_size < self.buf.len() {
            frame_size
        } else {
            self.buf.len()
        };
        let mut data: Vec<u8> = Vec::new();
        let mut i: usize = 0;
        while i < size_to_read
            invariant
                i <= size_to_read <= o.buf@.len(),
                size_to_read <= frame_size,
                data@ == o.buf@.subrange(0, i as int),
                self.buf@ == o.buf@.subrange(i as int, o.buf@.len() as int),
                self.buf_size == o.buf_size,
                self.ptime == o.ptime,
                self.timescale == o.timescale,
                self.buf_size_multiplier == o.buf_size_multiplier,
                self.fmt_tag == o.fmt_tag,
                self.bytes_per_sample == o.bytes_per_sample,
                self.format == o.format,
                self.initialized == o.initialized,
            decreases size_to_read - i,
        {
            let b = self.buf.pop_front();
            match b {
                Some(x) => {
                    data.push(x);
                },
                None => {},
            }
            proof {
                assert(data@ =~= o.buf@.subrange(0, i + 1));
                assert(self.buf@ =~= o.buf@.subrange(i + 1, o.buf@.len() as int));
            }
            i = i + 1;
        }
        let mut j: usize = size_to_read;
        while j < frame_size
            invariant
                size_to_read <= j <= frame_size,
                data@ == o.buf@.subrange(0, size_to_read as int) + zeros((j - size_to_read) as nat),
            decreases frame_size - j,
        {
            data.push(0u8);
            proof {
                assert(data@ =~= o.buf@.subrange(0, size_to_read as int) + zeros(
                    (j + 1 - size_to_read) as nat,
                ));
            }
            j = j + 1;
        }
        if self.fmt_tag == PJMEDIA_WAVE_FMT_TAG_ULAW as u32 || self.fmt_tag
            == PJMEDIA_WAVE_FMT_TAG_ALAW as u32 {
            let is_ulaw = self.fmt_tag == PJMEDIA_WAVE_FMT_TAG_ULAW as u32;
            let mut samples: Vec<i16> = Vec::new();
            let mut k: usize = 0;
            while k < data.len()
                invariant
                    k <= data@.len(),
                    is_ulaw == (o.fmt_tag == PJMEDIA_WAVE_FMT_TAG_ULAW as u32),
                    samples@ == spec_expand(o.fmt_tag, data@).subrange(0, k as int),
                decreases data@.len() - k,
            {
                let v = if is_ulaw {
                    ulaw_to_linear(data[k])
                } else {
                    alaw_to_linear(data[k])
                };
                samples.push(v);
                proof {
                    assert(samples@ =~= spec_expand(o.fmt_tag, data@).subrange(0, k + 1));
                }
                k = k + 1;
            }
            proof {
                assert(samples@ =~= spec_expand(o.fmt_tag, data@));
            }
            WavFrame::Linear(samples)
        } else {
            WavFrame::Raw(data)
        }
    }

    /// Empties the buffer.
    pub fn clear_buffer(&mut self)
        ensures
            final(self).buf@ == Seq::<u8>::empty(),
            final(self).buf_size == old(self).buf_size,
            final(self).ptime == old(self).ptime,
            final(self).fmt_tag == old(self).fmt_tag,
            final(self).bytes_per_sample == old(self).bytes_per_sample,
            final(self).timescale == old(self).timescale,
            final(self).buf_size_multiplier == old(self).buf_size_multiplier,
            final(self).initialized == old(self).initialized,
            final(self).format == old(self).format,
    {
        self.buf.clear();
    }

    /// Whether a WAVE header was accepted.
    pub fn initialized(&self) -> (r: bool)
        ensures
            r == self.initialized,
    {
        self.initialized
    }
}


/// The settings of a WAV streamer, gathered before it is built.
pub struct WavStreamerBuilder {
    pub ptime: Option<u32>,
    pub buf_size: Option<usize>,
    pub timescale: u32,
    pub buf_size_multiplier: Option<usize>,
}

impl Default for WavStreamerBuilder {
    fn default() -> (r: Self)
        ensures
            r.ptime is None,
            r.buf_size is None,
            r.timescale == 0,
            r.buf_size_multiplier is None,
    {
        WavStreamerBuilder { ptime: None, buf_size: None, timescale: 0, buf_size_multiplier: None }
    }
}

impl WavStreamerBuilder {
    pub fn ptime(&mut self, ptime: u32) -> (r: &mut Self)
        ensures
            *r == (WavStreamerBuilder { ptime: Some(ptime), ..*old(self) }),
            *final(self) == *final(r),
    {
        self.ptime = Some(ptime);
        self
    }

    pub fn buf_size(&mut self, buf_size: usize) -> (r: &mut Self)
        ensures
            *r == (WavStreamerBuilder { buf_size: Some(buf_size), ..*old(self) }),
            *final(self) == *final(r),
    {
        self.buf_size = Some(buf_size);
        self
    }

    pub fn timescale(&mut self, timescale: u32) -> (r: &mut Self)
        ensures
            *r == (WavStreamerBuilder { timescale, ..*old(self) }),
            *final(self) == *final(r),
    {
        self.timescale = timescale;
        self
    }

    pub fn buf_size_multiplier(&mut self, buf_size_multiplier: usize) -> (r: &mut Self)
        ensures
            *r == (WavStreamerBuilder { buf_size_multiplier: Some(buf_size_multiplier), ..*old(self) }),
            *final(self) == *final(r),
    {
        self.buf_size_multiplier = Some(buf_size_multiplier);
        self
    }
}

/// Audio leaves the buffer in the order it came: bytes added where there
/// is room for them are all kept after the bytes already there, and a frame
/// as long as the buffer hands them all out, in that order, leaving it
/// empty.
pub proof fn lemma_buffer_fifo(buf: Seq<u8>, buf_size: nat, data: Seq<u8>)
    requires
        buf.len() + data.len() <= buf_size,
    ensures
        spec_after_add(buf, buf_size, data) == buf + data,
        spec_frame_bytes(buf + data, (buf.len() + data.len()) as nat) == buf + data,
        spec_after_frame(buf + data, (buf.len() + data.len()) as nat) == Seq::<u8>::empty(),
{
    assert(spec_after_add(buf, buf_size, data) =~= buf + data);
    assert(spec_frame_bytes(buf + data, (buf.len() + data.len()) as nat) =~= buf + data);
    assert(spec_after_frame(buf + data, (buf.len() + data.len()) as nat) =~= Seq::<u8>::empty());
}

/// A frame never loses or repeats buffered audio: the bytes it takes and
/// the bytes it leaves make up the buffer; it is always `frame_size` long.
pub proof fn lemma_frame_split(buf: Seq<u8>, frame_size: nat)
    ensures
        buf.subrange(0, spec_frame_take(buf, frame_size)) + spec_after_frame(buf, frame_size)
            == buf,
        spec_frame_bytes(buf, frame_size).len() == frame_size,
{
    assert(buf.subrange(0, spec_frame_take(buf, frame_size)) + spec_after_frame(buf, frame_size)
        =~= buf);
}

/// The buffer never holds more than its size after adding, when it did not
/// before.
pub proof fn lemma_add_bounded(buf: Seq<u8>, buf_size: nat, data: Seq<u8>)
    requires
        buf.len() <= buf_size,
    ensures
        spec_after_add(buf, buf_size, data).len() <= buf_size,
{
}

/// A frame of `ptime` milliseconds holds the samples of every channel:
/// the samples per frame that an accepted header announces are the whole
/// part of ptime x sample rate x channels / 1000, so that they grow with
/// each of the three.
pub proof fn lemma_samples_per_frame_counts_channels(s: WavStreamerState, hdr: PjMediaWaveHdr)
    ensures
        s.spec_samples_per_frame(hdr) * 1000 <= s.ptime * hdr.sample_rate * hdr.nchan,
        s.ptime * hdr.sample_rate * hdr.nchan < s.spec_samples_per_frame(hdr) * 1000 + 1000,
{
}

/// The buffer size that a header sets, when none was given, is the bytes
/// of one timescale at the header's byte rate (whole bytes per
/// millisecond x timescale) times the streamer's own multiplier; a size
/// that was given is kept.
pub proof fn lemma_buffer_size_from_header(s: WavStreamerState, hdr: PjMediaWaveHdr)
    ensures
        s.buf_size == 0 ==> s.spec_init_buf_size(hdr) == (hdr.bytes_per_sec / 1000) * s.timescale
            * s.buf_size_multiplier,
        s.buf_size != 0 ==> s.spec_init_buf_size(hdr) == s.buf_size,
{
}

/// Two streamers with no buffer size that differ only in their
/// multipliers size their buffers in the ratio of the multipliers.
pub proof fn lemma_buffer_size_scales_with_multiplier(
    s: WavStreamerState,
    t: WavStreamerState,
    hdr: PjMediaWaveHdr,
)
    requires
        s.buf_size == 0,
        t.buf_size == 0,
        s.timescale == t.timescale,
    ensures
        s.spec_init_buf_size(hdr) * t.buf_size_multiplier == t.spec_init_buf_size(hdr)
            * s.buf_size_multiplier,
{
    let b = (hdr.bytes_per_sec / 1000) * s.timescale;
    assert(b * s.buf_size_multiplier * t.buf_size_multiplier == b * t.buf_size_multiplier
        * s.buf_size_multiplier) by (nonlinear_arith);
}

/// Adding keeps the newest audio: the buffer afterwards is the last
/// `buf_size` bytes (all of them when they fit) of what was buffered
/// followed by the first `buf_size` bytes of the new data.
pub proof fn lemma_add_keeps_newest(buf: Seq<u8>, buf_size: nat, data: Seq<u8>)
    requires
        buf.len() <= buf_size,
    ensures
        ({
            let k = if data.len() < buf_size {
                data.len() as int
            } else {
                buf_size as int
            };
            let all = buf + data.subrange(0, k);
            let start = if all.len() > buf_size {
                all.len() - buf_size
            } else {
                0
            };
            spec_after_add(buf, buf_size, data) == all.subrange(start, all.len() as int)
        }),
{
    let k = if data.len() < buf_size {
        data.len() as int
    } else {
        buf_size as int
    };
    let all = buf + data.subrange(0, k);
    let start = if all.len() > buf_size {
        all.len() - buf_size
    } else {
        0
    };
    let d = spec_drop_count(buf, buf_size, data.len());
    assert(d == start);
    assert(spec_after_add(buf, buf_size, data) =~= all.subrange(start, all.len() as int));
}

/// A frame is the oldest buffered bytes, as many as the frame holds, then
/// zeros: byte `i` of a frame is byte `i` of the buffer where the buffer
/// has one, and 0 past its end.
pub proof fn lemma_frame_bytes_are_oldest_then_zero(buf: Seq<u8>, frame_size: nat, i: int)
    requires
        0 <= i < frame_size,
    ensures
        spec_frame_bytes(buf, frame_size).len() == frame_size,
        i < buf.len() ==> spec_frame_bytes(buf, frame_size)[i] == buf[i],
        i >= buf.len() ==> spec_frame_bytes(buf, frame_size)[i] == 0,
{
}

} // verus!
