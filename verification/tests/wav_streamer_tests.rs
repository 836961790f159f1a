use pjproject::error::Error;
use pjproject::pjmedia::wav_streamer::{WavFrame, WavStreamerBuilder, WavStreamerState};
use pjproject::pjmedia::wave::{
    PJMEDIA_WAVE_FMT_TAG_ALAW, PJMEDIA_WAVE_FMT_TAG_PCM, PJMEDIA_WAVE_FMT_TAG_ULAW,
};

fn header(fmt_tag: u16, nchan: u16, rate: u32, block_align: u16, bits: u16) -> Vec<u8> {
    let mut h = Vec::new();
    h.extend_from_slice(b"RIFF");
    h.extend_from_slice(&0u32.to_le_bytes());
    h.extend_from_slice(b"WAVE");
    h.extend_from_slice(b"fmt ");
    h.extend_from_slice(&16u32.to_le_bytes());
    h.extend_from_slice(&fmt_tag.to_le_bytes());
    h.extend_from_slice(&nchan.to_le_bytes());
    h.extend_from_slice(&rate.to_le_bytes());
    h.extend_from_slice(&(rate * block_align as u32).to_le_bytes());
    h.extend_from_slice(&block_align.to_le_bytes());
    h.extend_from_slice(&bits.to_le_bytes());
    h.extend_from_slice(b"data");
    h.extend_from_slice(&0u32.to_le_bytes());
    h
}

fn buffered(s: &WavStreamerState) -> Vec<u8> {
    s.buf.iter().copied().collect()
}

#[test]
fn new_takes_defaults() {
    let s = WavStreamerState::new(None, None, 20, None);
    assert_eq!(s.ptime, 20);
    assert_eq!(s.buf_size, 0);
    assert_eq!(s.buf_size_multiplier, 3);
    assert_eq!(s.timescale, 20);
    assert!(!s.initialized());
    assert_eq!(s.format.clock_rate, 8000);
    assert_eq!(s.format.channel_count, 1);
    assert_eq!(s.format.bits_per_sample, 16);
    assert_eq!(s.format.samples_per_frame, 80);
}

#[test]
fn initialize_refuses_short_data() {
    let mut s = WavStreamerState::new(None, None, 20, None);
    match s.initialize(&[0u8; 10]) {
        Err(Error::Validation(m)) => assert_eq!(m, "Invalid wav header"),
        _ => panic!("expected a validation error"),
    }
    assert!(!s.initialized());
}

#[test]
fn initialize_refuses_bad_tags() {
    let mut s = WavStreamerState::new(None, None, 20, None);
    let mut h = header(PJMEDIA_WAVE_FMT_TAG_PCM, 1, 8000, 2, 16);
    h[0] = b'r';
    match s.initialize(&h) {
        Err(Error::PjError(st)) => assert_eq!(st.0, 220180),
        _ => panic!("expected an invalid-wave error"),
    }
}

#[test]
fn initialize_refuses_unsupported_format() {
    let mut s = WavStreamerState::new(None, None, 20, None);
    match s.initialize(&header(PJMEDIA_WAVE_FMT_TAG_PCM, 1, 8000, 1, 8)) {
        Err(Error::PjError(st)) => assert_eq!(st.0, 220181),
        _ => panic!("expected an unsupported-wave error"),
    }
    match s.initialize(&header(PJMEDIA_WAVE_FMT_TAG_ULAW, 1, 8000, 2, 16)) {
        Err(Error::PjError(st)) => assert_eq!(st.0, 220180),
        _ => panic!("expected an invalid-wave error"),
    }
    assert!(!s.initialized());
}

#[test]
fn initialize_sizes_buffer_from_header() {
    // 8 kHz 16-bit mono: 16000 bytes per second, 320 bytes per 20 ms.
    let mut s = WavStreamerState::new(None, None, 20, None);
    let mut data = header(PJMEDIA_WAVE_FMT_TAG_PCM, 1, 8000, 2, 16);
    data.extend((0..100u8).collect::<Vec<_>>());
    assert!(s.initialize(&data).is_ok());
    assert!(s.initialized());
    assert_eq!(s.buf_size, 960);
    assert_eq!(s.fmt_tag, 1);
    assert_eq!(s.bytes_per_sample, 2);
    assert_eq!(s.format.clock_rate, 8000);
    assert_eq!(s.format.channel_count, 1);
    assert_eq!(s.format.samples_per_frame, 160);
    assert_eq!(buffered(&s), (0..100u8).collect::<Vec<_>>());
}

#[test]
fn initialize_twice_changes_nothing() {
    let mut s = WavStreamerState::new(None, None, 20, None);
    let mut data = header(PJMEDIA_WAVE_FMT_TAG_PCM, 1, 8000, 2, 16);
    data.extend([1u8, 2, 3]);
    s.initialize(&data).unwrap();
    let before = buffered(&s);
    let mut other = header(PJMEDIA_WAVE_FMT_TAG_ULAW, 1, 8000, 1, 8);
    other.extend([9u8, 9, 9]);
    assert!(s.initialize(&other).is_ok());
    assert_eq!(buffered(&s), before);
    assert_eq!(s.fmt_tag, 1);
}

#[test]
fn initialize_counts_buffer_limit_from_start_of_data() {
    let mut s = WavStreamerState::new(None, Some(400), 20, None);
    let mut data = header(PJMEDIA_WAVE_FMT_TAG_PCM, 1, 8000, 2, 16);
    data.extend(vec![7u8; 500]);
    s.initialize(&data).unwrap();
    assert_eq!(s.buf_size, 400);
    assert_eq!(buffered(&s).len(), 400 - 44);
}

#[test]
fn initialize_refuses_too_small_buffer() {
    let mut s = WavStreamerState::new(None, Some(100), 20, None);
    match s.initialize(&header(PJMEDIA_WAVE_FMT_TAG_PCM, 1, 8000, 2, 16)) {
        Err(Error::Validation(m)) => assert_eq!(
            m,
            "buf_size(100) is too small for data recevied every timescale of 20ms"
        ),
        _ => panic!("expected a validation error"),
    }
    assert!(!s.initialized());
}

#[test]
fn add_data_then_get_frame_is_fifo() {
    let mut s = WavStreamerState::new(None, Some(10), 0, None);
    s.add_data(&[1, 2, 3]);
    s.add_data(&[4, 5]);
    match s.get_frame(4) {
        WavFrame::Raw(b) => assert_eq!(b, vec![1, 2, 3, 4]),
        _ => panic!("expected raw bytes"),
    }
    match s.get_frame(3) {
        WavFrame::Raw(b) => assert_eq!(b, vec![5, 0, 0]),
        _ => panic!("expected raw bytes"),
    }
    assert!(buffered(&s).is_empty());
}

#[test]
fn add_data_drops_oldest_when_full() {
    let mut s = WavStreamerState::new(None, Some(4), 0, None);
    s.add_data(&[1, 2, 3]);
    s.add_data(&[4, 5, 6]);
    assert_eq!(buffered(&s), vec![3, 4, 5, 6]);
    s.add_data(&[7, 8, 9, 10, 11, 12]);
    assert_eq!(buffered(&s), vec![7, 8, 9, 10]);
    assert!(buffered(&s).len() <= s.buf_size);
}

#[test]
fn get_frame_expands_ulaw_and_alaw() {
    let mut s = WavStreamerState::new(None, Some(8), 0, None);
    s.fmt_tag = PJMEDIA_WAVE_FMT_TAG_ULAW as u32;
    s.add_data(&[0xFF, 0x00]);
    match s.get_frame(3) {
        WavFrame::Linear(v) => assert_eq!(v, vec![0, -32124, -32124]),
        _ => panic!("expected linear samples"),
    }
    s.fmt_tag = PJMEDIA_WAVE_FMT_TAG_ALAW as u32;
    s.add_data(&[0xD5]);
    match s.get_frame(2) {
        WavFrame::Linear(v) => assert_eq!(v, vec![8, -5504]),
        _ => panic!("expected linear samples"),
    }
}

#[test]
fn clear_buffer_empties() {
    let mut s = WavStreamerState::new(None, Some(8), 0, None);
    s.add_data(&[1, 2, 3]);
    s.clear_buffer();
    assert!(buffered(&s).is_empty());
    assert_eq!(s.buf_size, 8);
}

#[test]
fn builder_records_settings() {
    let mut b = WavStreamerBuilder::default();
    b.ptime(30).buf_size(640).timescale(40).buf_size_multiplier(5);
    assert_eq!(b.ptime, Some(30));
    assert_eq!(b.buf_size, Some(640));
    assert_eq!(b.timescale, 40);
    assert_eq!(b.buf_size_multiplier, Some(5));
    let s = WavStreamerState::new(b.ptime, b.buf_size, b.timescale, b.buf_size_multiplier);
    assert_eq!((s.ptime, s.buf_size, s.timescale, s.buf_size_multiplier), (30, 640, 40, 5));
}

#[test]
fn init_panics_flags_overflow_and_tiny_buffer() {
    let pcm = header(PJMEDIA_WAVE_FMT_TAG_PCM, 1, 8000, 2, 16);
    assert!(!WavStreamerState::new(None, None, 20, None).init_panics(&pcm));
    assert!(WavStreamerState::new(None, None, 0, None).init_panics(&pcm));
    assert!(WavStreamerState::new(Some(u32::MAX), None, 20, None).init_panics(&pcm));
    assert!(!WavStreamerState::new(None, Some(100), 20, None).init_panics(&pcm));
    assert!(!WavStreamerState::new(None, None, 0, None).init_panics(&[0u8; 10]));
}
