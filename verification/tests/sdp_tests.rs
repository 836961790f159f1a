use pjproject::error::Error;
use pjproject::pj::pj_types::PjTimeVal;
use pjproject::pjmedia::sdp::{
    PjMediaSdpAttr, PjMediaSdpConn, PjMediaSdpMedia, PjMediaSdpMediaType, PjMediaSdpRtpMap,
    PjMediaSdpSession, NTP_UNIX_EPOCH_OFFSET,
};
use pjproject::status::PjStatus;

fn audio_media(port: u16) -> PjMediaSdpMedia {
    PjMediaSdpMedia::new(
        PjMediaSdpMediaType::Audio,
        "RTP/AVP",
        port,
        1,
        &["0", "8"],
        vec![PjMediaSdpAttr::new("sendrecv", "")],
    )
}

#[test]
fn media_type_names_roundtrip() {
    assert_eq!(PjMediaSdpMediaType::from("audio"), PjMediaSdpMediaType::Audio);
    assert_eq!(PjMediaSdpMediaType::from("video"), PjMediaSdpMediaType::Video);
    assert_eq!(PjMediaSdpMediaType::from("text"), PjMediaSdpMediaType::UnSupported);
    assert_eq!(PjMediaSdpMediaType::Audio.as_ref(), "audio");
    assert_eq!(PjMediaSdpMediaType::Video.as_ref(), "video");
    assert_eq!(PjMediaSdpMediaType::UnSupported.as_ref(), "");
    for t in [PjMediaSdpMediaType::Audio, PjMediaSdpMediaType::Video] {
        assert_eq!(PjMediaSdpMediaType::from(t.as_ref()), t);
    }
}

#[test]
fn attr_text() {
    let a = PjMediaSdpAttr::new("rtpmap", "0 PCMU/8000");
    assert_eq!(a.to_string(), "name[\"rtpmap\"] -> value[\"0 PCMU/8000\"]");
    assert_eq!(a.as_ref().to_string(), a.to_string());
    let raw = a.into_raw();
    assert_eq!(raw.name, "rtpmap");
    assert_eq!(raw.value, "0 PCMU/8000");
}

#[test]
fn conn_fields() {
    let c = PjMediaSdpConn::new("IN", "IP4", "10.0.0.1", 0, 0);
    let d = c.into_raw();
    assert_eq!((d.net_type.as_str(), d.addr_type.as_str(), d.addr.as_str()), ("IN", "IP4", "10.0.0.1"));
    assert_eq!((d.ttl, d.no_addr), (0, 0));
}

#[test]
fn rtpmap_fields() {
    let m = PjMediaSdpRtpMap::new("8", "PCMA", 8000, None);
    assert_eq!(m.as_ptr().pt, "8");
    assert_eq!(m.as_ptr().enc_name, "PCMA");
    assert_eq!(m.as_ptr().clock_rate, 8000);
    assert_eq!(m.as_ptr().param, "");
    let s = PjMediaSdpRtpMap::new("97", "opus", 48000, Some("2"));
    assert_eq!(s.as_ptr().param, "2");
}

#[test]
fn media_line_fields() {
    let m = audio_media(4000);
    let d = m.as_ptr();
    assert_eq!(d.media, "audio");
    assert_eq!(d.transport, "RTP/AVP");
    assert_eq!(d.port, 4000);
    assert_eq!(d.port_count, 1);
    assert_eq!(d.fmt, vec!["0".to_string(), "8".to_string()]);
    assert_eq!(d.attr.len(), 1);
    assert_eq!(d.attr[0].name, "sendrecv");
    assert_eq!(m.as_ref().desc_port(), 4000);
}

#[test]
fn media_line_keeps_first_32_formats() {
    let names: Vec<String> = (0..40).map(|i| i.to_string()).collect();
    let fmts: Vec<&str> = names.iter().map(|s| s.as_str()).collect();
    let m = PjMediaSdpMedia::new(PjMediaSdpMediaType::Video, "RTP/AVP", 5000, 1, &fmts, vec![]);
    assert_eq!(m.as_ptr().fmt.len(), 32);
    assert_eq!(m.as_ptr().fmt[31], "31");
}

#[test]
fn session_defaults() {
    let now = PjTimeVal::new(1_700_000_000, 0);
    let s = PjMediaSdpSession::new(
        "alice",
        None,
        None,
        None,
        None,
        None,
        None,
        Some(vec![audio_media(4000)]),
        Ok(now),
        "host.example",
    )
    .unwrap();
    let d = s.as_ref().as_ptr();
    assert_eq!(d.name, "pjsip");
    assert_eq!(d.origin_user, "alice");
    assert_eq!(d.origin_version, 1_700_000_000 + NTP_UNIX_EPOCH_OFFSET);
    assert_eq!(d.origin_id, d.origin_version);
    assert_eq!(d.origin_net_type, "IN");
    assert_eq!(d.origin_addr_type, "IP4");
    assert_eq!(d.origin_addr, "host.example");
    assert!(d.conn.is_none());
    let media = s.as_ref().media();
    assert_eq!(media.len(), 1);
    assert_eq!(media[0].desc_port(), 4000);
}

#[test]
fn session_takes_given_values() {
    let s = PjMediaSdpSession::new(
        "bob",
        Some("call"),
        Some(42),
        Some("IN"),
        Some("IP6"),
        Some("::1"),
        Some(PjMediaSdpConn::new("IN", "IP6", "::1", 0, 0)),
        None,
        Ok(PjTimeVal::new(1, 0)),
        "ignored",
    )
    .unwrap();
    let d = s.as_ref().as_ptr();
    assert_eq!(d.name, "call");
    assert_eq!((d.origin_id, d.origin_version), (42, 42));
    assert_eq!(d.origin_addr_type, "IP6");
    assert_eq!(d.origin_addr, "::1");
    assert_eq!(d.conn.as_ref().unwrap().addr, "::1");
    assert!(d.media.is_empty());
}

#[test]
fn session_passes_on_clock_error() {
    let r = PjMediaSdpSession::new(
        "x",
        None,
        Some(1),
        None,
        None,
        None,
        None,
        None,
        Err(Error::PjError(PjStatus(70004))),
        "h",
    );
    match r {
        Err(Error::PjError(st)) => assert_eq!(st.0, 70004),
        _ => panic!("expected the clock's error"),
    }
}

#[test]
fn session_keeps_first_16_media() {
    let media: Vec<PjMediaSdpMedia> = (0..20u16).map(|p| audio_media(1000 + p)).collect();
    let s = PjMediaSdpSession::new(
        "x",
        None,
        Some(1),
        None,
        None,
        None,
        None,
        Some(media),
        Ok(PjTimeVal::new(0, 0)),
        "h",
    )
    .unwrap();
    let m = s.as_ref().media();
    assert_eq!(m.len(), 16);
    assert_eq!(m[15].desc_port(), 1015);
}

#[test]
fn builder_builds_session() {
    let mut b = PjMediaSdpSession::builder();
    b.name("talk").version(7).addr("192.0.2.1").sdp_media(vec![audio_media(6000)]);
    let s = b.build(Ok(PjTimeVal::new(0, 0)), "h").unwrap();
    let d = s.as_ref().as_ptr();
    assert_eq!(d.origin_user, "pjsip");
    assert_eq!(d.name, "talk");
    assert_eq!(d.origin_version, 7);
    assert_eq!(d.origin_addr, "192.0.2.1");
    assert_eq!(d.media.len(), 1);
    assert!(b.sdp_media.is_none());
    assert_eq!(b.name.as_deref(), Some("talk"));
}
