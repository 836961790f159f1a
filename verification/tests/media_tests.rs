use pjproject::pj::sock::{
    PjSockaddrIn6Ref, PjSockaddrInRef, SockaddrData, SockaddrT, SockaddrTRef,
    SockFamily, AF,
};

const PJ_AF_INET: SockFamily = SockFamily::Named(AF::PJ_AF_INET);
const PJ_AF_INET6: SockFamily = SockFamily::Named(AF::PJ_AF_INET6);
use pjproject::pjmedia::codec::{CodecInfoData, PjMediaCodecRef};
use pjproject::pjmedia::media_types::PjMediaDir;
use pjproject::pjmedia::stream::{PjMediaStreamInfo, StreamInfoData};
use pjproject::error::Error;
use pjproject::pjmedia::transport::{
    default_rem_rtcp, AttachCall, PjMediaTransport, PjMediaTransportInfo, TransportInfoData,
    TransportOpKind, TransportOps, udp_create_variant, UdpCreate,
};

fn addr(family: SockFamily, port: u16) -> SockaddrData {
    SockaddrData { family, port, addr: 0xc000_0201, flowinfo: 0, addr6: 1, scope_id: 0 }
}

#[test]
fn media_dir_numbers() {
    assert_eq!(PjMediaDir::NONE.to_pjmedia_dir(), 0);
    assert_eq!(PjMediaDir::ENCODING.to_pjmedia_dir(), 1);
    assert_eq!(PjMediaDir::CAPTURE.to_pjmedia_dir(), 1);
    assert_eq!(PjMediaDir::DECODING.to_pjmedia_dir(), 2);
    assert_eq!(PjMediaDir::PLAYBACK.to_pjmedia_dir(), 2);
    assert_eq!(PjMediaDir::RENDER.to_pjmedia_dir(), 2);
    assert_eq!(PjMediaDir::ENCODING_DECODING.to_pjmedia_dir(), 3);
    assert_eq!(PjMediaDir::CAPTURE_PLAYBACK.to_pjmedia_dir(), 3);
    assert_eq!(PjMediaDir::CAPTURE_RENDER.to_pjmedia_dir(), 3);
}

#[test]
fn default_rtcp_is_next_port_ipv4() {
    let r = default_rem_rtcp(&SockaddrTRef::IPv4(PjSockaddrInRef::from(addr(PJ_AF_INET, 4000))));
    match r {
        SockaddrT::IPv4(a) => assert_eq!(*a.as_ptr(), addr(PJ_AF_INET, 4001)),
        _ => panic!("expected an IPv4 address"),
    }
}

#[test]
fn default_rtcp_is_next_port_ipv6() {
    let r = default_rem_rtcp(&SockaddrTRef::IPv6(PjSockaddrIn6Ref::from(addr(PJ_AF_INET6, 5004))));
    match r {
        SockaddrT::IPv6(a) => assert_eq!(*a.as_ptr(), addr(PJ_AF_INET6, 5005)),
        _ => panic!("expected an IPv6 address"),
    }
}

#[test]
fn transport_builder_records_settings() {
    let b = PjMediaTransport::<()>::builder()
        .name("rtp")
        .addr_family(AF::PJ_AF_INET)
        .addr("0.0.0.0")
        .port(4000)
        .options(2);
    assert_eq!(b.name.as_deref(), Some("rtp"));
    assert_eq!(b.addr_family, Some(AF::PJ_AF_INET));
    assert_eq!(b.addr.as_deref(), Some("0.0.0.0"));
    assert_eq!((b.port, b.options), (4000, 2));
}

#[test]
fn transport_info_port() {
    let info = PjMediaTransportInfo { info: TransportInfoData { rtp_addr_name: addr(PJ_AF_INET, 7078) } };
    assert_eq!(info.rtp_ipv4_port(), 7078);
}

#[test]
fn stream_info_fields_and_vad() {
    let codec = CodecInfoData {
        type_: 1,
        pt: 8,
        encoding_name: "PCMA".to_string(),
        clock_rate: 8000,
        channel_cnt: 1,
    };
    let mut info = PjMediaStreamInfo {
        stream_info: StreamInfoData {
            fmt: codec,
            tx_pt: 8,
            rem_addr: addr(PJ_AF_INET, 4000),
            rem_rtcp: addr(PJ_AF_INET, 4001),
            vad: true,
        },
    };
    let f = info.fmt();
    assert_eq!((f.type_(), f.pt(), f.clock_rate(), f.channel()), (1, 8, 8000, 1));
    assert_eq!(f.encoding_name(), "PCMA");
    assert_eq!(info.tx_pt(), 8);
    assert_eq!(info.rem_addr().sockaddr.port, 4000);
    assert_eq!(info.rem_rtcp().sockaddr.port, 4001);
    assert!(info.vad_enabled());
    info.disable_vad();
    assert!(!info.vad_enabled());
    info.enable_vad();
    assert!(info.vad_enabled());
}

#[test]
fn codec_ref_reads_fields() {
    let c = PjMediaCodecRef::from(CodecInfoData {
        type_: 2,
        pt: 96,
        encoding_name: "H264".to_string(),
        clock_rate: 90000,
        channel_cnt: 0,
    });
    assert_eq!(c.as_ref().pt, 96);
    assert_eq!(c.encoding_name(), "H264");
}

fn ops(has_op: bool, attach2: bool, attach: bool) -> TransportOps {
    TransportOps {
        has_op,
        attach2,
        attach,
        detach: true,
        media_start: false,
        send_rtp: true,
        send_rtcp: false,
        get_info: true,
    }
}

fn validation(r: Result<(), Error>) -> String {
    match r {
        Err(Error::Validation(m)) => m,
        _ => panic!("expected a validation error"),
    }
}

#[test]
fn op_checks_give_the_errors() {
    let none = ops(false, false, false);
    assert_eq!(validation(none.check(TransportOpKind::SendRtp)), "transport op is null");
    let t = ops(true, false, false);
    assert!(t.check(TransportOpKind::Detach).is_ok());
    assert!(t.check(TransportOpKind::SendRtp).is_ok());
    assert_eq!(validation(t.check(TransportOpKind::MediaStart)), "transport doesn't have start");
    assert_eq!(validation(t.check(TransportOpKind::SendRtcp)), "transport doesn't have send_rtcp");
    let mut u = t;
    u.detach = false;
    u.send_rtp = false;
    assert_eq!(validation(u.check(TransportOpKind::Detach)), "transport doesnt have detach");
    assert_eq!(validation(u.check(TransportOpKind::SendRtp)), "transport doesn't have send_rtp");
    assert!(t.can_get_info());
    assert!(!none.can_get_info());
}

#[test]
fn attach_prefers_attach2_with_default_rtcp() {
    let rem = SockaddrTRef::IPv4(PjSockaddrInRef::from(addr(PJ_AF_INET, 4000)));
    match ops(true, true, true).plan_attach(&rem, None) {
        Ok(AttachCall::Attach2 { default_rem_rtcp: Some(SockaddrT::IPv4(a)) }) => {
            assert_eq!(a.as_ref().get_port(), 4001)
        }
        _ => panic!("expected attach2 with a default RTCP address"),
    }
    let rtcp = SockaddrTRef::IPv4(PjSockaddrInRef::from(addr(PJ_AF_INET, 4100)));
    match ops(true, true, false).plan_attach(&rem, Some(&rtcp)) {
        Ok(AttachCall::Attach2 { default_rem_rtcp: None }) => {}
        _ => panic!("expected attach2 with the given RTCP address"),
    }
}

#[test]
fn attach_falls_back_or_fails() {
    let rem = SockaddrTRef::IPv4(PjSockaddrInRef::from(addr(PJ_AF_INET, 4000)));
    assert!(matches!(ops(true, false, true).plan_attach(&rem, None), Ok(AttachCall::Attach)));
    match ops(true, false, false).plan_attach(&rem, None) {
        Err(Error::Validation(m)) => assert_eq!(m, "transport op has no attach"),
        _ => panic!("expected a validation error"),
    }
    match ops(false, true, true).plan_attach(&rem, None) {
        Err(Error::Validation(m)) => assert_eq!(m, "transport has no op"),
        _ => panic!("expected a validation error"),
    }
}

#[test]
fn udp_constructor_choice() {
    assert_eq!(udp_create_variant(false, Some(AF::PJ_AF_INET6)), UdpCreate::Create);
    assert_eq!(udp_create_variant(true, None), UdpCreate::Create2);
    assert_eq!(udp_create_variant(true, Some(AF::PJ_AF_INET6)), UdpCreate::Create3(AF::PJ_AF_INET6));
}
