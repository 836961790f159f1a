use pjproject::error::Error;
use pjproject::pjmedia::rtcp::RtcpPacket;
use pjproject::pjmedia::rtp::RtpPacket;

#[test]
fn rtp_packet_is_header_then_payload() {
    let hdr = [0x80u8, 0x00, 0x00, 0x01, 0, 0, 0, 160, 0xde, 0xad, 0xbe, 0xef, 0x55, 0x55];
    let payload = [1u8, 2, 3, 4, 5];
    let p = RtpPacket::from_encoded_header(0, &hdr, 12, &payload).unwrap();
    let mut expected = hdr[..12].to_vec();
    expected.extend_from_slice(&payload);
    assert_eq!(&p.0[..], &expected[..]);
}

#[test]
fn rtp_packet_with_empty_payload() {
    let hdr = [9u8; 12];
    let p = RtpPacket::from_encoded_header(0, &hdr, 12, &[]).unwrap();
    assert_eq!(&p.0[..], &hdr[..]);
}

#[test]
fn rtp_packet_refuses_bad_header_length() {
    match RtpPacket::from_encoded_header(0, &[], 0, &[1]) {
        Err(Error::Validation(m)) => assert_eq!(m, "invalid rtp hdrlen: 0"),
        _ => panic!("expected a validation error"),
    }
    match RtpPacket::from_encoded_header(70004, &[], -3, &[1]) {
        Err(Error::Validation(m)) => assert_eq!(m, "invalid rtp hdrlen: -3"),
        _ => panic!("expected a validation error"),
    }
}

#[test]
fn rtp_packet_passes_on_encode_failure() {
    match RtpPacket::from_encoded_header(70004, &[0u8; 12], 12, &[1, 2]) {
        Err(Error::PjError(st)) => assert_eq!(st.0, 70004),
        _ => panic!("expected the encoder's status"),
    }
}

#[test]
fn rtcp_packet_keeps_its_length() {
    let pkt = [0x81u8, 200, 0, 6, 1, 2, 3, 4, 5, 6, 7, 8, 99, 99];
    let p = RtcpPacket::from_built(&pkt, 12).unwrap();
    assert_eq!(&p.0[..], &pkt[..12]);
}

#[test]
fn rtcp_packet_refuses_bad_length() {
    match RtcpPacket::from_built(&[], 0) {
        Err(Error::Validation(m)) => assert_eq!(m, "Invalid rtcp packet: 0"),
        _ => panic!("expected a validation error"),
    }
    match RtcpPacket::from_built(&[], -1) {
        Err(Error::Validation(m)) => assert_eq!(m, "Invalid rtcp packet: -1"),
        _ => panic!("expected a validation error"),
    }
}
