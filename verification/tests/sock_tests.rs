use pjproject::pj::sock::{
    PjSockaddr, PjSockaddrIn, PjSockaddrIn6, PjSockaddrInRef, PjSockaddrRef, SockaddrData,
    SockaddrTRef, AfNumbers, SockFamily, AF,
};

const INET: SockFamily = SockFamily::Named(AF::PJ_AF_INET);
const INET6: SockFamily = SockFamily::Named(AF::PJ_AF_INET6);
const UNIX: SockFamily = SockFamily::Named(AF::PJ_AF_UNIX);

fn data(family: SockFamily, port: u16) -> SockaddrData {
    SockaddrData { family, port, addr: 0x7f00_0001, flowinfo: 0, addr6: 0, scope_id: 0 }
}

#[test]
fn address_family_numbers() {
    let linux = AfNumbers { unspec: 0, unix: 1, inet: 2, inet6: 10, packet: 17, irda: 23 };
    assert_eq!(AF::PJ_AF_UNSPEC.as_u16(&linux), 0);
    assert_eq!(AF::PJ_AF_UNIX.as_u16(&linux), 1);
    assert_eq!(AF::PJ_AF_INET.as_u16(&linux), 2);
    assert_eq!(AF::PJ_AF_INET6.as_u16(&linux), 10);
    assert_eq!(AF::PJ_AF_PACKET.as_u16(&linux), 17);
    assert_eq!(AF::PJ_AF_IRDA.as_u16(&linux), 23);
    let macos = AfNumbers { unspec: 0, unix: 1, inet: 2, inet6: 30, packet: 0xFFFF, irda: 0xFFFF };
    assert_eq!(AF::PJ_AF_INET6.as_u16(&macos), 30);
    assert_eq!(AF::PJ_AF_PACKET.as_u16(&macos), 0xFFFF);
}

#[test]
fn ipv4_port_roundtrip() {
    let mut a = PjSockaddrIn::default();
    assert_eq!(
        *a.as_ptr(),
        SockaddrData { family: SockFamily::Named(AF::PJ_AF_UNSPEC), port: 0, addr: 0, flowinfo: 0, addr6: 0, scope_id: 0 }
    );
    a.with_family(AF::PJ_AF_INET).with_addr(0x0a00_0001).with_port(4000);
    assert_eq!(a.as_ptr().family, INET);
    assert_eq!(a.as_ptr().addr, 0x0a00_0001);
    assert_eq!(a.as_ref().get_port(), 4000);
}

#[test]
fn with_addr_keeps_family_and_port() {
    let mut a = PjSockaddrIn::default();
    a.with_port(4000).with_addr(0x0a00_0001);
    assert_eq!(a.as_ptr().family, SockFamily::Named(AF::PJ_AF_UNSPEC));
    assert_eq!(a.as_ptr().port, 4000);
    assert_eq!(a.as_ptr().addr, 0x0a00_0001);
    assert_eq!(a.as_ref().get_port(), 0xFFFF);
}

#[test]
fn with_family_sets_only_the_family() {
    let mut a = PjSockaddrIn::default();
    a.with_port(80).with_family(AF::PJ_AF_INET6);
    assert_eq!(a.as_ptr().family, INET6);
    assert_eq!(a.as_ptr().port, 80);
}

#[test]
fn port_of_other_family_reads_ffff() {
    let r = PjSockaddrInRef::from(data(UNIX, 1234));
    assert_eq!(r.get_port(), 0xFFFF);
}

#[test]
fn generic_address_sets_port_only_for_ip() {
    let mut a = PjSockaddr::from(data(INET, 1));
    a.with_port(9000);
    assert_eq!(a.as_ptr().port, 9000);

    let mut u = PjSockaddr::from(data(UNIX, 1));
    u.with_port(9000);
    assert_eq!(*u.as_ptr(), data(UNIX, 1));
}

#[test]
fn ipv6_port_roundtrip() {
    let mut a = PjSockaddrIn6::default();
    a.as_mut_ptr().family = INET6;
    a.with_port(5004);
    assert_eq!(a.as_ref().get_port(), 5004);
    let copy = a.as_ref().to_owned();
    assert_eq!(*copy.as_ptr(), *a.as_ptr());
}

#[test]
fn sockaddr_t_ref_port() {
    let v4 = PjSockaddrInRef::from(data(INET, 5060));
    assert_eq!(SockaddrTRef::IPv4(v4).get_port(), 5060);
    let from_generic = PjSockaddrInRef::from_sockaddr(PjSockaddrRef::from(data(INET, 7)));
    assert_eq!(from_generic.get_port(), 7);
}

#[test]
fn unknown_family_has_no_port() {
    let r = PjSockaddrInRef::from(data(SockFamily::Other(30), 5004));
    assert_eq!(r.get_port(), 0xFFFF);
}
