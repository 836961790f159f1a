use pjproject::error::Error;
use pjproject::pjsip::sip_endpoint::DEFAULT_SIP_PORT;
use pjproject::pjsip::sip_module::{ModuleData, PjSipModule, PjSipModuleRef, PjSipModuleRefMut};
use pjproject::pjsip::sip_transport::PjSipTxData;
use pjproject::pjsip::sip_transport_udp::PjSipTransportUdp;
use pjproject::pjsip::sip_types::{HostPortData, PjSipHostPort, PjSipHostPortRef};

#[test]
fn host_port_text() {
    let hp = PjSipHostPort::new("sip.example.org", DEFAULT_SIP_PORT);
    assert_eq!(hp.host(), "sip.example.org");
    assert_eq!(hp.port(), 5060);
    assert_eq!(hp.to_string(), "sip.example.org:5060");
    assert_eq!(hp.as_ref().to_string(), "sip.example.org:5060");
}

#[test]
fn host_port_ref_shows_stored_port() {
    let r = PjSipHostPortRef::from(HostPortData { host: "h".to_string(), port: 70000 });
    assert_eq!(r.to_string(), "h:70000");
    assert_eq!(r.port(), (70000i32 as u16));
    let owned = r.to_owned();
    assert_eq!(owned.to_string(), "h:4464");
    let neg = PjSipHostPortRef::from(HostPortData { host: "h".to_string(), port: -1 });
    assert_eq!(neg.to_string(), "h:-1");
}

#[test]
fn udp_transport_local_name() {
    let t = PjSipTransportUdp {
        pjsip_transport: 1,
        local_name: HostPortData { host: "10.0.0.2".to_string(), port: 5062 },
    };
    assert_eq!(t.local_name().to_string(), "10.0.0.2:5062");
}

#[test]
fn module_starts_unregistered() {
    let mut m = PjSipModule::new("mod-app").unwrap();
    assert_eq!(m.id(), -1);
    assert_eq!(m.as_ptr().name, "mod-app");
    assert!(m.sip_endpt.is_none());
    m.registered(0x1000);
    assert_eq!(m.sip_endpt, Some(0x1000));
    m.as_mut_ptr().id = 3;
    assert_eq!(m.id(), 3);
}

#[test]
fn module_refs_read_id() {
    let r = PjSipModuleRef::from(ModuleData { name: "ua".to_string(), id: 7 });
    assert_eq!(r.id(), 7);
    let w = PjSipModuleRefMut::from(ModuleData { name: "ua".to_string(), id: 8 });
    assert_eq!(w.id(), 8);
}

#[test]
fn tx_data_from_created() {
    match PjSipTxData::from_created(0, 0) {
        Err(Error::Validation(m)) => assert_eq!(m, "Got null creating PjSipTxData"),
        _ => panic!("expected a validation error"),
    }
    match PjSipTxData::from_created(70004, 0x20) {
        Err(Error::PjError(st)) => assert_eq!(st.0, 70004),
        _ => panic!("expected the call's status"),
    }
    let t = PjSipTxData::from_created(0, 0x20).unwrap();
    assert_eq!(t.as_ptr(), 0x20);
}
