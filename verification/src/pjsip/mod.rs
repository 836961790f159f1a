pub mod sip_dialog;
pub mod sip_endpoint;
pub mod sip_event;
pub mod sip_module;
pub mod sip_transport;
pub mod sip_transport_udp;
pub mod sip_types;
