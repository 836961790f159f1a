use vstd::prelude::*;

use crate::text::{decimal, decimal_signed, spec_decimal, spec_decimal_signed};

verus! {

/// A host and a port (`pjsip_host_port`).
pub struct HostPortData {
    pub host: String,
    pub port: i32,
}

impl Clone for HostPortData {
    fn clone(&self) -> (r: Self)
        ensures
            r == *self,
    {
        HostPortData { host: self.host.clone(), port: self.port }
    }
}

/// The text `<host>:<port>`.
pub open spec fn spec_host_port_text(host: Seq<char>, port: Seq<char>) -> Seq<char> {
    host + ":"@ + port
}

/// A host and port that this value owns.
pub struct PjSipHostPort {
    pub pjsip_host_port: PjSipHostPortRef,
}

impl PjSipHostPort {
    pub fn new(host: &str, port: u16) -> (r: Self)
        ensures
            r.pjsip_host_port.pjsip_host_port.host@ == host@,
            r.pjsip_host_port.pjsip_host_port.port == port as i32,
    {
        PjSipHostPort {
            pjsip_host_port: PjSipHostPortRef::from(
                HostPortData { host: host.to_owned(), port: port as i32 },
            ),
        }
    }

    pub fn host(&self) -> (r: &str)
        ensures
            r@ == self.pjsip_host_port.pjsip_host_port.host@,
    {
        self.pjsip_host_port.host()
    }

    pub fn port(&self) -> (r: u16)
        ensures
            r == self.pjsip_host_port.pjsip_host_port.port as u16,
    {
        self.pjsip_host_port.port()
    }

    pub fn as_mut_ptr(&mut self) -> (r: &mut HostPortData)
        ensures
            *r == old(self).pjsip_host_port.pjsip_host_port,
            final(self).pjsip_host_port.pjsip_host_port == *final(r),
    {
        &mut self.pjsip_host_port.pjsip_host_port
    }

    pub fn as_ptr(&self) -> (r: &HostPortData)
        ensures
            *r == self.pjsip_host_port.pjsip_host_port,
    {
        &self.pjsip_host_port.pjsip_host_port
    }

    pub fn as_ref(&self) -> (r: &PjSipHostPortRef)
        ensures
            *r == self.pjsip_host_port,
    {
        &self.pjsip_host_port
    }

    /// The text `<host>:<port>`, the port as a 16-bit number.
    pub fn to_string(&self) -> (r: String)
        ensures
            r@ == spec_host_port_text(
                self.pjsip_host_port.pjsip_host_port.host@,
                spec_decimal((self.pjsip_host_port.pjsip_host_port.port as u16) as nat),
            ),
    {
        let mut s = self.host().to_owned();
        s.append(":");
        s.append(decimal(self.port() as u64).as_str());
        s
    }
}

/// A view of a host and port.
pub struct PjSipHostPortRef {
    pub pjsip_host_port: HostPortData,
}

impl PjSipHostPortRef {
    pub fn as_ptr(&self) -> (r: &HostPortData)
        ensures
            *r == self.pjsip_host_port,
    {
        &self.pjsip_host_port
    }

    pub fn as_ref(&self) -> (r: &HostPortData)
        ensures
            *r == self.pjsip_host_port,
    {
        &self.pjsip_host_port
    }

    pub fn host(&self) -> (r: &str)
        ensures
            r@ == self.pjsip_host_port.host@,
    {
        self.pjsip_host_port.host.as_str()
    }

    /// The port, cut to 16 bits.
    pub fn port(&self) -> (r: u16)
        ensures
            r == self.pjsip_host_port.port as u16,
    {
        self.pjsip_host_port.port as u16
    }

    pub fn from(value: HostPortData) -> (r: Self)
        ensures
            r.pjsip_host_port == value,
    {
        PjSipHostPortRef { pjsip_host_port: value }
    }

    /// The text `<host>:<port>`, the port as stored.
    pub fn to_string(&self) -> (r: String)
        ensures
            r@ == spec_host_port_text(
                self.pjsip_host_port.host@,
                spec_decimal_signed(self.pjsip_host_port.port as int),
            ),
    {
        let mut s = self.host().to_owned();
        s.append(":");
        s.append(decimal_signed(self.pjsip_host_port.port as i64).as_str());
        s
    }

    /// An owned copy: the host, and the port cut to 16 bits.
    pub fn to_owned(&self) -> (r: PjSipHostPort)
        ensures
            r.pjsip_host_port.pjsip_host_port.host@ == self.pjsip_host_port.host@,
            r.pjsip_host_port.pjsip_host_port.port == (self.pjsip_host_port.port as u16) as i32,
    {
        PjSipHostPort::new(self.host(), self.port())
    }
}

} // verus!
