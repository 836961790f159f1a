#![allow(non_camel_case_types)]
use std::marker::PhantomData;

use vstd::prelude::*;

verus! {

/// An address family that pjlib names.
#[derive(Clone, Copy, Debug, PartialEq, Eq, Structural)]
pub enum AF {
    PJ_AF_UNSPEC,
    PJ_AF_UNIX,
    PJ_AF_INET,
    PJ_AF_INET6,
    PJ_AF_PACKET,
    PJ_AF_IRDA,
}

/// The numbers that the system gives the address families, as pjlib's
/// `PJ_AF_*` constants hold them. They differ from one system to another
/// (IPv6 is 10 on Linux and 30 on macOS), so they are read where pjlib is
/// and handed in.
#[derive(Clone, Copy, Debug, PartialEq, Eq, Structural)]
pub struct AfNumbers {
    pub unspec: u16,
    pub unix: u16,
    pub inet: u16,
    pub inet6: u16,
    pub packet: u16,
    pub irda: u16,
}

/// The number that the system gives an address family.
pub open spec fn spec_af_value(af: AF, numbers: AfNumbers) -> u16 {
    match af {
        AF::PJ_AF_UNSPEC => numbers.unspec,
        AF::PJ_AF_UNIX => numbers.unix,
        AF::PJ_AF_INET => numbers.inet,
        AF::PJ_AF_INET6 => numbers.inet6,
        AF::PJ_AF_PACKET => numbers.packet,
        AF::PJ_AF_IRDA => numbers.irda,
    }
}

impl AF {
    /// The number that the system gives the family, out of `numbers`.
    pub fn as_u16(&self, numbers: &AfNumbers) -> (r: u16)
        ensures
            r == spec_af_value(*self, *numbers),
    {
        match self {
            AF::PJ_AF_UNSPEC => numbers.unspec,
            AF::PJ_AF_UNIX => numbers.unix,
            AF::PJ_AF_INET => numbers.inet,
            AF::PJ_AF_INET6 => numbers.inet6,
            AF::PJ_AF_PACKET => numbers.packet,
            AF::PJ_AF_IRDA => numbers.irda,
        }
    }
}

/// The family of a socket address: one that pjlib names, or a number
/// that is none of those, as the system gave it.
#[derive(Clone, Copy, Debug, PartialEq, Eq, Structural)]
pub enum SockFamily {
    Named(AF),
    Other(u16),
}

/// An IPv4 or an IPv6 family: the families that have a port.
pub open spec fn spec_is_ip(f: SockFamily) -> bool {
    f == SockFamily::Named(AF::PJ_AF_INET) || f == SockFamily::Named(AF::PJ_AF_INET6)
}

fn is_ip(f: &SockFamily) -> (r: bool)
    ensures
        r == spec_is_ip(*f),
{
    match f {
        SockFamily::Named(AF::PJ_AF_INET) => true,
        SockFamily::Named(AF::PJ_AF_INET6) => true,
        _ => false,
    }
}

/// The fields of a socket address (`pj_sockaddr`, the union of the IPv4
/// and IPv6 forms). Port and addresses are kept in host byte order.
#[derive(Clone, Copy, Debug, PartialEq, Eq, Structural)]
pub struct SockaddrData {
    /// The address family.
    pub family: SockFamily,
    /// The port.
    pub port: u16,
    /// The IPv4 address.
    pub addr: u32,
    /// The IPv6 flow information.
    pub flowinfo: u32,
    /// The IPv6 address.
    pub addr6: u128,
    /// The IPv6 scope.
    pub scope_id: u32,
}

/// An all-zero socket address: every field 0, and so the unspecified
/// family, which the systems that pjlib runs on number 0.
pub open spec fn zero_sockaddr() -> SockaddrData {
    SockaddrData { family: SockFamily::Named(AF::PJ_AF_UNSPEC), port: 0, addr: 0, flowinfo: 0, addr6: 0, scope_id: 0 }
}

/// The address with its port set, as `pj_sockaddr_set_port` does: only an
/// IPv4 or IPv6 address has a port to set; others stay as they are.
pub open spec fn spec_set_port(s: SockaddrData, port: u16) -> SockaddrData {
    if spec_is_ip(s.family) {
        SockaddrData { port, ..s }
    } else {
        s
    }
}

/// The port of an address, as `pj_sockaddr_get_port` gives it: 0xFFFF
/// for an address that is neither IPv4 nor IPv6.
pub open spec fn spec_get_port(s: SockaddrData) -> u16 {
    if spec_is_ip(s.family) {
        s.port
    } else {
        0xFFFF
    }
}

fn zeroed_sockaddr() -> (r: SockaddrData)
    ensures
        r == zero_sockaddr(),
{
    SockaddrData { family: SockFamily::Named(AF::PJ_AF_UNSPEC), port: 0, addr: 0, flowinfo: 0, addr6: 0, scope_id: 0 }
}

fn set_port(s: &mut SockaddrData, port: u16)
    ensures
        *final(s) == spec_set_port(*old(s), port),
{
    if is_ip(&s.family) {
        s.port = port;
    }
}

fn get_port(s: &SockaddrData) -> (r: u16)
    ensures
        r == spec_get_port(*s),
{
    if is_ip(&s.family) {
        s.port
    } else {
        0xFFFF
    }
}

/// A socket address of either family.
pub struct PjSockaddr {
    pub sockaddr: PjSockaddrRef<'static>,
}

impl PjSockaddr {
    /// The address's fields.
    pub fn as_ptr(&self) -> (r: &SockaddrData)
        ensures
            *r == self.sockaddr.sockaddr,
    {
        self.sockaddr.as_ptr()
    }

    /// The address's fields, to change.
    pub fn as_mut_ptr(&mut self) -> (r: &mut SockaddrData)
        ensures
            *r == old(self).sockaddr.sockaddr,
            final(self).sockaddr.sockaddr == *final(r),
    {
        &mut self.sockaddr.sockaddr
    }

    /// Sets the port (when the address is IPv4 or IPv6).
    pub fn with_port(&mut self, port: u16) -> (r: &mut Self)
        ensures
            r.sockaddr.sockaddr == spec_set_port(old(self).sockaddr.sockaddr, port),
            final(self).sockaddr.sockaddr == final(r).sockaddr.sockaddr,
    {
        set_port(&mut self.sockaddr.sockaddr, port);
        self
    }

    pub fn as_ref(&self) -> (r: &PjSockaddrRef<'static>)
        ensures
            r.sockaddr == self.sockaddr.sockaddr,
    {
        &self.sockaddr
    }
}

impl PjSockaddr {
    pub fn from(value: SockaddrData) -> (r: Self)
        ensures
            r.sockaddr.sockaddr == value,
    {
        PjSockaddr { sockaddr: PjSockaddrRef::from(value) }
    }
}

/// A view of a socket address of either family.
pub struct PjSockaddrRef<'a> {
    pub sockaddr: SockaddrData,
    pub phantom: PhantomData<&'a SockaddrData>,
}

impl<'a> PjSockaddrRef<'a> {
    pub fn as_ptr(&self) -> (r: &SockaddrData)
        ensures
            *r == self.sockaddr,
    {
        &self.sockaddr
    }
}

impl<'a> PjSockaddrRef<'a> {
    pub fn from(value: SockaddrData) -> (r: Self)
        ensures
            r.sockaddr == value,
    {
        PjSockaddrRef { sockaddr: value, phantom: PhantomData }
    }
}


/// An IPv4 socket address (`pj_sockaddr_in`).
pub struct PjSockaddrIn {
    pub sockaddr_in: PjSockaddrInRef<'static>,
}

impl PjSockaddrIn {
    pub fn as_ptr(&self) -> (r: &SockaddrData)
        ensures
            *r == self.sockaddr_in.sockaddr_in,
    {
        &self.sockaddr_in.sockaddr_in
    }

    pub fn as_mut_ptr(&mut self) -> (r: &mut SockaddrData)
        ensures
            *r == old(self).sockaddr_in.sockaddr_in,
            final(self).sockaddr_in.sockaddr_in == *final(r),
    {
        &mut self.sockaddr_in.sockaddr_in
    }

    pub fn as_mut(&mut self) -> (r: &mut SockaddrData)
        ensures
            *r == old(self).sockaddr_in.sockaddr_in,
            final(self).sockaddr_in.sockaddr_in == *final(r),
    {
        &mut self.sockaddr_in.sockaddr_in
    }

    /// Sets the address family.
    pub fn with_family(&mut self, family: AF) -> (r: &mut Self)
        ensures
            r.sockaddr_in.sockaddr_in == (SockaddrData {
                family: SockFamily::Named(family),
                ..old(self).sockaddr_in.sockaddr_in
            }),
            final(self).sockaddr_in.sockaddr_in == final(r).sockaddr_in.sockaddr_in,
    {
        self.sockaddr_in.sockaddr_in.family = SockFamily::Named(family);
        self
    }

    /// Sets the IPv4 address (in host byte order), as
    /// `pj_sockaddr_in_set_addr` does: the family and the port stay as they
    /// were.
    pub fn with_addr(&mut self, addr: u32) -> (r: &mut Self)
        ensures
            r.sockaddr_in.sockaddr_in == (SockaddrData { addr, ..old(self).sockaddr_in.sockaddr_in }),
            final(self).sockaddr_in.sockaddr_in == final(r).sockaddr_in.sockaddr_in,
    {
        self.sockaddr_in.sockaddr_in.addr = addr;
        self
    }

    /// Sets the port, as `pj_sockaddr_in_set_port` does, whatever the
    /// family.
    pub fn with_port(&mut self, port: u16) -> (r: &mut Self)
        ensures
            r.sockaddr_in.sockaddr_in == (SockaddrData { port, ..old(self).sockaddr_in.sockaddr_in }),
            final(self).sockaddr_in.sockaddr_in == final(r).sockaddr_in.sockaddr_in,
    {
        self.sockaddr_in.sockaddr_in.port = port;
        self
    }

    pub fn as_ref(&self) -> (r: &PjSockaddrInRef<'static>)
        ensures
            r.sockaddr_in == self.sockaddr_in.sockaddr_in,
    {
        &self.sockaddr_in
    }
}

impl Default for PjSockaddrIn {
    fn default() -> (r: Self)
        ensures
            r.sockaddr_in.sockaddr_in == zero_sockaddr(),
    {
        PjSockaddrIn { sockaddr_in: PjSockaddrInRef::from(zeroed_sockaddr()) }
    }
}

/// A view of an IPv4 socket address.
pub struct PjSockaddrInRef<'a> {
    pub sockaddr_in: SockaddrData,
    pub phantom: PhantomData<&'a SockaddrData>,
}

impl<'a> PjSockaddrInRef<'a> {
    pub fn as_ptr(&self) -> (r: &SockaddrData)
        ensures
            *r == self.sockaddr_in,
    {
        &self.sockaddr_in
    }

    /// The port, as `pj_sockaddr_get_port` gives it.
    pub fn get_port(&self) -> (r: u16)
        ensures
            r == spec_get_port(self.sockaddr_in),
    {
        get_port(&self.sockaddr_in)
    }

    pub fn from(value: SockaddrData) -> (r: Self)
        ensures
            r.sockaddr_in == value,
    {
        PjSockaddrInRef { sockaddr_in: value, phantom: PhantomData }
    }

    /// Views an address of either family as an IPv4 one.
    pub fn from_sockaddr(value: PjSockaddrRef<'a>) -> (r: Self)
        ensures
            r.sockaddr_in == value.sockaddr,
    {
        PjSockaddrInRef { sockaddr_in: value.sockaddr, phantom: PhantomData }
    }

    /// An owned copy of the address.
    pub fn to_owned(&self) -> (r: PjSockaddrIn)
        ensures
            r.sockaddr_in.sockaddr_in == self.sockaddr_in,
    {
        PjSockaddrIn { sockaddr_in: PjSockaddrInRef::from(self.sockaddr_in) }
    }
}

/// An IPv6 socket address (`pj_sockaddr_in6`).
pub struct PjSockaddrIn6 {
    pub sockaddr_in6: PjSockaddrIn6Ref<'static>,
}

impl PjSockaddrIn6 {
    pub fn as_ptr(&self) -> (r: &SockaddrData)
        ensures
            *r == self.sockaddr_in6.sockaddr_in6,
    {
        &self.sockaddr_in6.sockaddr_in6
    }

    pub fn as_mut_ptr(&mut self) -> (r: &mut SockaddrData)
        ensures
            *r == old(self).sockaddr_in6.sockaddr_in6,
            final(self).sockaddr_in6.sockaddr_in6 == *final(r),
    {
        &mut self.sockaddr_in6.sockaddr_in6
    }

    /// Sets the port (when the address is IPv4 or IPv6), as
    /// `pj_sockaddr_set_port` does.
    pub fn with_port(&mut self, port: u16) -> (r: &mut Self)
        ensures
            r.sockaddr_in6.sockaddr_in6 == spec_set_port(old(self).sockaddr_in6.sockaddr_in6, port),
            final(self).sockaddr_in6.sockaddr_in6 == final(r).sockaddr_in6.sockaddr_in6,
    {
        set_port(&mut self.sockaddr_in6.sockaddr_in6, port);
        self
    }

    pub fn as_ref(&self) -> (r: &PjSockaddrIn6Ref<'static>)
        ensures
            r.sockaddr_in6 == self.sockaddr_in6.sockaddr_in6,
    {
        &self.sockaddr_in6
    }
}

impl Default for PjSockaddrIn6 {
    fn default() -> (r: Self)
        ensures
            r.sockaddr_in6.sockaddr_in6 == zero_sockaddr(),
    {
        PjSockaddrIn6 { sockaddr_in6: PjSockaddrIn6Ref::from(zeroed_sockaddr()) }
    }
}

/// A view of an IPv6 socket address.
pub struct PjSockaddrIn6Ref<'a> {
    pub sockaddr_in6: SockaddrData,
    pub phantom: PhantomData<&'a SockaddrData>,
}

impl<'a> PjSockaddrIn6Ref<'a> {
    pub fn as_ptr(&self) -> (r: &SockaddrData)
        ensures
            *r == self.sockaddr_in6,
    {
        &self.sockaddr_in6
    }

    /// The port, as `pj_sockaddr_get_port` gives it.
    pub fn get_port(&self) -> (r: u16)
        ensures
            r == spec_get_port(self.sockaddr_in6),
    {
        get_port(&self.sockaddr_in6)
    }

    pub fn from(value: SockaddrData) -> (r: Self)
        ensures
            r.sockaddr_in6 == value,
    {
        PjSockaddrIn6Ref { sockaddr_in6: value, phantom: PhantomData }
    }

    /// An owned copy of the address.
    pub fn to_owned(&self) -> (r: PjSockaddrIn6)
        ensures
            r.sockaddr_in6.sockaddr_in6 == self.sockaddr_in6,
    {
        PjSockaddrIn6 { sockaddr_in6: PjSockaddrIn6Ref::from(self.sockaddr_in6) }
    }
}

/// An owned socket address of one of the two IP families.
pub enum SockaddrT {
    IPv4(PjSockaddrIn),
    IPv6(PjSockaddrIn6),
}

/// A view of a socket address of one of the two IP families.
pub enum SockaddrTRef<'a> {
    IPv4(PjSockaddrInRef<'a>),
    IPv6(PjSockaddrIn6Ref<'a>),
}

/// The fields of the address that an address reference views.
pub open spec fn sockaddr_t_ref_data(a: SockaddrTRef) -> SockaddrData {
    match a {
        SockaddrTRef::IPv4(r) => r.sockaddr_in,
        SockaddrTRef::IPv6(r) => r.sockaddr_in6,
    }
}

/// The fields of an owned address.
pub open spec fn sockaddr_t_data(a: SockaddrT) -> SockaddrData {
    match a {
        SockaddrT::IPv4(r) => r.sockaddr_in.sockaddr_in,
        SockaddrT::IPv6(r) => r.sockaddr_in6.sockaddr_in6,
    }
}

impl<'a> SockaddrTRef<'a> {
    /// The port of the address.
    pub fn get_port(&self) -> (r: u16)
        ensures
            r == spec_get_port(sockaddr_t_ref_data(*self)),
    {
        match self {
            SockaddrTRef::IPv4(a) => a.get_port(),
            SockaddrTRef::IPv6(a) => a.get_port(),
        }
    }
}

/// The port that is set on an IPv4 or IPv6 address is the port read back;
/// an address of another family keeps its fields and reads back 0xFFFF.
pub proof fn lemma_port_roundtrip(s: SockaddrData, port: u16)
    ensures
        spec_is_ip(s.family) ==> spec_get_port(
            spec_set_port(s, port),
        ) == port,
        !spec_is_ip(s.family) ==> spec_set_port(s, port) == s
            && spec_get_port(s) == 0xFFFF,
{
}

/// Setting the IPv4 address changes neither the family nor the port: the
/// port reads back as before, and on an IPv4 address a port set afterwards
/// reads back.
pub proof fn lemma_addr_keeps_port(s: SockaddrData, addr: u32, port: u16)
    ensures
        spec_get_port(SockaddrData { addr, ..s }) == spec_get_port(s),
        s.family == SockFamily::Named(AF::PJ_AF_INET) ==> spec_get_port(
            SockaddrData { port, ..SockaddrData { addr, ..s } },
        ) == port,
{
}

/// Setting the port changes nothing but the port: family, IPv4 address,
/// flow information, IPv6 address and scope read back as they were; on an
/// IPv4 or IPv6 address the port becomes the one set, on any other it
/// stays.
pub proof fn lemma_set_port_changes_only_port(s: SockaddrData, port: u16)
    ensures
        spec_set_port(s, port).family == s.family,
        spec_set_port(s, port).addr == s.addr,
        spec_set_port(s, port).flowinfo == s.flowinfo,
        spec_set_port(s, port).addr6 == s.addr6,
        spec_set_port(s, port).scope_id == s.scope_id,
        spec_is_ip(s.family) ==> spec_set_port(s, port).port == port,
        !spec_is_ip(s.family) ==> spec_set_port(s, port).port == s.port,
{
}

} // verus!
