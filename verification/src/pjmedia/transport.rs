use std::marker::PhantomData;

use vstd::prelude::*;

use crate::error::Error;
use crate::pj::sock::{
    sockaddr_t_data, sockaddr_t_ref_data, spec_get_port, spec_is_ip, spec_set_port, PjSockaddrIn,
    PjSockaddrIn6, SockaddrData, SockaddrT, SockaddrTRef, AF,
};

verus! {

/// A media transport, known by its address; `U` is the type of the user
/// data that its callbacks get.
pub struct PjMediaTransport<U> {
    pub transport: usize,
    pub phantom: PhantomData<U>,
}

impl<U> PjMediaTransport<U> {
    /// The address of the transport.
    pub fn as_ptr(&self) -> (r: usize)
        ensures
            r == self.transport,
    {
        self.transport
    }

    /// The address of the transport, for calls that change it.
    pub fn as_mut_ptr(&mut self) -> (r: usize)
        ensures
            r == old(self).transport,
            *final(self) == *old(self),
    {
        self.transport
    }

    pub fn builder() -> (r: PjMediaTransportBuilder<U>)
        ensures
            r.name is None,
            r.addr_family is None,
            r.addr is None,
            r.port == 0,
            r.options == 0,
    {
        PjMediaTransportBuilder::default()
    }
}

/// The RTCP address that attaching to a remote RTP address uses when none
/// is given: the same address, on the next port.
pub open spec fn spec_default_rem_rtcp(rem_addr: SockaddrData, is_ipv6: bool) -> SockaddrData {
    let port = (spec_get_port(rem_addr) + 1) as u16;
    if is_ipv6 {
        spec_set_port(rem_addr, port)
    } else {
        SockaddrData { port, ..rem_addr }
    }
}

/// The RTCP address to attach with when only the remote RTP address is
/// given: a copy of it with the port after its own.
pub fn default_rem_rtcp(rem_addr: &SockaddrTRef) -> (r: SockaddrT)
    requires
        spec_get_port(sockaddr_t_ref_data(*rem_addr)) < u16::MAX,
    ensures
        sockaddr_t_data(r) == spec_default_rem_rtcp(
            sockaddr_t_ref_data(*rem_addr),
            rem_addr is IPv6,
        ),
        rem_addr is IPv6 <==> r is IPv6,
{
    let port = rem_addr.get_port() + 1;
    match rem_addr {
        SockaddrTRef::IPv4(a) => {
            let mut rem_rtcp: PjSockaddrIn = a.to_owned();
            rem_rtcp.with_port(port);
            SockaddrT::IPv4(rem_rtcp)
        },
        SockaddrTRef::IPv6(a) => {
            let mut rem_rtcp: PjSockaddrIn6 = a.to_owned();
            rem_rtcp.with_port(port);
            SockaddrT::IPv6(rem_rtcp)
        },
    }
}

/// Which of pjmedia's UDP transport constructors makes a transport:
/// with an address and a family, the one that takes both; with an address
/// only, the one that takes the address; else the plain one.
#[derive(Clone, Copy, Debug, PartialEq, Eq, Structural)]
pub enum UdpCreate {
    Create,
    Create2,
    Create3(AF),
}

/// The constructor for the settings given.
pub fn udp_create_variant(has_addr: bool, af: Option<AF>) -> (r: UdpCreate)
    ensures
        r == (if !has_addr {
            UdpCreate::Create
        } else {
            match af {
                Some(a) => UdpCreate::Create3(a),
                None => UdpCreate::Create2,
            }
        }),
{
    if !has_addr {
        UdpCreate::Create
    } else {
        match af {
            Some(a) => UdpCreate::Create3(a),
            None => UdpCreate::Create2,
        }
    }
}

/// Which entries of a transport's operation table (`pjmedia_transport_op`)
/// are there: the table itself, and each operation that this library calls.
#[derive(Clone, Copy, Debug, PartialEq, Eq, Structural)]
pub struct TransportOps {
    pub has_op: bool,
    pub attach2: bool,
    pub attach: bool,
    pub detach: bool,
    pub media_start: bool,
    pub send_rtp: bool,
    pub send_rtcp: bool,
    pub get_info: bool,
}

/// An operation of a transport that is called through its operation table.
#[derive(Clone, Copy, Debug, PartialEq, Eq, Structural)]
pub enum TransportOpKind {
    Detach,
    MediaStart,
    SendRtp,
    SendRtcp,
}

/// Whether the table holds the operation.
pub open spec fn spec_has_op_kind(ops: TransportOps, kind: TransportOpKind) -> bool {
    match kind {
        TransportOpKind::Detach => ops.detach,
        TransportOpKind::MediaStart => ops.media_start,
        TransportOpKind::SendRtp => ops.send_rtp,
        TransportOpKind::SendRtcp => ops.send_rtcp,
    }
}

/// The text of the error for a table that lacks the operation.
pub open spec fn spec_missing_op_msg(kind: TransportOpKind) -> Seq<char> {
    match kind {
        TransportOpKind::Detach => "transport doesnt have detach"@,
        TransportOpKind::MediaStart => "transport doesn't have start"@,
        TransportOpKind::SendRtp => "transport doesn't have send_rtp"@,
        TransportOpKind::SendRtcp => "transport doesn't have send_rtcp"@,
    }
}

/// How attaching goes: through `attach2`, with the RTCP address to use
/// when none was given (`None` when one was), or through the older
/// `attach`, which takes the addresses as given.
pub enum AttachCall {
    Attach2 { default_rem_rtcp: Option<SockaddrT> },
    Attach,
}

impl TransportOps {
    /// Whether the operation can be called: `Ok` when the table is there
    /// and holds it; else the error that the call answers with.
    pub fn check(&self, kind: TransportOpKind) -> (r: Result<(), Error>)
        ensures
            !self.has_op ==> (r matches Err(Error::Validation(m)) && m@
                == "transport op is null"@),
            self.has_op && !spec_has_op_kind(*self, kind) ==> (r matches Err(Error::Validation(m))
                && m@ == spec_missing_op_msg(kind)),
            self.has_op && spec_has_op_kind(*self, kind) ==> r is Ok,
    {
        if !self.has_op {
            return Err(Error::Validation("transport op is null".to_owned()));
        }
        match kind {
            TransportOpKind::Detach => if self.detach {
                Ok(())
            } else {
                Err(Error::Validation("transport doesnt have detach".to_owned()))
            },
            TransportOpKind::MediaStart => if self.media_start {
                Ok(())
            } else {
                Err(Error::Validation("transport doesn't have start".to_owned()))
            },
            TransportOpKind::SendRtp => if self.send_rtp {
                Ok(())
            } else {
                Err(Error::Validation("transport doesn't have send_rtp".to_owned()))
            },
            TransportOpKind::SendRtcp => if self.send_rtcp {
                Ok(())
            } else {
                Err(Error::Validation("transport doesn't have send_rtcp".to_owned()))
            },
        }
    }

    /// Whether the transport can tell of itself; when it cannot, asking
    /// answers `PJ_ENOTSUP`.
    pub fn can_get_info(&self) -> (r: bool)
        ensures
            r == (self.has_op && self.get_info),
    {
        self.has_op && self.get_info
    }

    /// Decides how to attach to the remote addresses: through `attach2`
    /// when the table has it, with the default RTCP address (the RTP
    /// address on the next port) when none is given; else through `attach`;
    /// a missing table or a table with neither is an error.
    pub fn plan_attach(&self, rem_addr: &SockaddrTRef, rem_rtcp: Option<&SockaddrTRef>) -> (r:
        Result<AttachCall, Error>)
        requires
            self.has_op && self.attach2 && rem_rtcp is None ==> spec_get_port(
                sockaddr_t_ref_data(*rem_addr),
            ) < u16::MAX,
        ensures
            !self.has_op ==> (r matches Err(Error::Validation(m)) && m@
                == "transport has no op"@),
            self.has_op && self.attach2 ==> (r matches Ok(AttachCall::Attach2 { default_rem_rtcp })
                && match rem_rtcp {
                Some(_) => default_rem_rtcp is None,
                None => default_rem_rtcp matches Some(a) && sockaddr_t_data(a)
                    == spec_default_rem_rtcp(sockaddr_t_ref_data(*rem_addr), rem_addr is IPv6) && (
                a is IPv6 <==> rem_addr is IPv6),
            }),
            self.has_op && !self.attach2 && self.attach ==> r matches Ok(AttachCall::Attach),
            self.has_op && !self.attach2 && !self.attach ==> (r matches Err(Error::Validation(m))
                && m@ == "transport op has no attach"@),
    {
        if !self.has_op {
            return Err(Error::Validation("transport has no op".to_owned()));
        }
        if self.attach2 {
            let default_rem_rtcp = match rem_rtcp {
                Some(_) => None,
                None => Some(default_rem_rtcp(rem_addr)),
            };
            Ok(AttachCall::Attach2 { default_rem_rtcp })
        } else if self.attach {
            Ok(AttachCall::Attach)
        } else {
            Err(Error::Validation("transport op has no attach".to_owned()))
        }
    }
}

/// The settings of a UDP media transport, gathered before it is made.
pub struct PjMediaTransportBuilder<U> {
    pub name: Option<String>,
    pub addr_family: Option<AF>,
    pub addr: Option<String>,
    pub port: u16,
    pub options: u32,
    pub phantom: PhantomData<U>,
}

impl<U> PjMediaTransportBuilder<U> {
    pub fn port(self, port: u16) -> (r: Self)
        ensures
            r.port == port,
            r.name == self.name,
            r.addr_family == self.addr_family,
            r.addr == self.addr,
            r.options == self.options,
    {
        PjMediaTransportBuilder { port, ..self }
    }

    pub fn name(self, name: &str) -> (r: Self)
        ensures
            r.name matches Some(n) && n@ == name@,
            r.port == self.port,
            r.addr_family == self.addr_family,
            r.addr == self.addr,
            r.options == self.options,
    {
        PjMediaTransportBuilder { name: Some(name.to_owned()), ..self }
    }

    pub fn addr_family(self, af: AF) -> (r: Self)
        ensures
            r.addr_family == Some(af),
            r.name == self.name,
            r.port == self.port,
            r.addr == self.addr,
            r.options == self.options,
    {
        PjMediaTransportBuilder { addr_family: Some(af), ..self }
    }

    pub fn addr(self, addr: &str) -> (r: Self)
        ensures
            r.addr matches Some(a) && a@ == addr@,
            r.name == self.name,
            r.addr_family == self.addr_family,
            r.port == self.port,
            r.options == self.options,
    {
        PjMediaTransportBuilder { addr: Some(addr.to_owned()), ..self }
    }

    pub fn options(self, options: u32) -> (r: Self)
        ensures
            r.options == options,
            r.name == self.name,
            r.addr_family == self.addr_family,
            r.addr == self.addr,
            r.port == self.port,
    {
        PjMediaTransportBuilder { options, ..self }
    }
}

impl<U> Default for PjMediaTransportBuilder<U> {
    fn default() -> (r: Self)
        ensures
            r.name is None,
            r.addr_family is None,
            r.addr is None,
            r.port == 0,
            r.options == 0,
    {
        PjMediaTransportBuilder {
            name: None,
            addr_family: None,
            addr: None,
            port: 0,
            options: 0,
            phantom: PhantomData,
        }
    }
}

/// What a transport tells of itself (`pjmedia_transport_info`): the
/// address that its RTP socket is known by.
pub struct TransportInfoData {
    pub rtp_addr_name: SockaddrData,
}

/// A transport's account of itself.
pub struct PjMediaTransportInfo {
    pub info: TransportInfoData,
}

impl PjMediaTransportInfo {
    /// The port of the RTP address, read as an IPv4 address.
    pub fn rtp_ipv4_port(&self) -> (r: u16)
        ensures
            r == self.info.rtp_addr_name.port,
    {
        self.info.rtp_addr_name.port
    }
}

/// The default RTCP address is the RTP address on the next port: the
/// family and the addresses are kept, and the port is one above the RTP
/// port, for an IPv4 and for an IPv6 remote address alike.
pub proof fn lemma_default_rem_rtcp_next_port(rem_addr: SockaddrData, is_ipv6: bool)
    requires
        spec_is_ip(rem_addr.family),
        rem_addr.port < u16::MAX,
    ensures
        spec_default_rem_rtcp(rem_addr, is_ipv6).port == rem_addr.port + 1,
        spec_default_rem_rtcp(rem_addr, is_ipv6).family == rem_addr.family,
        spec_default_rem_rtcp(rem_addr, is_ipv6).addr == rem_addr.addr,
        spec_default_rem_rtcp(rem_addr, is_ipv6).addr6 == rem_addr.addr6,
        spec_default_rem_rtcp(rem_addr, is_ipv6).flowinfo == rem_addr.flowinfo,
        spec_default_rem_rtcp(rem_addr, is_ipv6).scope_id == rem_addr.scope_id,
{
}

} // verus!
