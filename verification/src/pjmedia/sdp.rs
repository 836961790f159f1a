use vstd::prelude::*;

use crate::error::Error;
use crate::pj::pj_types::PjTimeVal;
use crate::text::str_eq;

verus! {

/// How many formats a media line holds at most.
pub const PJMEDIA_MAX_SDP_FMT: usize = 32;

/// How many attributes a media line holds at most.
pub const PJMEDIA_MAX_SDP_ATTR: usize = 68;

/// How many media lines a session holds at most.
pub const PJMEDIA_MAX_SDP_MEDIA: usize = 16;

/// The difference in seconds between the NTP epoch (1900) and the Unix
/// epoch (1970): an SDP session version made from the clock adds it.
pub const NTP_UNIX_EPOCH_OFFSET: u64 = 2_208_988_800;

/// An attribute line `a=<name>:<value>` (`pjmedia_sdp_attr`).
pub struct SdpAttrData {
    pub name: String,
    pub value: String,
}

/// What an attribute says.
pub struct SdpAttrView {
    pub name: Seq<char>,
    pub value: Seq<char>,
}

impl DeepView for SdpAttrData {
    type V = SdpAttrView;

    open spec fn deep_view(&self) -> SdpAttrView {
        SdpAttrView { name: self.name@, value: self.value@ }
    }
}

impl Clone for SdpAttrData {
    fn clone(&self) -> (r: Self)
        ensures
            r == *self,
    {
        SdpAttrData { name: self.name.clone(), value: self.value.clone() }
    }
}

/// A connection line `c=<net type> <addr type> <addr>` (`pjmedia_sdp_conn`).
pub struct SdpConnData {
    pub net_type: String,
    pub addr_type: String,
    pub addr: String,
    /// Multicast time to live.
    pub ttl: u8,
    /// Number of multicast addresses.
    pub no_addr: u8,
}

/// What a connection line says.
pub struct SdpConnView {
    pub net_type: Seq<char>,
    pub addr_type: Seq<char>,
    pub addr: Seq<char>,
    pub ttl: u8,
    pub no_addr: u8,
}

impl DeepView for SdpConnData {
    type V = SdpConnView;

    open spec fn deep_view(&self) -> SdpConnView {
        SdpConnView {
            net_type: self.net_type@,
            addr_type: self.addr_type@,
            addr: self.addr@,
            ttl: self.ttl,
            no_addr: self.no_addr,
        }
    }
}

impl Clone for SdpConnData {
    fn clone(&self) -> (r: Self)
        ensures
            r == *self,
    {
        SdpConnData {
            net_type: self.net_type.clone(),
            addr_type: self.addr_type.clone(),
            addr: self.addr.clone(),
            ttl: self.ttl,
            no_addr: self.no_addr,
        }
    }
}

/// An `a=rtpmap` attribute's fields (`pjmedia_sdp_rtpmap`).
pub struct SdpRtpMapData {
    /// Payload type.
    pub pt: String,
    /// Encoding name.
    pub enc_name: String,
    pub clock_rate: u32,
    /// Encoding parameters; empty when there are none.
    pub param: String,
}

/// An attribute that owns its fields.
pub struct PjMediaSdpAttr {
    pub attr: PjMediaSdpAttrRef,
}

impl PjMediaSdpAttr {
    pub fn new(name: &str, value: &str) -> (r: Self)
        ensures
            r.attr.attr.name@ == name@,
            r.attr.attr.value@ == value@,
    {
        PjMediaSdpAttr {
            attr: PjMediaSdpAttrRef::from(SdpAttrData { name: name.to_owned(), value: value.to_owned() }),
        }
    }

    pub fn as_ptr(&self) -> (r: &SdpAttrData)
        ensures
            *r == self.attr.attr,
    {
        &self.attr.attr
    }

    pub fn as_mut_ptr(&mut self) -> (r: &mut SdpAttrData)
        ensures
            *r == old(self).attr.attr,
            final(self).attr.attr == *final(r),
    {
        &mut self.attr.attr
    }

    /// Gives up the attribute's fields.
    pub fn into_raw(self) -> (r: SdpAttrData)
        ensures
            r == self.attr.attr,
    {
        self.attr.attr
    }

    /// Takes ownership of an attribute's fields.
    pub fn from_raw(s: SdpAttrData) -> (r: Self)
        ensures
            r.attr.attr == s,
    {
        PjMediaSdpAttr { attr: PjMediaSdpAttrRef::from(s) }
    }

    pub fn as_ref(&self) -> (r: &PjMediaSdpAttrRef)
        ensures
            *r == self.attr,
    {
        &self.attr
    }

    /// The text of the attribute: `name["<name>"] -> value["<value>"]`.
    pub fn to_string(&self) -> (r: String)
        ensures
            r@ == spec_attr_text(self.attr.attr.deep_view()),
    {
        self.attr.to_string()
    }
}

/// The text that shows an attribute.
pub open spec fn spec_attr_text(a: SdpAttrView) -> Seq<char> {
    "name[\""@ + a.name + "\"] -> value[\""@ + a.value + "\"]"@
}

/// A view of an attribute's fields.
pub struct PjMediaSdpAttrRef {
    pub attr: SdpAttrData,
}

impl PjMediaSdpAttrRef {
    pub fn as_ptr(&self) -> (r: &SdpAttrData)
        ensures
            *r == self.attr,
    {
        &self.attr
    }

    pub fn as_ref(&self) -> (r: &SdpAttrData)
        ensures
            *r == self.attr,
    {
        &self.attr
    }

    pub fn from(value: SdpAttrData) -> (r: Self)
        ensures
            r.attr == value,
    {
        PjMediaSdpAttrRef { attr: value }
    }

    /// The text of the attribute: `name["<name>"] -> value["<value>"]`.
    pub fn to_string(&self) -> (r: String)
        ensures
            r@ == spec_attr_text(self.attr.deep_view()),
    {
        let mut s = "name[\"".to_owned();
        s.append(self.attr.name.as_str());
        s.append("\"] -> value[\"");
        s.append(self.attr.value.as_str());
        s.append("\"]");
        s
    }
}

/// A connection line that owns its fields.
pub struct PjMediaSdpConn {
    pub sdp_conn: PjMediaSdpConnRef,
}

impl PjMediaSdpConn {
    pub fn new(
        net_type: &str,
        addr_type: &str,
        addr: &str,
        multicast_ttl: u8,
        mulitcast_num_addrs: u8,
    ) -> (r: Self)
        ensures
            r.sdp_conn.sdp_conn.deep_view() == (SdpConnView {
                net_type: net_type@,
                addr_type: addr_type@,
                addr: addr@,
                ttl: multicast_ttl,
                no_addr: mulitcast_num_addrs,
            }),
    {
        PjMediaSdpConn {
            sdp_conn: PjMediaSdpConnRef::from(
                SdpConnData {
                    net_type: net_type.to_owned(),
                    addr_type: addr_type.to_owned(),
                    addr: addr.to_owned(),
                    ttl: multicast_ttl,
                    no_addr: mulitcast_num_addrs,
                },
            ),
        }
    }

    pub fn as_mut_ptr(&mut self) -> (r: &mut SdpConnData)
        ensures
            *r == old(self).sdp_conn.sdp_conn,
            final(self).sdp_conn.sdp_conn == *final(r),
    {
        &mut self.sdp_conn.sdp_conn
    }

    /// Gives up the connection line's fields.
    pub fn into_raw(self) -> (r: SdpConnData)
        ensures
            r == self.sdp_conn.sdp_conn,
    {
        self.sdp_conn.sdp_conn
    }

    /// Takes ownership of a connection line's fields.
    pub fn from_raw(s: SdpConnData) -> (r: Self)
        ensures
            r.sdp_conn.sdp_conn == s,
    {
        PjMediaSdpConn { sdp_conn: PjMediaSdpConnRef::from(s) }
    }

    pub fn as_ref(&self) -> (r: &PjMediaSdpConnRef)
        ensures
            *r == self.sdp_conn,
    {
        &self.sdp_conn
    }
}

/// A view of a connection line's fields.
pub struct PjMediaSdpConnRef {
    pub sdp_conn: SdpConnData,
}

impl PjMediaSdpConnRef {
    pub fn as_ptr(&self) -> (r: &SdpConnData)
        ensures
            *r == self.sdp_conn,
    {
        &self.sdp_conn
    }

    pub fn from(value: SdpConnData) -> (r: Self)
        ensures
            r.sdp_conn == value,
    {
        PjMediaSdpConnRef { sdp_conn: value }
    }
}

/// An `a=rtpmap` attribute that owns its fields.
pub struct PjMediaSdpRtpMap {
    pub rtpmap: PjMediaSdpRtpMapRef,
}

impl PjMediaSdpRtpMap {
    /// A payload-type mapping; no parameters when `param` is `None`.
    pub fn new(pt: &str, enc_name: &str, clock_rate: u32, param: Option<&str>) -> (r: Self)
        ensures
            r.rtpmap.rtpmap.pt@ == pt@,
            r.rtpmap.rtpmap.enc_name@ == enc_name@,
            r.rtpmap.rtpmap.clock_rate == clock_rate,
            r.rtpmap.rtpmap.param@ == (match param {
                Some(p) => p@,
                None => Seq::<char>::empty(),
            }),
    {
        let param = match param {
            Some(p) => p.to_owned(),
            None => String::new(),
        };
        PjMediaSdpRtpMap {
            rtpmap: PjMediaSdpRtpMapRef::from(
                SdpRtpMapData {
                    pt: pt.to_owned(),
                    enc_name: enc_name.to_owned(),
                    clock_rate,
                    param,
                },
            ),
        }
    }

    pub fn as_ptr(&self) -> (r: &SdpRtpMapData)
        ensures
            *r == self.rtpmap.rtpmap,
    {
        &self.rtpmap.rtpmap
    }

    pub fn as_mut_ptr(&mut self) -> (r: &mut SdpRtpMapData)
        ensures
            *r == old(self).rtpmap.rtpmap,
            final(self).rtpmap.rtpmap == *final(r),
    {
        &mut self.rtpmap.rtpmap
    }
}

/// A view of an `a=rtpmap` attribute's fields.
pub struct PjMediaSdpRtpMapRef {
    pub rtpmap: SdpRtpMapData,
}

impl PjMediaSdpRtpMapRef {
    pub fn as_ptr(&self) -> (r: &SdpRtpMapData)
        ensures
            *r == self.rtpmap,
    {
        &self.rtpmap
    }

    pub fn from(value: SdpRtpMapData) -> (r: Self)
        ensures
            r.rtpmap == value,
    {
        PjMediaSdpRtpMapRef { rtpmap: value }
    }
}

/// The kind of media that a media line carries.
#[derive(Clone, Copy, Debug, PartialEq, Eq, Structural)]
pub enum PjMediaSdpMediaType {
    Audio,
    Video,
    UnSupported,
}

/// The name of a media kind on a media line; empty for an unsupported one.
pub open spec fn spec_media_type_name(t: PjMediaSdpMediaType) -> Seq<char> {
    match t {
        PjMediaSdpMediaType::Audio => "audio"@,
        PjMediaSdpMediaType::Video => "video"@,
        PjMediaSdpMediaType::UnSupported => ""@,
    }
}

/// The media kind that a media line's name gives.
pub open spec fn spec_media_type_from(name: Seq<char>) -> PjMediaSdpMediaType {
    if name == "audio"@ {
        PjMediaSdpMediaType::Audio
    } else if name == "video"@ {
        PjMediaSdpMediaType::Video
    } else {
        PjMediaSdpMediaType::UnSupported
    }
}

impl PjMediaSdpMediaType {
    /// The media kind that a media line's name gives: "audio", "video", or
    /// unsupported for any other name.
    pub fn from(value: &str) -> (r: Self)
        ensures
            r == spec_media_type_from(value@),
    {
        if str_eq(value, "audio") {
            PjMediaSdpMediaType::Audio
        } else if str_eq(value, "video") {
            PjMediaSdpMediaType::Video
        } else {
            PjMediaSdpMediaType::UnSupported
        }
    }

    /// The kind's name on a media line.
    pub fn as_ref(&self) -> (r: &'static str)
        ensures
            r@ == spec_media_type_name(*self),
    {
        match self {
            PjMediaSdpMediaType::Audio => "audio",
            PjMediaSdpMediaType::Video => "video",
            PjMediaSdpMediaType::UnSupported => "",
        }
    }
}

/// A media line `m=<media> <port>/<count> <transport> <fmt>...` with its
/// attribute lines (`pjmedia_sdp_media`).
pub struct SdpMediaData {
    pub media: String,
    pub port: u16,
    pub port_count: u32,
    pub transport: String,
    pub fmt: Vec<String>,
    pub attr: Vec<SdpAttrData>,
}

/// What a media line says.
pub struct SdpMediaView {
    pub media: Seq<char>,
    pub port: u16,
    pub port_count: u32,
    pub transport: Seq<char>,
    pub fmt: Seq<Seq<char>>,
    pub attr: Seq<SdpAttrView>,
}

impl DeepView for SdpMediaData {
    type V = SdpMediaView;

    open spec fn deep_view(&self) -> SdpMediaView {
        SdpMediaView {
            media: self.media@,
            port: self.port,
            port_count: self.port_count,
            transport: self.transport@,
            fmt: self.fmt.deep_view(),
            attr: self.attr.deep_view(),
        }
    }
}

fn clone_strings(v: &Vec<String>) -> (r: Vec<String>)
    ensures
        r.deep_view() == v.deep_view(),
{
    let mut r: Vec<String> = Vec::new();
    let mut i: usize = 0;
    while i < v.len()
        invariant
            i <= v@.len(),
            r@.len() == i,
            forall|j: int| 0 <= j < i ==> r@[j]@ == v@[j]@,
        decreases v@.len() - i,
    {
        r.push(v[i].clone());
        i = i + 1;
    }
    assert(r.deep_view() =~= v.deep_view());
    r
}

fn clone_attrs(v: &Vec<SdpAttrData>) -> (r: Vec<SdpAttrData>)
    ensures
        r.deep_view() == v.deep_view(),
{
    let mut r: Vec<SdpAttrData> = Vec::new();
    let mut i: usize = 0;
    while i < v.len()
        invariant
            i <= v@.len(),
            r@.len() == i,
            forall|j: int| 0 <= j < i ==> r@[j].deep_view() == v@[j].deep_view(),
        decreases v@.len() - i,
    {
        r.push(v[i].clone());
        i = i + 1;
    }
    assert(r.deep_view() =~= v.deep_view());
    r
}

impl SdpMediaData {
    /// A copy of the media line.
    pub fn copy(&self) -> (r: Self)
        ensures
            r.deep_view() == self.deep_view(),
    {
        SdpMediaData {
            media: self.media.clone(),
            port: self.port,
            port_count: self.port_count,
            transport: self.transport.clone(),
            fmt: clone_strings(&self.fmt),
            attr: clone_attrs(&self.attr),
        }
    }
}

/// The fields of the attributes, in order.
pub open spec fn attrs_data(attrs: Seq<PjMediaSdpAttr>) -> Seq<SdpAttrData> {
    Seq::new(attrs.len(), |i: int| attrs[i].attr.attr)
}

/// A media line that owns its fields.
pub struct PjMediaSdpMedia {
    pub sdp_media: PjMediaSdpMediaRef,
}

impl PjMediaSdpMedia {
    /// A media line for `desc_media` on `port` (and the `port_count - 1`
    /// ports after it) over `desc_transport`, with the formats of `fmt`,
    /// of which the first 32 are kept, and the attribute lines `attr`.
    pub fn new(
        desc_media: PjMediaSdpMediaType,
        desc_transport: &str,
        port: u16,
        port_count: u32,
        fmt: &[&str],
        attr: Vec<PjMediaSdpAttr>,
    ) -> (r: Self)
        requires
            attr@.len() <= PJMEDIA_MAX_SDP_ATTR,
        ensures
            r.sdp_media.sdp_media.media@ == spec_media_type_name(desc_media),
            r.sdp_media.sdp_media.transport@ == desc_transport@,
            r.sdp_media.sdp_media.port == port,
            r.sdp_media.sdp_media.port_count == port_count,
            r.sdp_media.sdp_media.fmt.deep_view() == fmt.deep_view().subrange(
                0,
                if fmt@.len() < PJMEDIA_MAX_SDP_FMT {
                    fmt@.len() as int
                } else {
                    PJMEDIA_MAX_SDP_FMT as int
                },
            ),
            r.sdp_media.sdp_media.attr@ == attrs_data(attr@),
    {
        let fmt_count = if fmt.len() < PJMEDIA_MAX_SDP_FMT {
            fmt.len()
        } else {
            PJMEDIA_MAX_SDP_FMT
        };
        let mut fmts: Vec<String> = Vec::new();
        let mut i: usize = 0;
        while i < fmt_count
            invariant
                fmt_count <= fmt@.len(),
                i <= fmt_count,
                fmts@.len() == i,
                forall|j: int| 0 <= j < i ==> fmts@[j]@ == fmt@[j]@,
            decreases fmt_count - i,
        {
            fmts.push(fmt[i].to_owned());
            i = i + 1;
        }
        assert(fmts.deep_view() =~= fmt.deep_view().subrange(0, fmt_count as int));
        let ghost orig = attr@;
        let mut rest = attr;
        let mut attrs: Vec<SdpAttrData> = Vec::new();
        while rest.len() > 0
            invariant
                attrs@.len() + rest@.len() == orig.len(),
                attrs@ == attrs_data(orig).subrange(0, attrs@.len() as int),
                rest@ == orig.subrange(attrs@.len() as int, orig.len() as int),
            decreases rest@.len(),
        {
            let a = rest.remove(0);
            attrs.push(a.into_raw());
            assert(attrs@ =~= attrs_data(orig).subrange(0, attrs@.len() as int));
            assert(rest@ =~= orig.subrange(attrs@.len() as int, orig.len() as int));
        }
        assert(attrs@ =~= attrs_data(orig));
        let media = desc_media.as_ref().to_owned();
        let transport = desc_transport.to_owned();
        PjMediaSdpMedia {
            sdp_media: PjMediaSdpMediaRef::from(
                SdpMediaData { media, port, port_count, transport, fmt: fmts, attr: attrs },
            ),
        }
    }

    pub fn as_ptr(&self) -> (r: &SdpMediaData)
        ensures
            *r == self.sdp_media.sdp_media,
    {
        &self.sdp_media.sdp_media
    }

    pub fn as_mut_ptr(&mut self) -> (r: &mut SdpMediaData)
        ensures
            *r == old(self).sdp_media.sdp_media,
            final(self).sdp_media.sdp_media == *final(r),
    {
        &mut self.sdp_media.sdp_media
    }

    /// Gives up the media line's fields.
    pub fn into_raw(self) -> (r: SdpMediaData)
        ensures
            r == self.sdp_media.sdp_media,
    {
        self.sdp_media.sdp_media
    }

    /// Takes ownership of a media line's fields.
    pub fn from_raw(s: SdpMediaData) -> (r: Self)
        ensures
            r.sdp_media.sdp_media == s,
    {
        PjMediaSdpMedia { sdp_media: PjMediaSdpMediaRef::from(s) }
    }

    pub fn as_ref(&self) -> (r: &PjMediaSdpMediaRef)
        ensures
            *r == self.sdp_media,
    {
        &self.sdp_media
    }
}

/// A view of a media line's fields.
pub struct PjMediaSdpMediaRef {
    pub sdp_media: SdpMediaData,
}

impl PjMediaSdpMediaRef {
    pub fn as_ptr(&self) -> (r: &SdpMediaData)
        ensures
            *r == self.sdp_media,
    {
        &self.sdp_media
    }

    pub fn as_ref(&self) -> (r: &SdpMediaData)
        ensures
            *r == self.sdp_media,
    {
        &self.sdp_media
    }

    /// The port of the media line.
    pub fn desc_port(&self) -> (r: u16)
        ensures
            r == self.sdp_media.port,
    {
        self.sdp_media.port
    }

    pub fn from(value: SdpMediaData) -> (r: Self)
        ensures
            r.sdp_media == value,
    {
        PjMediaSdpMediaRef { sdp_media: value }
    }
}

/// A session description (`pjmedia_sdp_session`): its name, its origin
/// line `o=<user> <id> <version> <net type> <addr type> <addr>`, its
/// connection line and its media lines.
pub struct SdpSessionData {
    pub name: String,
    pub origin_user: String,
    pub origin_id: u64,
    pub origin_version: u64,
    pub origin_net_type: String,
    pub origin_addr_type: String,
    pub origin_addr: String,
    pub conn: Option<SdpConnData>,
    pub media: Vec<SdpMediaData>,
}

/// What a session description says.
pub struct SdpSessionView {
    pub name: Seq<char>,
    pub origin_user: Seq<char>,
    pub origin_id: u64,
    pub origin_version: u64,
    pub origin_net_type: Seq<char>,
    pub origin_addr_type: Seq<char>,
    pub origin_addr: Seq<char>,
    pub conn: Option<SdpConnView>,
    pub media: Seq<SdpMediaView>,
}

impl DeepView for SdpSessionData {
    type V = SdpSessionView;

    open spec fn deep_view(&self) -> SdpSessionView {
        SdpSessionView {
            name: self.name@,
            origin_user: self.origin_user@,
            origin_id: self.origin_id,
            origin_version: self.origin_version,
            origin_net_type: self.origin_net_type@,
            origin_addr_type: self.origin_addr_type@,
            origin_addr: self.origin_addr@,
            conn: self.conn.deep_view(),
            media: self.media.deep_view(),
        }
    }
}

/// The text of `o`, or `default` when there is none.
pub open spec fn str_or(o: Option<&str>, default: Seq<char>) -> Seq<char> {
    match o {
        Some(s) => s@,
        None => default,
    }
}

/// What the media lines say, in order.
pub open spec fn media_views(media: Seq<PjMediaSdpMedia>) -> Seq<SdpMediaView> {
    Seq::new(media.len(), |i: int| media[i].sdp_media.sdp_media.deep_view())
}

/// The session version made from the clock: the seconds since the NTP
/// epoch.
pub open spec fn spec_clock_version(now: PjTimeVal) -> int {
    (now.sec as u64) + NTP_UNIX_EPOCH_OFFSET
}

/// The session description that `PjMediaSdpSession::new` builds from its
/// arguments, once the clock was read as `now`.
pub open spec fn spec_new_session(
    origin_user: &str,
    name: Option<&str>,
    version: Option<u64>,
    net_type: Option<&str>,
    addr_type: Option<&str>,
    addr: Option<&str>,
    sdp_conn: Option<SdpConnView>,
    sdp_media: Seq<SdpMediaView>,
    now: PjTimeVal,
    hostname: &str,
) -> SdpSessionView {
    let version = match version {
        Some(v) => v,
        None => spec_clock_version(now) as u64,
    };
    SdpSessionView {
        name: str_or(name, "pjsip"@),
        origin_user: origin_user@,
        origin_id: version,
        origin_version: version,
        origin_net_type: str_or(net_type, "IN"@),
        origin_addr_type: str_or(addr_type, "IP4"@),
        origin_addr: str_or(addr, hostname@),
        conn: sdp_conn,
        media: if sdp_media.len() < PJMEDIA_MAX_SDP_MEDIA {
            sdp_media
        } else {
            sdp_media.subrange(0, PJMEDIA_MAX_SDP_MEDIA as int)
        },
    }
}

fn str_or_default(o: Option<&str>, default: &str) -> (r: String)
    ensures
        r@ == str_or(o, default@),
{
    match o {
        Some(s) => s.to_owned(),
        None => default.to_owned(),
    }
}

/// A session description that owns its fields.
pub struct PjMediaSdpSession {
    pub sdp_session: PjMediaSdpSessionRef,
}

impl PjMediaSdpSession {
    /// A session description. Its name defaults to "pjsip", the network
    /// type to "IN", the address type to "IP4" and the address to
    /// `hostname`; the version, which is also the session id, defaults to the
    /// clock's seconds since 1900. The clock reading `now` is taken whether
    /// a version is given or not, and its error is the result. Of the media
    /// lines the first 16 are kept.
    pub fn new(
        origin_user: &str,
        name: Option<&str>,
        version: Option<u64>,
        net_type: Option<&str>,
        addr_type: Option<&str>,
        addr: Option<&str>,
        sdp_conn: Option<PjMediaSdpConn>,
        sdp_media: Option<Vec<PjMediaSdpMedia>>,
        now: Result<PjTimeVal, Error>,
        hostname: &str,
    ) -> (r: Result<Self, Error>)
        requires
            now matches Ok(t) ==> spec_clock_version(t) <= u64::MAX,
        ensures
            now matches Err(e) ==> r == Err::<Self, Error>(e),
            now matches Ok(t) ==> (r matches Ok(s) && s.sdp_session.sdp_session.deep_view()
                == spec_new_session(
                origin_user,
                name,
                version,
                net_type,
                addr_type,
                addr,
                match sdp_conn {
                    Some(c) => Some(c.sdp_conn.sdp_conn.deep_view()),
                    None => None,
                },
                match sdp_media {
                    Some(m) => media_views(m@),
                    None => Seq::empty(),
                },
                t,
                hostname,
            )),
    {
        let name = str_or_default(name, "pjsip");
        let origin_user = origin_user.to_owned();
        let now = match now {
            Ok(t) => t,
            Err(e) => {
                return Err(e);
            },
        };
        let clock_version = (now.sec() as u64) + NTP_UNIX_EPOCH_OFFSET;
        let version = match version {
            Some(v) => v,
            None => clock_version,
        };
        let net_type = str_or_default(net_type, "IN");
        let addr_type = str_or_default(addr_type, "IP4");
        let addr = str_or_default(addr, hostname);
        let conn = match sdp_conn {
            Some(c) => Some(c.into_raw()),
            None => None,
        };
        let mut media: Vec<SdpMediaData> = Vec::new();
        match sdp_media {
            Some(v) => {
                let ghost orig = v@;
                let media_count = if v.len() < PJMEDIA_MAX_SDP_MEDIA {
                    v.len()
                } else {
                    PJMEDIA_MAX_SDP_MEDIA
                };
                let mut rest = v;
                while media.len() < media_count
                    invariant
                        media_count <= orig.len(),
                        media@.len() <= media_count,
                        media@.len() + rest@.len() == orig.len(),
                        forall|j: int|
                            0 <= j < media@.len() ==> media@[j].deep_view() == media_views(
                                orig,
                            )[j],
                        rest@ == orig.subrange(media@.len() as int, orig.len() as int),
                    decreases media_count - media@.len(),
                {
                    let m = rest.remove(0);
                    media.push(m.into_raw());
                    assert(rest@ =~= orig.subrange(media@.len() as int, orig.len() as int));
                }
                assert(media.deep_view() =~= (if orig.len() < PJMEDIA_MAX_SDP_MEDIA {
                    media_views(orig)
                } else {
                    media_views(orig).subrange(0, PJMEDIA_MAX_SDP_MEDIA as int)
                }));
            },
            None => {
                assert(media.deep_view() =~= Seq::<SdpMediaView>::empty());
            },
        }
        Ok(
            PjMediaSdpSession {
                sdp_session: PjMediaSdpSessionRef::from(
                    SdpSessionData {
                        name,
                        origin_user,
                        origin_id: version,
                        origin_version: version,
                        origin_net_type: net_type,
                        origin_addr_type: addr_type,
                        origin_addr: addr,
                        conn,
                        media,
                    },
                ),
            },
        )
    }

    pub fn as_mut_ptr(&mut self) -> (r: &mut SdpSessionData)
        ensures
            *r == old(self).sdp_session.sdp_session,
            final(self).sdp_session.sdp_session == *final(r),
    {
        &mut self.sdp_session.sdp_session
    }

    pub fn builder() -> (r: PjMediaSdpSessionBuilder)
        ensures
            r.spec_is_empty(),
    {
        PjMediaSdpSessionBuilder::default()
    }

    pub fn as_ref(&self) -> (r: &PjMediaSdpSessionRef)
        ensures
            *r == self.sdp_session,
    {
        &self.sdp_session
    }
}

/// A view of a session description's fields.
pub struct PjMediaSdpSessionRef {
    pub sdp_session: SdpSessionData,
}

impl PjMediaSdpSessionRef {
    pub fn as_ptr(&self) -> (r: &SdpSessionData)
        ensures
            *r == self.sdp_session,
    {
        &self.sdp_session
    }

    pub fn as_ref(&self) -> (r: &SdpSessionData)
        ensures
            *r == self.sdp_session,
    {
        &self.sdp_session
    }

    pub fn from(value: SdpSessionData) -> (r: Self)
        ensures
            r.sdp_session == value,
    {
        PjMediaSdpSessionRef { sdp_session: value }
    }

    /// The session's media lines, in order.
    pub fn media(&self) -> (r: Vec<PjMediaSdpMediaRef>)
        ensures
            r@.len() == self.sdp_session.media@.len(),
            forall|i: int|
                0 <= i < r@.len() ==> #[trigger] r@[i].sdp_media.deep_view()
                    == self.sdp_session.media@[i].deep_view(),
    {
        let mut r: Vec<PjMediaSdpMediaRef> = Vec::new();
        let mut i: usize = 0;
        while i < self.sdp_session.media.len()
            invariant
                i <= self.sdp_session.media@.len(),
                r@.len() == i,
                forall|j: int|
                    0 <= j < i ==> #[trigger] r@[j].sdp_media.deep_view()
                        == self.sdp_session.media@[j].deep_view(),
            decreases self.sdp_session.media@.len() - i,
        {
            r.push(PjMediaSdpMediaRef::from(self.sdp_session.media[i].copy()));
            i = i + 1;
        }
        r
    }
}

/// The arguments of a session description, gathered before it is built.
pub struct PjMediaSdpSessionBuilder {
    pub origin_user: Option<String>,
    pub name: Option<String>,
    pub version: Option<u64>,
    pub net_type: Option<String>,
    pub addr_type: Option<String>,
    pub addr: Option<String>,
    pub sdp_conn: Option<PjMediaSdpConn>,
    pub sdp_media: Option<Vec<PjMediaSdpMedia>>,
}

/// The text of an optional owned string.
pub open spec fn opt_string_view(o: Option<String>) -> Option<Seq<char>> {
    match o {
        Some(s) => Some(s@),
        None => None,
    }
}

fn opt_as_str(o: &Option<String>) -> (r: Option<&str>)
    ensures
        match r {
            Some(s) => *o matches Some(t) && s@ == t@,
            None => o is None,
        },
{
    match o {
        Some(s) => Some(s.as_str()),
        None => None,
    }
}

impl Default for PjMediaSdpSessionBuilder {
    fn default() -> (r: Self)
        ensures
            r.spec_is_empty(),
    {
        PjMediaSdpSessionBuilder {
            origin_user: None,
            name: None,
            version: None,
            net_type: None,
            addr_type: None,
            addr: None,
            sdp_conn: None,
            sdp_media: None,
        }
    }
}

impl PjMediaSdpSessionBuilder {
    /// Nothing was set.
    pub open spec fn spec_is_empty(&self) -> bool {
        &&& self.origin_user is None
        &&& self.name is None
        &&& self.version is None
        &&& self.net_type is None
        &&& self.addr_type is None
        &&& self.addr is None
        &&& self.sdp_conn is None
        &&& self.sdp_media is None
    }

    pub fn origin_user(&mut self, origin_user: &str) -> (r: &mut Self)
        ensures
            opt_string_view(r.origin_user) == Some(origin_user@),
            r.name == old(self).name,
            r.version == old(self).version,
            r.net_type == old(self).net_type,
            r.addr_type == old(self).addr_type,
            r.addr == old(self).addr,
            r.sdp_conn == old(self).sdp_conn,
            r.sdp_media == old(self).sdp_media,
            *final(self) == *final(r),
    {
        self.origin_user = Some(origin_user.to_owned());
        self
    }

    pub fn name(&mut self, name: &str) -> (r: &mut Self)
        ensures
            opt_string_view(r.name) == Some(name@),
            r.origin_user == old(self).origin_user,
            r.version == old(self).version,
            r.net_type == old(self).net_type,
            r.addr_type == old(self).addr_type,
            r.addr == old(self).addr,
            r.sdp_conn == old(self).sdp_conn,
            r.sdp_media == old(self).sdp_media,
            *final(self) == *final(r),
    {
        self.name = Some(name.to_owned());
        self
    }

    pub fn version(&mut self, version: u64) -> (r: &mut Self)
        ensures
            r.version == Some(version),
            r.origin_user == old(self).origin_user,
            r.name == old(self).name,
            r.net_type == old(self).net_type,
            r.addr_type == old(self).addr_type,
            r.addr == old(self).addr,
            r.sdp_conn == old(self).sdp_conn,
            r.sdp_media == old(self).sdp_media,
            *final(self) == *final(r),
    {
        self.version = Some(version);
        self
    }

    pub fn net_type(&mut self, net_type: &str) -> (r: &mut Self)
        ensures
            opt_string_view(r.net_type) == Some(net_type@),
            r.origin_user == old(self).origin_user,
            r.name == old(self).name,
            r.version == old(self).version,
            r.addr_type == old(self).addr_type,
            r.addr == old(self).addr,
            r.sdp_conn == old(self).sdp_conn,
            r.sdp_media == old(self).sdp_media,
            *final(self) == *final(r),
    {
        self.net_type = Some(net_type.to_owned());
        self
    }

    pub fn addr_type(&mut self, addr_type: &str) -> (r: &mut Self)
        ensures
            opt_string_view(r.addr_type) == Some(addr_type@),
            r.origin_user == old(self).origin_user,
            r.name == old(self).name,
            r.version == old(self).version,
            r.net_type == old(self).net_type,
            r.addr == old(self).addr,
            r.sdp_conn == old(self).sdp_conn,
            r.sdp_media == old(self).sdp_media,
            *final(self) == *final(r),
    {
        self.addr_type = Some(addr_type.to_owned());
        self
    }

    pub fn addr(&mut self, addr: &str) -> (r: &mut Self)
        ensures
            opt_string_view(r.addr) == Some(addr@),
            r.origin_user == old(self).origin_user,
            r.name == old(self).name,
            r.version == old(self).version,
            r.net_type == old(self).net_type,
            r.addr_type == old(self).addr_type,
            r.sdp_conn == old(self).sdp_conn,
            r.sdp_media == old(self).sdp_media,
            *final(self) == *final(r),
    {
        self.addr = Some(addr.to_owned());
        self
    }

    pub fn sdp_conn(&mut self, sdp_conn: PjMediaSdpConn) -> (r: &mut Self)
        ensures
            r.sdp_conn == Some(sdp_conn),
            r.origin_user == old(self).origin_user,
            r.name == old(self).name,
            r.version == old(self).version,
            r.net_type == old(self).net_type,
            r.addr_type == old(self).addr_type,
            r.addr == old(self).addr,
            r.sdp_media == old(self).sdp_media,
            *final(self) == *final(r),
    {
        self.sdp_conn = Some(sdp_conn);
        self
    }

    pub fn sdp_media(&mut self, sdp_media: Vec<PjMediaSdpMedia>) -> (r: &mut Self)
        ensures
            r.sdp_media == Some(sdp_media),
            r.origin_user == old(self).origin_user,
            r.name == old(self).name,
            r.version == old(self).version,
            r.net_type == old(self).net_type,
            r.addr_type == old(self).addr_type,
            r.addr == old(self).addr,
            r.sdp_conn == old(self).sdp_conn,
            *final(self) == *final(r),
    {
        self.sdp_media = Some(sdp_media);
        self
    }

    /// Builds the session description from what was set, the origin user
    /// defaulting to "pjsip" (see `PjMediaSdpSession::new`). The connection
    /// and media lines move into it and are no longer set here.
    pub fn build(&mut self, now: Result<PjTimeVal, Error>, hostname: &str) -> (r: Result<
        PjMediaSdpSession,
        Error,
    >)
        requires
            now matches Ok(t) ==> spec_clock_version(t) <= u64::MAX,
        ensures
            final(self).sdp_conn is None,
            final(self).sdp_media is None,
            final(self).origin_user == old(self).origin_user,
            final(self).name == old(self).name,
            final(self).version == old(self).version,
            final(self).net_type == old(self).net_type,
            final(self).addr_type == old(self).addr_type,
            final(self).addr == old(self).addr,
            now matches Err(e) ==> r == Err::<PjMediaSdpSession, Error>(e),
            now matches Ok(t) ==> (r matches Ok(s) && s.sdp_session.sdp_session.deep_view()
                == (SdpSessionView {
                name: match opt_string_view(old(self).name) {
                    Some(n) => n,
                    None => "pjsip"@,
                },
                origin_user: match opt_string_view(old(self).origin_user) {
                    Some(u) => u,
                    None => "pjsip"@,
                },
                origin_id: match old(self).version {
                    Some(v) => v,
                    None => spec_clock_version(t) as u64,
                },
                origin_version: match old(self).version {
                    Some(v) => v,
                    None => spec_clock_version(t) as u64,
                },
                origin_net_type: match opt_string_view(old(self).net_type) {
                    Some(n) => n,
                    None => "IN"@,
                },
                origin_addr_type: match opt_string_view(old(self).addr_type) {
                    Some(a) => a,
                    None => "IP4"@,
                },
                origin_addr: match opt_string_view(old(self).addr) {
                    Some(a) => a,
                    None => hostname@,
                },
                conn: match old(self).sdp_conn {
                    Some(c) => Some(c.sdp_conn.sdp_conn.deep_view()),
                    None => None,
                },
                media: match old(self).sdp_media {
                    Some(m) => if m@.len() < PJMEDIA_MAX_SDP_MEDIA {
                        media_views(m@)
                    } else {
                        media_views(m@).subrange(0, PJMEDIA_MAX_SDP_MEDIA as int)
                    },
                    None => Seq::empty(),
                },
            })),
    {
        let sdp_conn = self.sdp_conn.take();
        let sdp_media = self.sdp_media.take();
        let origin_user = match opt_as_str(&self.origin_user) {
            Some(u) => u,
            None => "pjsip",
        };
        PjMediaSdpSession::new(
            origin_user,
            opt_as_str(&self.name),
            self.version,
            opt_as_str(&self.net_type),
            opt_as_str(&self.addr_type),
            opt_as_str(&self.addr),
            sdp_conn,
            sdp_media,
            now,
            hostname,
        )
    }
}

/// A media kind's name reads back as the same kind: `from` undoes
/// `as_ref`, for every kind.
pub proof fn lemma_media_type_roundtrip(t: PjMediaSdpMediaType)
    ensures
        spec_media_type_from(spec_media_type_name(t)) == t,
{
    reveal_strlit("audio");
    reveal_strlit("video");
    reveal_strlit("");
    assert("audio"@ != "video"@) by {
        assert("audio"@[0] != "video"@[0]);
    }
    assert(""@ != "audio"@) by {
        assert(""@.len() != "audio"@.len());
    }
    assert(""@ != "video"@) by {
        assert(""@.len() != "video"@.len());
    }
}

/// The media lines of a new session are those it was given, in order, up
/// to the first 16; its id is its version.
pub proof fn lemma_new_session_keeps_media(
    origin_user: &str,
    name: Option<&str>,
    version: Option<u64>,
    net_type: Option<&str>,
    addr_type: Option<&str>,
    addr: Option<&str>,
    sdp_conn: Option<SdpConnView>,
    sdp_media: Seq<SdpMediaView>,
    now: PjTimeVal,
    hostname: &str,
)
    ensures
        ({
            let s = spec_new_session(
                origin_user,
                name,
                version,
                net_type,
                addr_type,
                addr,
                sdp_conn,
                sdp_media,
                now,
                hostname,
            );
            &&& s.media.len() == if sdp_media.len() < PJMEDIA_MAX_SDP_MEDIA {
                sdp_media.len()
            } else {
                PJMEDIA_MAX_SDP_MEDIA as nat
            }
            &&& forall|i: int| 0 <= i < s.media.len() ==> s.media[i] == sdp_media[i]
            &&& s.origin_id == s.origin_version
        }),
{
}

} // verus!
