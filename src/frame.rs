use etherparse::{NetSlice, SlicedPacket, TransportSlice};
use vstd::prelude::*;
use IcmpVersion::{V4, V6};

verus! {

/// The network-layer source address of a frame.
#[derive(Clone, Copy, Debug, PartialEq, Eq)]
pub enum SourceAddr {
    V4([u8; 4]),
    V6([u8; 16]),
}

/// Which ICMP protocol carried a message.
#[derive(Clone, Copy, Debug, PartialEq, Eq, Structural)]
pub enum IcmpVersion {
    V4,
    V6,
}

/// The ICMP layer of a frame: its header's type and code, and the payload.
#[derive(Debug)]
pub struct IcmpFields {
    pub version: IcmpVersion,
    pub type_u8: u8,
    pub code_u8: u8,
    pub payload: Vec<u8>,
}

/// What the layers of a parsed link-layer frame hold for this service: the
/// source address, where a network layer is present, and the ICMP layer,
/// where the transport layer is ICMPv4 or ICMPv6.
#[derive(Debug)]
pub struct FrameFields {
    pub source: Option<SourceAddr>,
    pub icmp: Option<IcmpFields>,
}

/// The model of an ICMP layer: its payload as a sequence.
pub struct IcmpView {
    pub version: IcmpVersion,
    pub type_u8: u8,
    pub code_u8: u8,
    pub payload: Seq<u8>,
}

/// The model of a parsed frame.
pub struct FrameView {
    pub source: Option<SourceAddr>,
    pub icmp: Option<IcmpView>,
}

impl View for IcmpFields {
    type V = IcmpView;

    open spec fn view(&self) -> IcmpView {
        IcmpView {
            version: self.version,
            type_u8: self.type_u8,
            code_u8: self.code_u8,
            payload: self.payload@,
        }
    }
}

impl View for FrameFields {
    type V = FrameView;

    open spec fn view(&self) -> FrameView {
        FrameView {
            source: self.source,
            icmp: match self.icmp {
                Some(i) => Some(i@),
                None => None,
            },
        }
    }
}

/// A received echo request: who sent it and the data it carries.
#[derive(Debug)]
pub struct EchoRequest {
    pub source: SourceAddr,
    pub payload: Vec<u8>,
}

/// ICMPv4 message type of an echo request.
pub const ICMPV4_ECHO_REQUEST: u8 = 8;

/// ICMPv6 message type of an echo request.
pub const ICMPV6_ECHO_REQUEST: u8 = 128;

/// An ICMP message is an echo request when its type is the echo-request type
/// of its protocol version and its code is zero.
pub open spec fn is_echo_request(i: IcmpView) -> bool {
    i.code_u8 == 0 && i.type_u8 == match i.version {
        IcmpVersion::V4 => ICMPV4_ECHO_REQUEST,
        IcmpVersion::V6 => ICMPV6_ECHO_REQUEST,
    }
}

/// The sender and payload of a frame that carries an echo request over IPv4
/// or IPv6; nothing for any other frame.
pub open spec fn echo_request_of(f: FrameView) -> Option<(SourceAddr, Seq<u8>)> {
    match (f.source, f.icmp) {
        (Some(s), Some(i)) => if is_echo_request(i) {
            Some((s, i.payload))
        } else {
            None
        },
        _ => None,
    }
}

/// What a parse of `frame` as an Ethernet II frame yields, layer by layer.
pub uninterp spec fn sliced_ethernet(frame: Seq<u8>) -> Option<FrameView>;

/// Relies on etherparse's `SlicedPacket::from_ethernet`, which parses the
/// Ethernet, IP and transport headers of a frame and fails on a malformed
/// one, and on the accessors of its slices for the source address, ICMP type,
/// code and payload. The result depends on the bytes alone.
#[verifier::external_body]
fn slice_ethernet(frame: &[u8]) -> (r: Option<FrameFields>)
    ensures
        sliced_ethernet(frame@) == match r {
            Some(f) => Some(f@),
            None => None::<FrameView>,
        },
{
    let p = SlicedPacket::from_ethernet(frame).ok()?;
    Some(FrameFields {
        source: match p.net {
            Some(NetSlice::Ipv4(s)) => Some(SourceAddr::V4(s.header().source())),
            Some(NetSlice::Ipv6(s)) => Some(SourceAddr::V6(s.header().source())),
            None => None,
        },
        icmp: match p.transport {
            Some(TransportSlice::Icmpv4(s)) => Some(IcmpFields { version: V4, type_u8: s.type_u8(), code_u8: s.code_u8(), payload: s.payload().to_vec() }),
            Some(TransportSlice::Icmpv6(s)) => Some(IcmpFields { version: V6, type_u8: s.type_u8(), code_u8: s.code_u8(), payload: s.payload().to_vec() }),
            _ => None,
        },
    })
}

/// Whether an ICMP layer holds an echo request.
pub fn icmp_is_echo_request(i: &IcmpFields) -> (r: bool)
    ensures
        r == is_echo_request(i@),
{
    i.code_u8 == 0 && match i.version {
        IcmpVersion::V4 => i.type_u8 == ICMPV4_ECHO_REQUEST,
        IcmpVersion::V6 => i.type_u8 == ICMPV6_ECHO_REQUEST,
    }
}

/// Keeps the sender and payload of a parsed frame that carries an echo
/// request; any other frame yields nothing.
pub fn echo_request(fields: FrameFields) -> (r: Option<EchoRequest>)
    ensures
        echo_request_of(fields@) == match r {
            Some(e) => Some((e.source, e.payload@)),
            None => None::<(SourceAddr, Seq<u8>)>,
        },
{
    match (fields.source, fields.icmp) {
        (Some(source), Some(icmp)) => {
            if icmp_is_echo_request(&icmp) {
                Some(EchoRequest { source, payload: icmp.payload })
            } else {
                None
            }
        },
        _ => None,
    }
}

/// Parses a raw link-layer frame and keeps the sender and payload of an
/// ICMPv4 or ICMPv6 echo request. A frame that does not parse, or that holds
/// anything else, yields nothing.
pub fn extract_echo_request(frame: &[u8]) -> (r: Option<EchoRequest>)
    ensures
        match sliced_ethernet(frame@) {
            Some(f) => echo_request_of(f),
            None => None,
        } == match r {
            Some(e) => Some((e.source, e.payload@)),
            None => None::<(SourceAddr, Seq<u8>)>,
        },
{
    match slice_ethernet(frame) {
        Some(fields) => echo_request(fields),
        None => None,
    }
}

/// A frame whose ICMP layer is anything but an echo request yields no
/// request, so it can neither draw nor draw a reply.
pub proof fn lemma_non_echo_yields_nothing(f: FrameView)
    requires
        f.icmp matches Some(i) && !is_echo_request(i),
    ensures
        echo_request_of(f) is None,
{
}

} // verus!
