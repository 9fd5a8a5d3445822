//! Composable addresses: what the server reads in one to decide where to
//! listen, and the address it reports once a port was assigned.

use crate::text::{decimal, decimal_text};
use multiaddr::{Multiaddr, Protocol};
use vstd::prelude::*;
use vstd::string::*;

verus! {

/// `multiaddr::Multiaddr`, carried as it is; what it holds is named by
/// [`segments`].
#[verifier::external_type_specification]
#[verifier::external_body]
pub struct ExMultiaddr(Multiaddr);

/// One typed segment of an address, as far as the server tells segments
/// apart.
#[derive(Debug, Clone, PartialEq, Eq)]
pub enum Segment {
    /// A host name to resolve.
    Dns(String),
    /// An IPv4 address, by its four bytes.
    Ip4([u8; 4]),
    /// An IPv6 address, by its sixteen bytes.
    Ip6([u8; 16]),
    /// A TCP port; zero asks for any free port.
    Tcp(u16),
    Http,
    Https,
    /// The path of a Unix domain socket.
    Unix(String),
    /// Any other protocol, by its textual form.
    Other(String),
}

/// The segments of an address, first to last.
pub uninterp spec fn segments(addr: Multiaddr) -> Seq<Segment>;

/// `multiaddr::Multiaddr::iter`, each protocol taken over as a [`Segment`]:
/// the segments of the address in their order.
#[verifier::external_body]
pub(crate) fn segments_of(addr: &Multiaddr) -> (list: Vec<Segment>)
    ensures
        list@ == segments(*addr),
{
    addr.iter().map(|p| match p {
        Protocol::Dns(name) => Segment::Dns(name.into_owned()),
        Protocol::Ip4(a) => Segment::Ip4(a.octets()),
        Protocol::Ip6(a) => Segment::Ip6(a.octets()),
        Protocol::Tcp(port) => Segment::Tcp(port),
        Protocol::Http => Segment::Http,
        Protocol::Https => Segment::Https,
        Protocol::Unix(path) => Segment::Unix(path.into_owned()),
        other => Segment::Other(other.to_string()),
    }).collect()
}

/// `multiaddr::Multiaddr::replace` with a TCP port as the replacement: a
/// copy of the address with the segment at `at` replaced, or nothing where
/// the address has no segment there.
#[verifier::external_body]
pub(crate) fn replace_with_tcp(addr: &Multiaddr, at: usize, port: u16) -> (r: Option<Multiaddr>)
    ensures
        match r {
            Some(replaced) => at < segments(*addr).len() && segments(replaced) == segments(
                *addr,
            ).update(at as int, Segment::Tcp(port)),
            None => at >= segments(*addr).len(),
        },
{
    addr.replace(at, |_| Some(Protocol::Tcp(port)))
}

/// Where a server is asked to listen.
#[derive(Debug, Clone, PartialEq, Eq)]
pub enum Endpoint {
    /// A TCP port on a host that is given by name.
    Dns { name: String, port: u16 },
    /// A TCP port on an IPv4 address.
    Ip4 { ip4: [u8; 4], port: u16 },
    /// A TCP port on an IPv6 address.
    Ip6 { ip6: [u8; 16], port: u16 },
    /// A Unix domain socket at a path.
    Unix { path: String },
}

/// Why an address cannot be listened on.
#[derive(Debug, Clone, PartialEq, Eq)]
pub enum BindError {
    /// The address is empty, or its segments are not those of its family.
    MalformedAddress,
    /// The first segment is of no family that the server can listen on; the
    /// segment is given in its textual form.
    UnsupportedProtocol(String),
}

/// The message of an error as a mathematical string.
pub open spec fn bind_error_text(e: BindError) -> Seq<char> {
    match e {
        BindError::MalformedAddress => "malformed addr"@,
        BindError::UnsupportedProtocol(name) => "unsupported protocol "@ + name@,
    }
}

impl BindError {
    pub fn message(&self) -> (m: String)
        ensures
            m@ == bind_error_text(*self),
    {
        match self {
            BindError::MalformedAddress => String::from_str("malformed addr"),
            BindError::UnsupportedProtocol(name) => {
                let mut m = String::from_str("unsupported protocol ");
                m.append(name.as_str());
                m
            },
        }
    }
}

/// Whether a segment is the marker that closes an address.
pub open spec fn is_http_marker(s: Segment) -> bool {
    s is Http || s is Https
}

/// Whether the segments after the first are a TCP port and the closing
/// marker, and nothing else.
pub open spec fn has_tcp_tail(segs: Seq<Segment>) -> bool {
    segs.len() == 3 && segs[1] is Tcp && is_http_marker(segs[2])
}

/// Whether the segments after the first are the closing marker, and nothing
/// else.
pub open spec fn has_unix_tail(segs: Seq<Segment>) -> bool {
    segs.len() == 2 && is_http_marker(segs[1])
}

/// The textual form of the segments that open no address the server can
/// listen on.
pub open spec fn unsupported_text(s: Segment) -> Seq<char> {
    match s {
        Segment::Tcp(port) => "/tcp/"@ + decimal_text(port as nat),
        Segment::Http => "/http"@,
        Segment::Https => "/https"@,
        Segment::Other(text) => text@,
        _ => Seq::empty(),
    }
}

/// Whether `out` is where an address with the segments `segs` asks to
/// listen. The first segment picks the family; the rest must be a TCP port
/// and the closing marker for the TCP families, the closing marker alone for
/// a Unix socket.
pub open spec fn resolves(segs: Seq<Segment>, out: Result<Endpoint, BindError>) -> bool {
    if segs.len() == 0 {
        out matches Err(BindError::MalformedAddress)
    } else {
        match segs[0] {
            Segment::Dns(name) => if has_tcp_tail(segs) {
                out == Ok::<Endpoint, BindError>(Endpoint::Dns { name, port: segs[1]->Tcp_0 })
            } else {
                out matches Err(BindError::MalformedAddress)
            },
            Segment::Ip4(octets) => if has_tcp_tail(segs) {
                out == Ok::<Endpoint, BindError>(Endpoint::Ip4 { ip4: octets, port: segs[1]->Tcp_0 })
            } else {
                out matches Err(BindError::MalformedAddress)
            },
            Segment::Ip6(octets) => if has_tcp_tail(segs) {
                out == Ok::<Endpoint, BindError>(Endpoint::Ip6 { ip6: octets, port: segs[1]->Tcp_0 })
            } else {
                out matches Err(BindError::MalformedAddress)
            },
            Segment::Unix(path) => if has_unix_tail(segs) {
                out == Ok::<Endpoint, BindError>(Endpoint::Unix { path })
            } else {
                out matches Err(BindError::MalformedAddress)
            },
            other => out matches Err(BindError::UnsupportedProtocol(name)) && name@
                == unsupported_text(other),
        }
    }
}

fn is_marker(s: &Segment) -> (b: bool)
    ensures
        b == is_http_marker(*s),
{
    match s {
        Segment::Http => true,
        Segment::Https => true,
        _ => false,
    }
}

/// The TCP port of a list of segments that is a host, a port and the closing
/// marker.
fn tcp_tail(segs: &Vec<Segment>) -> (port: Option<u16>)
    ensures
        match port {
            Some(p) => has_tcp_tail(segs@) && segs@[1] == Segment::Tcp(p),
            None => !has_tcp_tail(segs@),
        },
{
    if segs.len() != 3 || !is_marker(&segs[2]) {
        return None;
    }
    match &segs[1] {
        Segment::Tcp(port) => Some(*port),
        _ => None,
    }
}

/// Where the address asks to listen, or why it cannot be listened on.
pub fn endpoint(addr: &Multiaddr) -> (out: Result<Endpoint, BindError>)
    ensures
        resolves(segments(*addr), out),
{
    let segs = segments_of(addr);
    if segs.len() == 0 {
        return Err(BindError::MalformedAddress);
    }
    match &segs[0] {
        Segment::Dns(name) => match tcp_tail(&segs) {
            Some(port) => Ok(Endpoint::Dns { name: name.clone(), port }),
            None => Err(BindError::MalformedAddress),
        },
        Segment::Ip4(octets) => match tcp_tail(&segs) {
            Some(port) => Ok(Endpoint::Ip4 { ip4: *octets, port }),
            None => Err(BindError::MalformedAddress),
        },
        Segment::Ip6(octets) => match tcp_tail(&segs) {
            Some(port) => Ok(Endpoint::Ip6 { ip6: *octets, port }),
            None => Err(BindError::MalformedAddress),
        },
        Segment::Unix(path) => if segs.len() == 2 && is_marker(&segs[1]) {
            Ok(Endpoint::Unix { path: path.clone() })
        } else {
            Err(BindError::MalformedAddress)
        },
        Segment::Tcp(port) => {
            let mut name = String::from_str("/tcp/");
            name.append(decimal(*port as usize).as_str());
            Err(BindError::UnsupportedProtocol(name))
        },
        Segment::Http => Err(BindError::UnsupportedProtocol(String::from_str("/http"))),
        Segment::Https => Err(BindError::UnsupportedProtocol(String::from_str("/https"))),
        Segment::Other(text) => Err(BindError::UnsupportedProtocol(text.clone())),
    }
}

/// The TCP port that the second segment of an address names, where it names
/// one.
pub open spec fn spec_tcp_port(segs: Seq<Segment>) -> Option<u16> {
    if segs.len() > 1 && segs[1] is Tcp {
        Some(segs[1]->Tcp_0)
    } else {
        None
    }
}

/// The TCP port that the second segment of the address names, where it names
/// one.
pub fn tcp_port(addr: &Multiaddr) -> (port: Option<u16>)
    ensures
        port == spec_tcp_port(segments(*addr)),
{
    let segs = segments_of(addr);
    if segs.len() < 2 {
        return None;
    }
    match &segs[1] {
        Segment::Tcp(port) => Some(*port),
        _ => None,
    }
}

/// A copy of the address with `port` as the TCP port in its second segment,
/// which must be a TCP port already; the other segments stay.
pub fn update_tcp_port_in_multiaddr(addr: &Multiaddr, port: u16) -> (updated: Multiaddr)
    requires
        spec_tcp_port(segments(*addr)) is Some,
    ensures
        segments(updated) == segments(*addr).update(1, Segment::Tcp(port)),
        spec_tcp_port(segments(updated)) == Some(port),
{
    replace_with_tcp(addr, 1, port).unwrap()
}

/// As [`update_tcp_port_in_multiaddr`], for any address: nothing is given
/// where the second segment is no TCP port.
pub fn try_update_tcp_port(addr: &Multiaddr, port: u16) -> (updated: Option<Multiaddr>)
    ensures
        match updated {
            Some(a) => spec_tcp_port(segments(*addr)) is Some && segments(a) == segments(
                *addr,
            ).update(1, Segment::Tcp(port)),
            None => spec_tcp_port(segments(*addr)) is None,
        },
{
    match tcp_port(addr) {
        Some(_) => Some(update_tcp_port_in_multiaddr(addr, port)),
        None => None,
    }
}

/// An address with a concrete port stays as it is when that same port is
/// written into it.
pub proof fn lemma_same_port_changes_nothing(segs: Seq<Segment>, port: u16)
    requires
        spec_tcp_port(segs) == Some(port),
    ensures
        segs.update(1, Segment::Tcp(port)) == segs,
{
    assert(segs.update(1, Segment::Tcp(port)) =~= segs);
}

} // verus!
