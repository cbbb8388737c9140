//! The address of an interface: an IP address together with a prefix length.

use vstd::prelude::*;
use crate::text::has_char;

verus! {

/// Number of bits in an IPv4 address, and the largest prefix length of one.
pub const IPV4_BITS: u8 = 32;

/// Number of bits in an IPv6 address, and the largest prefix length of one.
pub const IPV6_BITS: u8 = 128;

/// An IP address with a prefix length, as plain numbers.
///
/// The address bits are in network order: `10.0.0.1` is `0x0A00_0001`, and `::1` is `1`.
#[derive(Debug, Clone, Copy, PartialEq, Eq, Structural)]
#[allow(inconsistent_fields)]
pub enum Cidr {
    V4 { addr: u32, prefix: u8 },
    V6 { addr: u128, prefix: u8 },
}

impl Cidr {
    /// Whether the prefix length fits the address family.
    pub open spec fn wf(self) -> bool {
        match self {
            Cidr::V4 { addr, prefix } => prefix <= IPV4_BITS,
            Cidr::V6 { addr, prefix } => prefix <= IPV6_BITS,
        }
    }

    /// Decides [`Cidr::wf`].
    pub fn is_wf(self) -> (ok: bool)
        ensures
            ok == self.wf(),
    {
        match self {
            Cidr::V4 { addr, prefix } => prefix <= IPV4_BITS,
            Cidr::V6 { addr, prefix } => prefix <= IPV6_BITS,
        }
    }
}

/// What `ipnetwork::IpNetwork::from_str` makes of `text`: the network it parsed, or `None`
/// where it returned an error.
pub uninterp spec fn ip_network_of_text(text: Seq<char>) -> Option<Cidr>;

/// What `ipnetwork::IpNetwork`'s `Display` writes for `cidr`.
pub uninterp spec fn ip_network_text(cidr: Cidr) -> Seq<char>;

/// Calls `ipnetwork::IpNetwork::from_str` on `text` and hands the parsed network out as
/// plain numbers.
///
/// Trusted: the result is what the parser makes of `text`, and a parsed network has a
/// prefix length within its family's range (`Ipv4Network::new` and `Ipv6Network::new`,
/// through which every parsed network is built, refuse a longer one).
#[verifier::external_body]
fn parse_ip_network(text: &str) -> (r: Option<Cidr>)
    ensures
        r == ip_network_of_text(text@),
        r matches Some(cidr) ==> cidr.wf(),
{
    match text.parse::<ipnetwork::IpNetwork>() {
        Ok(ipnetwork::IpNetwork::V4(n)) => Some(
            Cidr::V4 { addr: n.ip().into(), prefix: n.prefix() },
        ),
        Ok(ipnetwork::IpNetwork::V6(n)) => Some(
            Cidr::V6 { addr: n.ip().into(), prefix: n.prefix() },
        ),
        Err(_) => None,
    }
}

/// Builds the `ipnetwork::IpNetwork` that `cidr` describes and writes it with its
/// `Display`.
///
/// Trusted: the result is that text; it is the address, a `/` and the prefix length, so
/// it holds a `/`; and `ipnetwork::IpNetwork::from_str` parses it back to the same
/// address and prefix length. The prefix length must be in range, else `new` fails.
#[verifier::external_body]
fn render_ip_network(cidr: Cidr) -> (text: String)
    requires
        cidr.wf(),
    ensures
        text@ == ip_network_text(cidr),
        text@.contains('/'),
        ip_network_of_text(text@) == Some(cidr),
{
    let network = match cidr {
        Cidr::V4 { addr, prefix } => ipnetwork::IpNetwork::V4(
            ipnetwork::Ipv4Network::new(addr.into(), prefix).unwrap(),
        ),
        Cidr::V6 { addr, prefix } => ipnetwork::IpNetwork::V6(
            ipnetwork::Ipv6Network::new(addr.into(), prefix).unwrap(),
        ),
    };
    network.to_string()
}

/// What reading `text` as an interface address gives.
///
/// The text must hold a `/`, so that the prefix length is written out, and must be
/// accepted by the network parser.
pub open spec fn address_of_text(text: Seq<char>) -> Option<Cidr> {
    if text.contains('/') {
        ip_network_of_text(text)
    } else {
        None
    }
}

/// Text without a `/` is no interface address, whatever else it holds.
pub proof fn lemma_address_needs_prefix_length(text: Seq<char>)
    requires
        !text.contains('/'),
    ensures
        address_of_text(text) is None,
{
}

/// The address of an interface. Every value of this type has a prefix length in range.
#[derive(Debug, Clone, Copy, PartialEq, Eq)]
pub struct WgAddress {
    cidr: Cidr,
}

impl View for WgAddress {
    type V = Cidr;

    closed spec fn view(&self) -> Cidr {
        self.cidr
    }
}

impl WgAddress {
    /// Whether the prefix length is in range. Holds of every address that exists.
    #[verifier::type_invariant]
    pub open spec fn wf(&self) -> bool {
        self@.wf()
    }

    /// Makes an address of plain numbers; `None` where the prefix length is out of range.
    pub fn new(cidr: Cidr) -> (r: Option<WgAddress>)
        ensures
            r is Some <==> cidr.wf(),
            r matches Some(address) ==> address@ == cidr,
    {
        if cidr.is_wf() {
            Some(WgAddress { cidr })
        } else {
            None
        }
    }

    /// Reads an address written as `address/prefix-length`.
    pub fn parse(text: &str) -> (r: Option<WgAddress>)
        ensures
            match r {
                Some(address) => address.wf() && address_of_text(text@) == Some(address@),
                None => address_of_text(text@) is None,
            },
    {
        if !has_char(text, '/') {
            return None;
        }
        match parse_ip_network(text) {
            Some(cidr) => Some(WgAddress { cidr }),
            None => None,
        }
    }

    /// The address as plain numbers.
    pub fn cidr(&self) -> (cidr: Cidr)
        ensures
            cidr == self@,
            cidr.wf(),
    {
        proof {
            use_type_invariant(self);
        }
        self.cidr
    }

    /// The canonical text of the address, which reads back as the same address.
    pub fn to_string(&self) -> (text: String)
        ensures
            text@ == ip_network_text(self@),
            address_of_text(text@) == Some(self@),
    {
        proof {
            use_type_invariant(self);
        }
        render_ip_network(self.cidr)
    }
}

} // verus!
