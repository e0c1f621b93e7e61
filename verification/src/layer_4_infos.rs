//! Transport stage of the decoder: ports for TCP and UDP, a recognized
//! name for the port-less control protocols, absence for everything else.

use crate::text::{clone_opt, dec_u64, opt_str_eq, spec_dec, view_opt};
use crate::wire::{be16, read_be16};
use vstd::prelude::*;

verus! {

pub const IP_PROTO_HOPOPT: u8 = 0;

pub const IP_PROTO_ICMP: u8 = 1;

pub const IP_PROTO_IGMP: u8 = 2;

pub const IP_PROTO_TCP: u8 = 6;

pub const IP_PROTO_UDP: u8 = 17;

pub const IP_PROTO_IPV6_FRAG: u8 = 44;

pub const IP_PROTO_ICMPV6: u8 = 58;

/// Minimum length of a TCP header, in bytes.
pub const TCP_MIN_HEADER_LEN: usize = 20;

/// Minimum length of a UDP header, in bytes.
pub const UDP_MIN_HEADER_LEN: usize = 8;

/// Source and destination ports of one frame, when its transport protocol
/// carries ports and its header could be parsed; absent otherwise.
#[derive(Debug, Clone)]
pub struct Layer4Infos {
    pub port_source: Option<String>,
    pub port_destination: Option<String>,
}

/// Mathematical model of `Layer4Infos`.
pub struct Layer4View {
    pub port_source: Option<Seq<char>>,
    pub port_destination: Option<Seq<char>>,
}

impl View for Layer4Infos {
    type V = Layer4View;

    open spec fn view(&self) -> Layer4View {
        Layer4View {
            port_source: view_opt(self.port_source),
            port_destination: view_opt(self.port_destination),
        }
    }
}

/// The model of a transport stage that found no ports.
pub open spec fn spec_l4_absent() -> Layer4View {
    Layer4View { port_source: Option::None, port_destination: Option::None }
}

impl Default for Layer4Infos {
    /// Both ports absent.
    fn default() -> (r: Self)
        ensures
            r@ == spec_l4_absent(),
    {
        Layer4Infos { port_source: Option::None, port_destination: Option::None }
    }
}

impl PartialEq for Layer4Infos {
    fn eq(&self, other: &Self) -> (r: bool) {
        opt_str_eq(&self.port_source, &other.port_source) && opt_str_eq(
            &self.port_destination,
            &other.port_destination,
        )
    }
}

impl vstd::std_specs::cmp::PartialEqSpecImpl for Layer4Infos {
    open spec fn obeys_eq_spec() -> bool {
        true
    }

    open spec fn eq_spec(&self, other: &Self) -> bool {
        self@ == other@
    }
}

impl Layer4Infos {
    /// An independent copy with the same model.
    pub fn duplicate(&self) -> (r: Self)
        ensures
            r@ == self@,
    {
        Layer4Infos {
            port_source: clone_opt(&self.port_source),
            port_destination: clone_opt(&self.port_destination),
        }
    }
}

/// What the transport stage yields for protocol discriminant `proto` over the
/// header bytes `data`: decimal source and destination ports for a TCP or UDP
/// header that is long enough, absence for everything else.
pub open spec fn spec_layer4(proto: u8, data: Seq<u8>) -> Layer4View {
    if proto == IP_PROTO_TCP && data.len() >= TCP_MIN_HEADER_LEN {
        Layer4View {
            port_source: Option::Some(spec_dec(be16(data, 0))),
            port_destination: Option::Some(spec_dec(be16(data, 2))),
        }
    } else if proto == IP_PROTO_UDP && data.len() >= UDP_MIN_HEADER_LEN {
        Layer4View {
            port_source: Option::Some(spec_dec(be16(data, 0))),
            port_destination: Option::Some(spec_dec(be16(data, 2))),
        }
    } else {
        spec_l4_absent()
    }
}

/// The name of a transport protocol discriminant: the recognized ones are
/// TCP and UDP (which carry ports) and the port-less control protocols;
/// every other discriminant is reported as unknown.
pub open spec fn spec_l4_name(proto: u8) -> Seq<char> {
    if proto == IP_PROTO_TCP {
        "Tcp"@
    } else if proto == IP_PROTO_UDP {
        "Udp"@
    } else if proto == IP_PROTO_ICMP {
        "Icmp"@
    } else if proto == IP_PROTO_ICMPV6 {
        "Icmpv6"@
    } else if proto == IP_PROTO_IGMP {
        "Igmp"@
    } else if proto == IP_PROTO_HOPOPT {
        "Hopopt"@
    } else if proto == IP_PROTO_IPV6_FRAG {
        "Ipv6Frag"@
    } else {
        "unknown"@
    }
}

/// Renders the name of a transport protocol discriminant.
pub fn l4_name(proto: u8) -> (r: String)
    ensures
        r@ == spec_l4_name(proto),
{
    if proto == IP_PROTO_TCP {
        String::from_str("Tcp")
    } else if proto == IP_PROTO_UDP {
        String::from_str("Udp")
    } else if proto == IP_PROTO_ICMP {
        String::from_str("Icmp")
    } else if proto == IP_PROTO_ICMPV6 {
        String::from_str("Icmpv6")
    } else if proto == IP_PROTO_IGMP {
        String::from_str("Igmp")
    } else if proto == IP_PROTO_HOPOPT {
        String::from_str("Hopopt")
    } else if proto == IP_PROTO_IPV6_FRAG {
        String::from_str("Ipv6Frag")
    } else {
        String::from_str("unknown")
    }
}

/// Extracts source and destination ports from the transport header `data`,
/// for the transport protocol discriminant `proto`. A buffer shorter than
/// the protocol's minimum header size, or a protocol that carries no ports,
/// yields absent ports and never a failure.
pub fn get_layer_4_infos(proto: u8, data: &[u8]) -> (r: Layer4Infos)
    ensures
        r@ == spec_layer4(proto, data@),
{
    if proto == IP_PROTO_TCP && data.len() >= TCP_MIN_HEADER_LEN {
        Layer4Infos {
            port_source: Option::Some(dec_u64(read_be16(data, 0) as u64)),
            port_destination: Option::Some(dec_u64(read_be16(data, 2) as u64)),
        }
    } else if proto == IP_PROTO_UDP && data.len() >= UDP_MIN_HEADER_LEN {
        Layer4Infos {
            port_source: Option::Some(dec_u64(read_be16(data, 0) as u64)),
            port_destination: Option::Some(dec_u64(read_be16(data, 2) as u64)),
        }
    } else {
        Layer4Infos::default()
    }
}

} // verus!
