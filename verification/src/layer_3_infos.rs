//! Network stage of the decoder: addresses and the transport discriminant
//! for IPv4, IPv6 and ARP; deliberate absence for the discovery protocols
//! that carry no addresses; absence for anything unrecognized or truncated.

use crate::layer_4_infos::{spec_l4_absent, spec_l4_name, spec_layer4, Layer4Infos, Layer4View};
use crate::layer_4_infos::{get_layer_4_infos, l4_name};
use crate::text::{clone_opt, format_ipv4, format_ipv6, opt_str_eq, spec_ipv4, spec_ipv6, view_opt};
use vstd::prelude::*;

verus! {

pub const ETHERTYPE_IPV4: u16 = 0x0800;

pub const ETHERTYPE_ARP: u16 = 0x0806;

pub const ETHERTYPE_VLAN: u16 = 0x8100;

pub const ETHERTYPE_IPV6: u16 = 0x86DD;

pub const ETHERTYPE_PPPOE_DISCOVERY: u16 = 0x8863;

pub const ETHERTYPE_LLDP: u16 = 0x88CC;

/// Minimum length of an IPv4 header, in bytes.
pub const IPV4_MIN_HEADER_LEN: usize = 20;

/// Length of an IPv6 fixed header, in bytes.
pub const IPV6_HEADER_LEN: usize = 40;

/// Minimum length of an ARP message over 6-byte hardware and 4-byte
/// protocol addresses, in bytes.
pub const ARP_MIN_LEN: usize = 28;

/// Network-stage description of one frame: source and destination network
/// addresses and the transport discriminant's name when the network layer
/// could be parsed, plus the transport stage's findings. Fields are absent
/// when the layer is unrecognized, truncated, or carries no such field.
#[derive(Debug, Clone)]
pub struct Layer3Infos {
    pub ip_source: Option<String>,
    pub ip_destination: Option<String>,
    pub l_4_protocol: Option<String>,
    pub layer_4_infos: Layer4Infos,
}

/// Mathematical model of `Layer3Infos`.
pub struct Layer3View {
    pub ip_source: Option<Seq<char>>,
    pub ip_destination: Option<Seq<char>>,
    pub l_4_protocol: Option<Seq<char>>,
    pub layer_4_infos: Layer4View,
}

impl View for Layer3Infos {
    type V = Layer3View;

    open spec fn view(&self) -> Layer3View {
        Layer3View {
            ip_source: view_opt(self.ip_source),
            ip_destination: view_opt(self.ip_destination),
            l_4_protocol: view_opt(self.l_4_protocol),
            layer_4_infos: self.layer_4_infos@,
        }
    }
}

/// The model of a network stage that found nothing.
pub open spec fn spec_l3_absent() -> Layer3View {
    Layer3View {
        ip_source: Option::None,
        ip_destination: Option::None,
        l_4_protocol: Option::None,
        layer_4_infos: spec_l4_absent(),
    }
}

impl Default for Layer3Infos {
    /// Every field absent.
    fn default() -> (r: Self)
        ensures
            r@ == spec_l3_absent(),
    {
        Layer3Infos {
            ip_source: Option::None,
            ip_destination: Option::None,
            l_4_protocol: Option::None,
            layer_4_infos: Layer4Infos::default(),
        }
    }
}

impl PartialEq for Layer3Infos {
    fn eq(&self, other: &Self) -> (r: bool) {
        opt_str_eq(&self.ip_source, &other.ip_source) && opt_str_eq(
            &self.ip_destination,
            &other.ip_destination,
        ) && opt_str_eq(&self.l_4_protocol, &other.l_4_protocol) && self.layer_4_infos
            == other.layer_4_infos
    }
}

impl vstd::std_specs::cmp::PartialEqSpecImpl for Layer3Infos {
    open spec fn obeys_eq_spec() -> bool {
        true
    }

    open spec fn eq_spec(&self, other: &Self) -> bool {
        self@ == other@
    }
}

impl Layer3Infos {
    /// An independent copy with the same model.
    pub fn duplicate(&self) -> (r: Self)
        ensures
            r@ == self@,
    {
        Layer3Infos {
            ip_source: clone_opt(&self.ip_source),
            ip_destination: clone_opt(&self.ip_destination),
            l_4_protocol: clone_opt(&self.l_4_protocol),
            layer_4_infos: self.layer_4_infos.duplicate(),
        }
    }
}

/// The header length declared by an IPv4 header: the low four bits of its
/// first byte, in units of four bytes.
pub open spec fn spec_ipv4_ihl(data: Seq<u8>) -> int
    recommends
        data.len() >= 1,
{
    (data[0] as int) % 16
}

/// An IPv4 header is parseable when the buffer holds the minimum header and
/// the declared header length is consistent: at least the minimum and not
/// past the end of the buffer.
pub open spec fn spec_ipv4_parseable(data: Seq<u8>) -> bool {
    data.len() >= IPV4_MIN_HEADER_LEN && spec_ipv4_ihl(data) >= 5 && 4 * spec_ipv4_ihl(data)
        <= data.len()
}

/// What the network stage yields for an IPv4 packet: dotted-decimal source
/// and destination addresses, the declared transport protocol's name, and
/// the transport stage applied to the bytes after the declared header.
pub open spec fn spec_layer3_ipv4(data: Seq<u8>) -> Layer3View {
    if spec_ipv4_parseable(data) {
        Layer3View {
            ip_source: Option::Some(spec_ipv4(data.subrange(12, 16))),
            ip_destination: Option::Some(spec_ipv4(data.subrange(16, 20))),
            l_4_protocol: Option::Some(spec_l4_name(data[9])),
            layer_4_infos: spec_layer4(data[9], data.skip(4 * spec_ipv4_ihl(data))),
        }
    } else {
        spec_l3_absent()
    }
}

/// What the network stage yields for an IPv6 packet: hexadecimal source and
/// destination addresses, the next header's name, and the transport stage
/// applied to the bytes after the fixed header.
pub open spec fn spec_layer3_ipv6(data: Seq<u8>) -> Layer3View {
    if data.len() >= IPV6_HEADER_LEN {
        Layer3View {
            ip_source: Option::Some(spec_ipv6(data.subrange(8, 24))),
            ip_destination: Option::Some(spec_ipv6(data.subrange(24, 40))),
            l_4_protocol: Option::Some(spec_l4_name(data[6])),
            layer_4_infos: spec_layer4(data[6], data.skip(IPV6_HEADER_LEN as int)),
        }
    } else {
        spec_l3_absent()
    }
}

/// What the network stage yields for an ARP message: the sender and target
/// protocol addresses; ARP has no transport stage.
pub open spec fn spec_layer3_arp(data: Seq<u8>) -> Layer3View {
    if data.len() >= ARP_MIN_LEN {
        Layer3View {
            ip_source: Option::Some(spec_ipv4(data.subrange(14, 18))),
            ip_destination: Option::Some(spec_ipv4(data.subrange(24, 28))),
            l_4_protocol: Option::None,
            layer_4_infos: spec_l4_absent(),
        }
    } else {
        spec_l3_absent()
    }
}

/// The network stage over the (already unwrapped) discriminant `ethertype`
/// and the payload `data`. The discovery protocols without address fields
/// and every unrecognized discriminant yield absence by design.
pub open spec fn spec_layer3(ethertype: u16, data: Seq<u8>) -> Layer3View {
    if ethertype == ETHERTYPE_IPV4 {
        spec_layer3_ipv4(data)
    } else if ethertype == ETHERTYPE_IPV6 {
        spec_layer3_ipv6(data)
    } else if ethertype == ETHERTYPE_ARP {
        spec_layer3_arp(data)
    } else {
        spec_l3_absent()
    }
}

fn ipv4_layer3(data: &[u8]) -> (r: Layer3Infos)
    ensures
        r@ == spec_layer3_ipv4(data@),
{
    let n = data.len();
    if n < IPV4_MIN_HEADER_LEN {
        return Layer3Infos::default();
    }
    let ihl = (data[0] % 16) as usize;
    if ihl < 5 || 4 * ihl > n {
        return Layer3Infos::default();
    }
    let proto = data[9];
    let payload = vstd::slice::slice_subrange(data, 4 * ihl, n);
    proof {
        assert(payload@ =~= data@.skip(4 * spec_ipv4_ihl(data@)));
    }
    Layer3Infos {
        ip_source: Option::Some(format_ipv4(data, 12)),
        ip_destination: Option::Some(format_ipv4(data, 16)),
        l_4_protocol: Option::Some(l4_name(proto)),
        layer_4_infos: get_layer_4_infos(proto, payload),
    }
}

fn ipv6_layer3(data: &[u8]) -> (r: Layer3Infos)
    ensures
        r@ == spec_layer3_ipv6(data@),
{
    let n = data.len();
    if n < IPV6_HEADER_LEN {
        return Layer3Infos::default();
    }
    let proto = data[6];
    let payload = vstd::slice::slice_subrange(data, IPV6_HEADER_LEN, n);
    proof {
        assert(payload@ =~= data@.skip(IPV6_HEADER_LEN as int));
    }
    Layer3Infos {
        ip_source: Option::Some(format_ipv6(data, 8)),
        ip_destination: Option::Some(format_ipv6(data, 24)),
        l_4_protocol: Option::Some(l4_name(proto)),
        layer_4_infos: get_layer_4_infos(proto, payload),
    }
}

fn arp_layer3(data: &[u8]) -> (r: Layer3Infos)
    ensures
        r@ == spec_layer3_arp(data@),
{
    if data.len() < ARP_MIN_LEN {
        return Layer3Infos::default();
    }
    Layer3Infos {
        ip_source: Option::Some(format_ipv4(data, 14)),
        ip_destination: Option::Some(format_ipv4(data, 24)),
        l_4_protocol: Option::None,
        layer_4_infos: Layer4Infos::default(),
    }
}

/// Runs the network stage on the unwrapped discriminant `ethertype` over the
/// payload `data`. A short or malformed buffer yields absent fields for this
/// stage and below, never a failure.
pub fn network_stage(ethertype: u16, data: &[u8]) -> (r: Layer3Infos)
    ensures
        r@ == spec_layer3(ethertype, data@),
{
    if ethertype == ETHERTYPE_IPV4 {
        ipv4_layer3(data)
    } else if ethertype == ETHERTYPE_IPV6 {
        ipv6_layer3(data)
    } else if ethertype == ETHERTYPE_ARP {
        arp_layer3(data)
    } else {
        Layer3Infos::default()
    }
}

} // verus!
