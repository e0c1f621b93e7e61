//! Link stage of the decoder and the canonical record of one frame.
//!
//! The link stage reads the hardware addresses and the declared discriminant
//! of an Ethernet frame, unwraps up to two nested VLAN tags, and hands the
//! innermost discriminant and payload to the network stage. A third nested
//! tag stops the unwrap: the rest of the frame is treated as opaque, so
//! decoding terminates on adversarial nesting.

use crate::layer_3_infos::{
    network_stage, spec_l3_absent, spec_layer3, Layer3Infos, Layer3View, ETHERTYPE_ARP,
    ETHERTYPE_IPV4, ETHERTYPE_IPV6, ETHERTYPE_LLDP, ETHERTYPE_PPPOE_DISCOVERY, ETHERTYPE_VLAN,
};
use crate::text::{spec_dec, spec_mac, str_eq, view_opt};
use crate::text::{dec_u64, format_mac};
use crate::wire::{be16, read_be16};
use vstd::prelude::*;

verus! {

/// Length of an Ethernet header, in bytes.
pub const ETHERNET_HEADER_LEN: usize = 14;

/// Length of one VLAN tag (tag control information plus the inner
/// discriminant), in bytes.
pub const VLAN_TAG_LEN: usize = 4;

/// Canonical, protocol-agnostic record of one frame's addressing and
/// protocol identity; immutable once built.
#[derive(Debug, Clone)]
pub struct PacketInfos {
    /// Hardware address the frame came from.
    pub mac_address_source: String,
    /// Hardware address the frame is addressed to.
    pub mac_address_destination: String,
    /// Logical name of the capturing interface.
    pub interface: String,
    /// Name of the network protocol actually observed after unwrapping any
    /// tagging layers, or unknown.
    pub l_3_protocol: String,
    /// Findings of the network and transport stages.
    pub layer_3_infos: Layer3Infos,
    /// Total frame length in bytes.
    pub packet_size: usize,
}

/// Mathematical model of `PacketInfos`.
pub struct PacketView {
    pub mac_address_source: Seq<char>,
    pub mac_address_destination: Seq<char>,
    pub interface: Seq<char>,
    pub l_3_protocol: Seq<char>,
    pub layer_3_infos: Layer3View,
    pub packet_size: usize,
}

impl View for PacketInfos {
    type V = PacketView;

    open spec fn view(&self) -> PacketView {
        PacketView {
            mac_address_source: self.mac_address_source@,
            mac_address_destination: self.mac_address_destination@,
            interface: self.interface@,
            l_3_protocol: self.l_3_protocol@,
            layer_3_infos: self.layer_3_infos@,
            packet_size: self.packet_size,
        }
    }
}

impl PartialEq for PacketInfos {
    fn eq(&self, other: &Self) -> (r: bool) {
        str_eq(self.mac_address_source.as_str(), other.mac_address_source.as_str())
            && str_eq(self.mac_address_destination.as_str(), other.mac_address_destination.as_str())
            && str_eq(self.interface.as_str(), other.interface.as_str())
            && str_eq(self.l_3_protocol.as_str(), other.l_3_protocol.as_str())
            && self.layer_3_infos == other.layer_3_infos
            && self.packet_size == other.packet_size
    }
}

impl vstd::std_specs::cmp::PartialEqSpecImpl for PacketInfos {
    open spec fn obeys_eq_spec() -> bool {
        true
    }

    open spec fn eq_spec(&self, other: &Self) -> bool {
        self@ == other@
    }
}

impl PacketInfos {
    /// An independent copy with the same model.
    pub fn duplicate(&self) -> (r: Self)
        ensures
            r@ == self@,
    {
        PacketInfos {
            mac_address_source: self.mac_address_source.clone(),
            mac_address_destination: self.mac_address_destination.clone(),
            interface: self.interface.clone(),
            l_3_protocol: self.l_3_protocol.clone(),
            layer_3_infos: self.layer_3_infos.duplicate(),
            packet_size: self.packet_size,
        }
    }
}

/// The name of a network protocol discriminant, as reported in a canonical
/// record: the recognized network and discovery protocols by name, every
/// other discriminant as unknown.
pub open spec fn spec_l3_name(ethertype: u16) -> Seq<char> {
    if ethertype == ETHERTYPE_IPV4 {
        "Ipv4"@
    } else if ethertype == ETHERTYPE_IPV6 {
        "Ipv6"@
    } else if ethertype == ETHERTYPE_ARP {
        "Arp"@
    } else if ethertype == ETHERTYPE_PPPOE_DISCOVERY {
        "PppoeDiscovery"@
    } else if ethertype == ETHERTYPE_LLDP {
        "Lldp"@
    } else {
        "unknown"@
    }
}

fn l3_name(ethertype: u16) -> (r: String)
    ensures
        r@ == spec_l3_name(ethertype),
{
    if ethertype == ETHERTYPE_IPV4 {
        String::from_str("Ipv4")
    } else if ethertype == ETHERTYPE_IPV6 {
        String::from_str("Ipv6")
    } else if ethertype == ETHERTYPE_ARP {
        String::from_str("Arp")
    } else if ethertype == ETHERTYPE_PPPOE_DISCOVERY {
        String::from_str("PppoeDiscovery")
    } else if ethertype == ETHERTYPE_LLDP {
        String::from_str("Lldp")
    } else {
        String::from_str("unknown")
    }
}

/// The innermost discriminant of a frame and the offset of its payload,
/// after unwrapping at most two nested VLAN tags. `None` when a tag header
/// is truncated, or when a third nested tag follows: then the innermost
/// layer is treated as opaque.
pub open spec fn spec_unwrap(frame: Seq<u8>) -> Option<(u16, int)>
    recommends
        frame.len() >= ETHERNET_HEADER_LEN,
{
    let et0 = be16(frame, 12);
    if et0 != ETHERTYPE_VLAN {
        Option::Some((et0 as u16, ETHERNET_HEADER_LEN as int))
    } else if frame.len() < 18 {
        Option::None
    } else {
        let et1 = be16(frame, 16);
        if et1 != ETHERTYPE_VLAN {
            Option::Some((et1 as u16, 18))
        } else if frame.len() < 22 {
            Option::None
        } else {
            let et2 = be16(frame, 20);
            if et2 != ETHERTYPE_VLAN {
                Option::Some((et2 as u16, 22))
            } else {
                Option::None
            }
        }
    }
}

fn unwrap_tags(frame: &[u8]) -> (r: (bool, u16, usize))
    requires
        frame@.len() >= ETHERNET_HEADER_LEN,
    ensures
        match spec_unwrap(frame@) {
            Option::Some(p) => r.0 && r.1 == p.0 && r.2 as int == p.1 && r.2 <= frame@.len(),
            Option::None => !r.0,
        },
{
    let n = frame.len();
    let et0 = read_be16(frame, 12);
    if et0 != ETHERTYPE_VLAN {
        (true, et0, ETHERNET_HEADER_LEN)
    } else if n < 18 {
        (false, 0, 0)
    } else {
        let et1 = read_be16(frame, 16);
        if et1 != ETHERTYPE_VLAN {
            (true, et1, 18)
        } else if n < 22 {
            (false, 0, 0)
        } else {
            let et2 = read_be16(frame, 20);
            if et2 != ETHERTYPE_VLAN {
                (true, et2, 22)
            } else {
                (false, 0, 0)
            }
        }
    }
}

/// The network- and transport-stage findings for a whole frame: nothing for
/// a frame too short for an Ethernet header or whose tag nest could not be
/// unwrapped, the network stage over the innermost discriminant otherwise.
pub open spec fn spec_network_of_frame(frame: Seq<u8>) -> Layer3View {
    if frame.len() < ETHERNET_HEADER_LEN {
        spec_l3_absent()
    } else {
        match spec_unwrap(frame) {
            Option::Some(p) => spec_layer3(p.0, frame.skip(p.1)),
            Option::None => spec_l3_absent(),
        }
    }
}

/// The canonical record of a frame captured on interface `iface`: hardware
/// addresses from the Ethernet header, the name of the innermost network
/// protocol, the network and transport findings, and the frame's length.
/// A frame too short for an Ethernet header keeps everything absent but its
/// length and interface.
pub open spec fn spec_packet(iface: Seq<char>, frame: Seq<u8>) -> PacketView {
    if frame.len() < ETHERNET_HEADER_LEN {
        PacketView {
            mac_address_source: Seq::empty(),
            mac_address_destination: Seq::empty(),
            interface: iface,
            l_3_protocol: "unknown"@,
            layer_3_infos: spec_l3_absent(),
            packet_size: frame.len() as usize,
        }
    } else {
        PacketView {
            mac_address_source: spec_mac(frame.subrange(6, 12)),
            mac_address_destination: spec_mac(frame.subrange(0, 6)),
            interface: iface,
            l_3_protocol: match spec_unwrap(frame) {
                Option::Some(p) => spec_l3_name(p.0),
                Option::None => "unknown"@,
            },
            layer_3_infos: spec_network_of_frame(frame),
            packet_size: frame.len() as usize,
        }
    }
}

/// Runs the tag unwrap and the network stage on a whole frame. For any
/// buffer too short for an Ethernet header, or whose tag nest could not be
/// unwrapped, every field of the result is absent; decoding never fails.
pub fn get_layer_3_infos(frame: &[u8]) -> (r: Layer3Infos)
    ensures
        r@ == spec_network_of_frame(frame@),
{
    if frame.len() < ETHERNET_HEADER_LEN {
        return Layer3Infos::default();
    }
    let (found, ethertype, off) = unwrap_tags(frame);
    if !found {
        return Layer3Infos::default();
    }
    let payload = vstd::slice::slice_subrange(frame, off, frame.len());
    proof {
        assert(payload@ =~= frame@.skip(spec_unwrap(frame@).unwrap().1));
    }
    network_stage(ethertype, payload)
}

impl PacketInfos {
    /// Decodes one captured frame into its canonical record. Decoding
    /// degrades gracefully: a stage that cannot be parsed leaves its fields
    /// and everything below absent, and earlier stages' findings stand.
    pub fn new(interface_name: &String, frame: &[u8]) -> (r: PacketInfos)
        ensures
            r@ == spec_packet(interface_name@, frame@),
    {
        if frame.len() < ETHERNET_HEADER_LEN {
            return PacketInfos {
                mac_address_source: String::new(),
                mac_address_destination: String::new(),
                interface: interface_name.clone(),
                l_3_protocol: String::from_str("unknown"),
                layer_3_infos: Layer3Infos::default(),
                packet_size: frame.len(),
            };
        }
        let (found, ethertype, off) = unwrap_tags(frame);
        let name = if found {
            l3_name(ethertype)
        } else {
            String::from_str("unknown")
        };
        let infos = if found {
            let payload = vstd::slice::slice_subrange(frame, off, frame.len());
            proof {
                assert(payload@ =~= frame@.skip(spec_unwrap(frame@).unwrap().1));
            }
            network_stage(ethertype, payload)
        } else {
            Layer3Infos::default()
        };
        PacketInfos {
            mac_address_source: format_mac(frame, 6),
            mac_address_destination: format_mac(frame, 0),
            interface: interface_name.clone(),
            l_3_protocol: name,
            layer_3_infos: infos,
            packet_size: frame.len(),
        }
    }
}

/// The rendering of an optional field, with a placeholder for absence.
pub open spec fn spec_opt_or_na(o: Option<Seq<char>>) -> Seq<char> {
    match o {
        Option::Some(s) => s,
        Option::None => "N/A"@,
    }
}

/// The multi-line rendering of a canonical record, one field per line.
pub open spec fn spec_display(p: PacketView) -> Seq<char> {
    "MAC Source: "@ + p.mac_address_source + "\n"@ + "MAC Destination: "@
        + p.mac_address_destination + "\n"@ + "L2 Interface: "@ + p.interface + "\n"@
        + "L3 Protocol: "@ + p.l_3_protocol + "\n"@ + "IP Source: "@ + spec_opt_or_na(
        p.layer_3_infos.ip_source,
    ) + "\n"@ + "IP Destination: "@ + spec_opt_or_na(p.layer_3_infos.ip_destination) + "\n"@
        + "Port Destination: "@ + spec_opt_or_na(p.layer_3_infos.layer_4_infos.port_destination)
        + "\n"@ + "Port Source: "@ + spec_opt_or_na(p.layer_3_infos.layer_4_infos.port_source)
        + "\n"@ + "L4 Protocol: "@ + spec_opt_or_na(p.layer_3_infos.l_4_protocol) + "\n"@
        + "Packet Size: "@ + spec_dec(p.packet_size as int) + " bytes\n"@
}

fn append_opt_or_na(s: &mut String, o: &Option<String>)
    ensures
        final(s)@ == old(s)@ + spec_opt_or_na(view_opt(*o)),
{
    match o {
        Option::Some(v) => s.append(v.as_str()),
        Option::None => s.append("N/A"),
    }
}

impl PacketInfos {
    /// Renders the record for display, one field per line, with a
    /// placeholder for absent fields.
    pub fn display_string(&self) -> (r: String)
        ensures
            r@ == spec_display(self@),
    {
        let mut s = String::from_str("MAC Source: ");
        s.append(self.mac_address_source.as_str());
        s.append("\n");
        s.append("MAC Destination: ");
        s.append(self.mac_address_destination.as_str());
        s.append("\n");
        s.append("L2 Interface: ");
        s.append(self.interface.as_str());
        s.append("\n");
        s.append("L3 Protocol: ");
        s.append(self.l_3_protocol.as_str());
        s.append("\n");
        s.append("IP Source: ");
        append_opt_or_na(&mut s, &self.layer_3_infos.ip_source);
        s.append("\n");
        s.append("IP Destination: ");
        append_opt_or_na(&mut s, &self.layer_3_infos.ip_destination);
        s.append("\n");
        s.append("Port Destination: ");
        append_opt_or_na(&mut s, &self.layer_3_infos.layer_4_infos.port_destination);
        s.append("\n");
        s.append("Port Source: ");
        append_opt_or_na(&mut s, &self.layer_3_infos.layer_4_infos.port_source);
        s.append("\n");
        s.append("L4 Protocol: ");
        append_opt_or_na(&mut s, &self.layer_3_infos.l_4_protocol);
        s.append("\n");
        s.append("Packet Size: ");
        s.append(dec_u64(self.packet_size as u64).as_str());
        s.append(" bytes\n");
        proof {
            assert(s@ =~= spec_display(self@));
        }
        s
    }
}

} // verus!
