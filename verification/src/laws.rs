//! Laws of the decoder: graceful degradation on short buffers, transparency
//! of VLAN tagging, and termination with an unknown protocol on nesting
//! deeper than the unwrap supports.

use crate::layer_2_infos::{spec_packet, spec_unwrap, ETHERNET_HEADER_LEN};
use crate::layer_3_infos::{
    spec_l3_absent, spec_layer3, ARP_MIN_LEN, ETHERTYPE_ARP, ETHERTYPE_IPV4, ETHERTYPE_IPV6,
    ETHERTYPE_VLAN, IPV4_MIN_HEADER_LEN, IPV6_HEADER_LEN,
};
use crate::layer_4_infos::{
    spec_l4_absent, spec_layer4, IP_PROTO_TCP, IP_PROTO_UDP, TCP_MIN_HEADER_LEN,
    UDP_MIN_HEADER_LEN,
};
use vstd::prelude::*;

verus! {

/// The two bytes of a discriminant as they stand in a frame, high byte
/// first.
pub open spec fn et_bytes(ethertype: u16) -> Seq<u8> {
    seq![(ethertype / 256) as u8, (ethertype % 256) as u8]
}

/// An untagged Ethernet frame: twelve address bytes, the discriminant, the
/// payload.
pub open spec fn untagged_frame(mac: Seq<u8>, ethertype: u16, rest: Seq<u8>) -> Seq<u8> {
    mac + et_bytes(ethertype) + rest
}

/// The same frame wrapped in one VLAN tag with tag control bytes `tci`.
pub open spec fn single_tagged_frame(
    mac: Seq<u8>,
    tci: Seq<u8>,
    ethertype: u16,
    rest: Seq<u8>,
) -> Seq<u8> {
    mac + et_bytes(ETHERTYPE_VLAN) + tci + et_bytes(ethertype) + rest
}

/// The same frame wrapped in two nested VLAN tags.
pub open spec fn double_tagged_frame(
    mac: Seq<u8>,
    tci1: Seq<u8>,
    tci2: Seq<u8>,
    ethertype: u16,
    rest: Seq<u8>,
) -> Seq<u8> {
    mac + et_bytes(ETHERTYPE_VLAN) + tci1 + et_bytes(ETHERTYPE_VLAN) + tci2 + et_bytes(ethertype)
        + rest
}

/// A frame whose first three discriminants all announce a VLAN tag.
pub open spec fn triple_tagged_frame(
    mac: Seq<u8>,
    tci1: Seq<u8>,
    tci2: Seq<u8>,
    tci3: Seq<u8>,
    rest: Seq<u8>,
) -> Seq<u8> {
    mac + et_bytes(ETHERTYPE_VLAN) + tci1 + et_bytes(ETHERTYPE_VLAN) + tci2 + et_bytes(
        ETHERTYPE_VLAN,
    ) + tci3 + rest
}

/// Graceful degradation on short buffers: a frame too short for an Ethernet
/// header decodes to a record with every field absent but its length and
/// interface; a network or transport buffer shorter than its protocol's
/// minimum header yields absence for that stage and below. No input fails.
pub proof fn lemma_short_buffer_degrades(
    iface: Seq<char>,
    frame: Seq<u8>,
    ethertype: u16,
    proto: u8,
    data: Seq<u8>,
)
    ensures
        frame.len() < ETHERNET_HEADER_LEN ==> spec_packet(iface, frame).layer_3_infos
            == spec_l3_absent(),
        frame.len() < ETHERNET_HEADER_LEN ==> spec_packet(iface, frame).l_3_protocol
            == "unknown"@,
        frame.len() < ETHERNET_HEADER_LEN ==> spec_packet(iface, frame).packet_size == frame.len(),
        ethertype == ETHERTYPE_IPV4 && data.len() < IPV4_MIN_HEADER_LEN ==> spec_layer3(
            ethertype,
            data,
        ) == spec_l3_absent(),
        ethertype == ETHERTYPE_IPV6 && data.len() < IPV6_HEADER_LEN ==> spec_layer3(
            ethertype,
            data,
        ) == spec_l3_absent(),
        ethertype == ETHERTYPE_ARP && data.len() < ARP_MIN_LEN ==> spec_layer3(ethertype, data)
            == spec_l3_absent(),
        proto == IP_PROTO_TCP && data.len() < TCP_MIN_HEADER_LEN ==> spec_layer4(proto, data)
            == spec_l4_absent(),
        proto == IP_PROTO_UDP && data.len() < UDP_MIN_HEADER_LEN ==> spec_layer4(proto, data)
            == spec_l4_absent(),
{
}

proof fn lemma_et_bytes_roundtrip(ethertype: u16, b: Seq<u8>, i: int)
    requires
        0 <= i,
        i + 2 <= b.len(),
        b[i] == et_bytes(ethertype)[0],
        b[i + 1] == et_bytes(ethertype)[1],
    ensures
        crate::wire::be16(b, i) == ethertype,
{
    assert(crate::wire::be16(b, i) == (ethertype / 256) * 256 + ethertype % 256);
}

/// VLAN transparency: a frame carrying one VLAN tag around a payload, and
/// the frame carrying that payload directly, decode to the same network and
/// transport findings; so do a double-tagged frame and the direct one. Only
/// the tag is unwrapped; nothing below it is read differently.
pub proof fn lemma_vlan_transparency(
    iface: Seq<char>,
    mac: Seq<u8>,
    tci1: Seq<u8>,
    tci2: Seq<u8>,
    ethertype: u16,
    rest: Seq<u8>,
)
    requires
        mac.len() == 12,
        tci1.len() == 2,
        tci2.len() == 2,
        ethertype != ETHERTYPE_VLAN,
    ensures
        spec_packet(iface, single_tagged_frame(mac, tci1, ethertype, rest)).layer_3_infos
            == spec_packet(iface, untagged_frame(mac, ethertype, rest)).layer_3_infos,
        spec_packet(iface, double_tagged_frame(mac, tci1, tci2, ethertype, rest)).layer_3_infos
            == spec_packet(iface, untagged_frame(mac, ethertype, rest)).layer_3_infos,
        spec_packet(iface, single_tagged_frame(mac, tci1, ethertype, rest)).l_3_protocol
            == spec_packet(iface, untagged_frame(mac, ethertype, rest)).l_3_protocol,
        spec_packet(iface, double_tagged_frame(mac, tci1, tci2, ethertype, rest)).l_3_protocol
            == spec_packet(iface, untagged_frame(mac, ethertype, rest)).l_3_protocol,
{
    let f0 = untagged_frame(mac, ethertype, rest);
    let f1 = single_tagged_frame(mac, tci1, ethertype, rest);
    let f2 = double_tagged_frame(mac, tci1, tci2, ethertype, rest);
    lemma_et_bytes_roundtrip(ethertype, f0, 12);
    assert(spec_unwrap(f0) == Option::Some((ethertype, 14int)));
    assert(f0.skip(14) =~= rest);

    lemma_et_bytes_roundtrip(ETHERTYPE_VLAN, f1, 12);
    lemma_et_bytes_roundtrip(ethertype, f1, 16);
    assert(spec_unwrap(f1) == Option::Some((ethertype, 18int)));
    assert(f1.skip(18) =~= rest);

    lemma_et_bytes_roundtrip(ETHERTYPE_VLAN, f2, 12);
    lemma_et_bytes_roundtrip(ETHERTYPE_VLAN, f2, 16);
    lemma_et_bytes_roundtrip(ethertype, f2, 20);
    assert(spec_unwrap(f2) == Option::Some((ethertype, 22int)));
    assert(f2.skip(22) =~= rest);
}

/// Termination on deep nesting: when a third nested VLAN tag follows the
/// second, the unwrap stops, the record reports an unknown network protocol
/// and absent findings, whatever lies further inside.
pub proof fn lemma_nested_tags_opaque(
    iface: Seq<char>,
    mac: Seq<u8>,
    tci1: Seq<u8>,
    tci2: Seq<u8>,
    tci3: Seq<u8>,
    rest: Seq<u8>,
)
    requires
        mac.len() == 12,
        tci1.len() == 2,
        tci2.len() == 2,
        tci3.len() == 2,
    ensures
        spec_packet(iface, triple_tagged_frame(mac, tci1, tci2, tci3, rest)).l_3_protocol
            == "unknown"@,
        spec_packet(iface, triple_tagged_frame(mac, tci1, tci2, tci3, rest)).layer_3_infos
            == spec_l3_absent(),
{
    let f = triple_tagged_frame(mac, tci1, tci2, tci3, rest);
    lemma_et_bytes_roundtrip(ETHERTYPE_VLAN, f, 12);
    lemma_et_bytes_roundtrip(ETHERTYPE_VLAN, f, 16);
    lemma_et_bytes_roundtrip(ETHERTYPE_VLAN, f, 20);
    assert(spec_unwrap(f) == Option::None::<(u16, int)>);
}

} // verus!
