use pnet::packet::ethernet::{EtherTypes, EthernetPacket, MutableEthernetPacket};
use pnet::packet::ip::IpNextHeaderProtocols;
use pnet::packet::ipv4::MutableIpv4Packet;
use pnet::packet::Packet;
use pnet::util::core_net::Ipv4Addr;
use sonar_core::layer_2_infos::{get_layer_3_infos, PacketInfos};
use sonar_core::layer_3_infos::Layer3Infos;
use sonar_core::layer_4_infos::get_layer_4_infos;

fn create_ipv4_packet(src_ip: Ipv4Addr, dst_ip: Ipv4Addr) -> Vec<u8> {
    let mut buf = [0u8; 34]; // Ethernet header (14 bytes) + IPv4 header (20 bytes)
    let mut eth_packet = MutableEthernetPacket::new(&mut buf[..]).unwrap();
    eth_packet.set_ethertype(EtherTypes::Ipv4);

    let mut ipv4_buf = [0u8; 20]; // Minimum IPv4 header size
    let mut ipv4_packet = MutableIpv4Packet::new(&mut ipv4_buf[..]).unwrap();
    ipv4_packet.set_version(4);
    ipv4_packet.set_header_length(5);
    ipv4_packet.set_total_length(20);
    ipv4_packet.set_next_level_protocol(IpNextHeaderProtocols::Tcp);
    ipv4_packet.set_source(src_ip);
    ipv4_packet.set_destination(dst_ip);

    eth_packet.set_payload(ipv4_packet.packet());

    buf.to_vec()
}

#[test]
fn test_get_layer_3_infos_ipv4() {
    let src_ip = Ipv4Addr::new(192, 168, 1, 1);
    let dst_ip = Ipv4Addr::new(192, 168, 1, 2);
    let packet_data = create_ipv4_packet(src_ip, dst_ip);
    // The buffer parses as an Ethernet frame; the decoder reads the same bytes.
    let _ethernet_packet = EthernetPacket::new(&packet_data[..]).unwrap();

    let layer3_infos = get_layer_3_infos(&packet_data[..]);

    assert_eq!(layer3_infos.ip_source, Some("192.168.1.1".to_string()));
    assert_eq!(layer3_infos.ip_destination, Some("192.168.1.2".to_string()));
    assert_eq!(layer3_infos.l_4_protocol, Some("Tcp".to_string()));
}

/// An Ethernet frame with the given discriminant and payload.
fn eth_frame(dst: [u8; 6], src: [u8; 6], ethertype: u16, payload: &[u8]) -> Vec<u8> {
    let mut frame = Vec::new();
    frame.extend_from_slice(&dst);
    frame.extend_from_slice(&src);
    frame.push((ethertype >> 8) as u8);
    frame.push((ethertype & 0xff) as u8);
    frame.extend_from_slice(payload);
    frame
}

/// A 20-byte IPv4 header plus a 20-byte TCP header plus padding.
fn ipv4_tcp_payload(
    src: [u8; 4],
    dst: [u8; 4],
    sport: u16,
    dport: u16,
    pad_to: usize,
) -> Vec<u8> {
    let mut p = vec![0u8; 20];
    p[0] = 0x45; // version 4, header length 5 words
    p[9] = 6; // TCP
    p[12..16].copy_from_slice(&src);
    p[16..20].copy_from_slice(&dst);
    let mut tcp = vec![0u8; 20];
    tcp[0] = (sport >> 8) as u8;
    tcp[1] = (sport & 0xff) as u8;
    tcp[2] = (dport >> 8) as u8;
    tcp[3] = (dport & 0xff) as u8;
    p.extend_from_slice(&tcp);
    while p.len() + 14 < pad_to {
        p.push(0);
    }
    p
}

#[test]
fn ipv4_tcp_concrete_scenario() {
    let payload = ipv4_tcp_payload([192, 168, 1, 1], [192, 168, 1, 2], 443, 51000, 120);
    let frame = eth_frame([1, 2, 3, 4, 5, 6], [10, 11, 12, 13, 14, 15], 0x0800, &payload);
    assert_eq!(frame.len(), 120);
    let infos = PacketInfos::new(&String::from("eth0"), &frame[..]);
    assert_eq!(infos.interface, "eth0");
    assert_eq!(infos.l_3_protocol, "Ipv4");
    assert_eq!(infos.layer_3_infos.ip_source, Some("192.168.1.1".to_string()));
    assert_eq!(infos.layer_3_infos.ip_destination, Some("192.168.1.2".to_string()));
    assert_eq!(infos.layer_3_infos.l_4_protocol, Some("Tcp".to_string()));
    assert_eq!(
        infos.layer_3_infos.layer_4_infos.port_source,
        Some("443".to_string())
    );
    assert_eq!(
        infos.layer_3_infos.layer_4_infos.port_destination,
        Some("51000".to_string())
    );
    assert_eq!(infos.packet_size, 120);
    assert_eq!(
        infos.mac_address_source,
        "0a:0b:0c:0d:0e:0f".to_string()
    );
    assert_eq!(infos.mac_address_destination, "01:02:03:04:05:06".to_string());
}

#[test]
fn arp_scenario() {
    let mut arp = vec![0u8; 28];
    arp[14..18].copy_from_slice(&[192, 168, 1, 1]); // sender protocol address
    arp[24..28].copy_from_slice(&[192, 168, 1, 254]); // target protocol address
    let frame = eth_frame([1, 1, 1, 1, 1, 1], [2, 2, 2, 2, 2, 2], 0x0806, &arp);
    let infos = PacketInfos::new(&String::from("eth0"), &frame[..]);
    assert_eq!(infos.l_3_protocol, "Arp");
    assert_eq!(infos.layer_3_infos.ip_source, Some("192.168.1.1".to_string()));
    assert_eq!(
        infos.layer_3_infos.ip_destination,
        Some("192.168.1.254".to_string())
    );
    assert_eq!(infos.layer_3_infos.l_4_protocol, None);
    assert_eq!(infos.layer_3_infos.layer_4_infos.port_source, None);
    assert_eq!(infos.layer_3_infos.layer_4_infos.port_destination, None);
}

fn vlan_tag(inner_ethertype: u16) -> Vec<u8> {
    vec![
        0x00,
        0x7b, // tag control information: VLAN id 123
        (inner_ethertype >> 8) as u8,
        (inner_ethertype & 0xff) as u8,
    ]
}

#[test]
fn vlan_transparency_single_tag() {
    let payload = ipv4_tcp_payload([10, 0, 0, 1], [10, 0, 0, 2], 80, 1024, 80);
    let direct = eth_frame([1; 6], [2; 6], 0x0800, &payload);
    let mut tagged_payload = vlan_tag(0x0800);
    tagged_payload.extend_from_slice(&payload);
    let tagged = eth_frame([1; 6], [2; 6], 0x8100, &tagged_payload);

    let a = PacketInfos::new(&String::from("eth0"), &direct[..]);
    let b = PacketInfos::new(&String::from("eth0"), &tagged[..]);
    assert_eq!(a.layer_3_infos, b.layer_3_infos);
    assert_eq!(b.l_3_protocol, "Ipv4");
    assert_eq!(b.layer_3_infos.ip_source, Some("10.0.0.1".to_string()));
    assert_eq!(
        b.layer_3_infos.layer_4_infos.port_source,
        Some("80".to_string())
    );
}

#[test]
fn vlan_transparency_double_tag() {
    let payload = ipv4_tcp_payload([10, 0, 0, 1], [10, 0, 0, 2], 80, 1024, 80);
    let direct = eth_frame([1; 6], [2; 6], 0x0800, &payload);
    let mut tagged_payload = vlan_tag(0x8100);
    tagged_payload.extend_from_slice(&vlan_tag(0x0800));
    tagged_payload.extend_from_slice(&payload);
    let tagged = eth_frame([1; 6], [2; 6], 0x8100, &tagged_payload);

    let a = PacketInfos::new(&String::from("eth0"), &direct[..]);
    let b = PacketInfos::new(&String::from("eth0"), &tagged[..]);
    assert_eq!(a.layer_3_infos, b.layer_3_infos);
    assert_eq!(b.l_3_protocol, "Ipv4");
}

#[test]
fn vlan_triple_tag_is_opaque() {
    let payload = ipv4_tcp_payload([10, 0, 0, 1], [10, 0, 0, 2], 80, 1024, 80);
    let mut tagged_payload = vlan_tag(0x8100);
    tagged_payload.extend_from_slice(&vlan_tag(0x8100));
    tagged_payload.extend_from_slice(&vlan_tag(0x0800));
    tagged_payload.extend_from_slice(&payload);
    let tagged = eth_frame([1; 6], [2; 6], 0x8100, &tagged_payload);

    let infos = PacketInfos::new(&String::from("eth0"), &tagged[..]);
    assert_eq!(infos.l_3_protocol, "unknown");
    assert_eq!(infos.layer_3_infos, Layer3Infos::default());
}

#[test]
fn short_buffers_degrade_gracefully() {
    // Too short for an Ethernet header: everything absent but length.
    let infos = PacketInfos::new(&String::from("eth0"), &[0u8; 9][..]);
    assert_eq!(infos.mac_address_source, "");
    assert_eq!(infos.l_3_protocol, "unknown");
    assert_eq!(infos.layer_3_infos, Layer3Infos::default());
    assert_eq!(infos.packet_size, 9);

    // An IPv4 frame cut right after the Ethernet header: network stage absent.
    let frame = eth_frame([1; 6], [2; 6], 0x0800, &[0u8; 7]);
    let infos = PacketInfos::new(&String::from("eth0"), &frame[..]);
    assert_eq!(infos.l_3_protocol, "Ipv4");
    assert_eq!(infos.layer_3_infos, Layer3Infos::default());

    // An IPv4 header declaring more header than the buffer holds.
    let mut bad = vec![0u8; 20];
    bad[0] = 0x4f; // header length 15 words: 60 bytes, buffer has 20
    let frame = eth_frame([1; 6], [2; 6], 0x0800, &bad);
    let infos = PacketInfos::new(&String::from("eth0"), &frame[..]);
    assert_eq!(infos.layer_3_infos, Layer3Infos::default());

    // A TCP header shorter than its minimum: ports absent.
    let l4 = get_layer_4_infos(6, &[0u8; 19]);
    assert_eq!(l4.port_source, None);
    assert_eq!(l4.port_destination, None);
}

#[test]
fn udp_ports_extracted() {
    let data = [0x00u8, 0x35, 0x04, 0x00, 0, 0, 0, 0]; // ports 53 -> 1024
    let l4 = get_layer_4_infos(17, &data);
    assert_eq!(l4.port_source, Some("53".to_string()));
    assert_eq!(l4.port_destination, Some("1024".to_string()));
}

#[test]
fn portless_protocols_recognized() {
    let payload = {
        let mut p = vec![0u8; 20];
        p[0] = 0x45;
        p[9] = 1; // ICMP
        p[12..16].copy_from_slice(&[10, 0, 0, 1]);
        p[16..20].copy_from_slice(&[10, 0, 0, 2]);
        p.extend_from_slice(&[0u8; 8]);
        p
    };
    let frame = eth_frame([1; 6], [2; 6], 0x0800, &payload);
    let infos = PacketInfos::new(&String::from("eth0"), &frame[..]);
    assert_eq!(infos.layer_3_infos.l_4_protocol, Some("Icmp".to_string()));
    assert_eq!(infos.layer_3_infos.layer_4_infos.port_source, None);
    assert_eq!(infos.layer_3_infos.layer_4_infos.port_destination, None);
}

#[test]
fn ipv6_addresses_formatted() {
    let mut p = vec![0u8; 40];
    p[6] = 17; // next header: UDP
    p[8] = 0xfe;
    p[9] = 0x80;
    p[23] = 0x01; // source fe80::1 (uncompressed rendering)
    p[24..40].copy_from_slice(&[0u8; 16]);
    p[39] = 0x02;
    p.extend_from_slice(&[0x00, 0x35, 0x00, 0x35, 0, 0, 0, 0]);
    let frame = eth_frame([1; 6], [2; 6], 0x86DD, &p);
    let infos = PacketInfos::new(&String::from("eth0"), &frame[..]);
    assert_eq!(infos.l_3_protocol, "Ipv6");
    assert_eq!(infos.layer_3_infos.ip_source, Some("fe80::1".to_string()));
    assert_eq!(infos.layer_3_infos.ip_destination, Some("::2".to_string()));
    assert_eq!(infos.layer_3_infos.l_4_protocol, Some("Udp".to_string()));
    assert_eq!(
        infos.layer_3_infos.layer_4_infos.port_source,
        Some("53".to_string())
    );
}

#[test]
fn ipv6_textual_special_cases() {
    // One 16-byte address per case, rendered as the source address of an
    // IPv6 frame with an ICMPv6 payload.
    let cases: [([u8; 16], &str); 6] = [
        ([0; 16], "::"),
        (
            [0, 0, 0, 0, 0, 0, 0, 0, 0, 0, 0, 0, 0, 0, 0, 1],
            "::1",
        ),
        (
            [0, 0, 0, 0, 0, 0, 0, 0, 0, 0, 0xff, 0xff, 192, 168, 1, 1],
            "::ffff:192.168.1.1",
        ),
        (
            [0, 1, 0, 2, 0, 3, 0, 4, 0, 5, 0, 6, 0, 7, 0, 8],
            "1:2:3:4:5:6:7:8",
        ),
        (
            [0, 1, 0, 0, 0, 3, 0, 4, 0, 5, 0, 6, 0, 7, 0, 8],
            "1:0:3:4:5:6:7:8",
        ),
        (
            [0x20, 0x01, 0x0d, 0xb8, 0, 0, 0, 0, 0, 1, 0, 0, 0, 0, 0, 2],
            "2001:db8::1:0:0:2",
        ),
    ];
    for (addr, expected) in cases {
        let mut p = vec![0u8; 40];
        p[6] = 58; // next header: ICMPv6
        p[8..24].copy_from_slice(&addr);
        let frame = eth_frame([1; 6], [2; 6], 0x86DD, &p);
        let infos = PacketInfos::new(&String::from("eth0"), &frame[..]);
        assert_eq!(infos.layer_3_infos.ip_source, Some(expected.to_string()));
    }
}

#[test]
fn discovery_protocols_have_no_addresses() {
    let frame = eth_frame([1; 6], [2; 6], 0x8863, &[0u8; 30]);
    let infos = PacketInfos::new(&String::from("eth0"), &frame[..]);
    assert_eq!(infos.l_3_protocol, "PppoeDiscovery");
    assert_eq!(infos.layer_3_infos, Layer3Infos::default());

    let frame = eth_frame([1; 6], [2; 6], 0x88CC, &[0u8; 30]);
    let infos = PacketInfos::new(&String::from("eth0"), &frame[..]);
    assert_eq!(infos.l_3_protocol, "Lldp");
    assert_eq!(infos.layer_3_infos, Layer3Infos::default());
}

#[test]
fn display_string_lists_every_field() {
    let payload = ipv4_tcp_payload([192, 168, 1, 1], [192, 168, 1, 2], 443, 51000, 120);
    let frame = eth_frame([1, 2, 3, 4, 5, 6], [10, 11, 12, 13, 14, 15], 0x0800, &payload);
    let infos = PacketInfos::new(&String::from("eth0"), &frame[..]);
    let text = infos.display_string();
    let expected = "MAC Source: 0a:0b:0c:0d:0e:0f\n\
                    MAC Destination: 01:02:03:04:05:06\n\
                    L2 Interface: eth0\n\
                    L3 Protocol: Ipv4\n\
                    IP Source: 192.168.1.1\n\
                    IP Destination: 192.168.1.2\n\
                    Port Destination: 51000\n\
                    Port Source: 443\n\
                    L4 Protocol: Tcp\n\
                    Packet Size: 120 bytes\n";
    assert_eq!(text, expected);
}

#[test]
fn layer_7_is_a_stub() {
    let infos = sonar_core::layer_7_infos::get_layer_7_infos(&[1, 2, 3]);
    let _ = format!("{:?}", infos);
}
