use sonar_core::export::{MyError, PacketInfosCsv};
use sonar_core::graph::GraphBuilder;
use sonar_core::layer_2_infos::PacketInfos;
use sonar_core::state::{update_state_with_packet, SonarState};

#[test]
fn test_update_state_with_packet() {
    let mut state = SonarState::new();
    let buffer = vec![0u8; 64]; // Local buffer
    let packet = PacketInfos::new(&String::from("eth0"), &buffer[..]);

    // Add a packet to the state and verify it
    update_state_with_packet(&mut state, packet.clone());
    assert_eq!(state.len(), 1);

    // Add the same packet again and verify that the count is incremented
    update_state_with_packet(&mut state, packet.clone());
    assert_eq!(state.len(), 1);
    assert_eq!(state.snapshot()[0].hit_count, 2);

    // Add a different packet and verify that it's added as a new entry
    let different_packet = PacketInfos::new(&String::from("eth2"), &buffer[..]);
    update_state_with_packet(&mut state, different_packet.clone());
    assert_eq!(state.len(), 2);
}

fn sample_packet(interface: &str) -> PacketInfos {
    let mut frame = vec![0u8; 14];
    frame[12] = 0x08; // IPv4
    let mut ip = vec![0u8; 20];
    ip[0] = 0x45;
    ip[9] = 6;
    ip[12..16].copy_from_slice(&[192, 168, 1, 1]);
    ip[16..20].copy_from_slice(&[192, 168, 1, 2]);
    frame.extend_from_slice(&ip);
    frame.extend_from_slice(&[0u8; 20]); // TCP header
    frame.extend_from_slice(&[0u8; 66]); // padding: 120 bytes in all
    PacketInfos::new(&String::from(interface), &frame[..])
}

#[test]
fn merging_same_record_n_times_counts_n() {
    let mut state = SonarState::new();
    let packet = sample_packet("eth0");
    assert_eq!(packet.packet_size, 120);
    for _ in 0..5 {
        state.push_to_vector(packet.clone());
    }
    assert_eq!(state.len(), 1);
    let snap = state.snapshot();
    assert_eq!(snap[0].hit_count, 5);
    assert_eq!(snap[0].cumulative_bytes, 5 * 120);
    assert_eq!(snap[0].representative.packet_size, 120);
}

#[test]
fn merging_twice_accumulates_bytes() {
    let mut state = SonarState::new();
    let packet = sample_packet("eth0");
    state.push_to_vector(packet.clone());
    state.push_to_vector(packet.clone());
    let snap = state.snapshot();
    assert_eq!(snap.len(), 1);
    assert_eq!(snap[0].hit_count, 2);
    assert_eq!(snap[0].cumulative_bytes, 240);
}

#[test]
fn interface_discriminates_flows() {
    let mut state = SonarState::new();
    state.push_to_vector(sample_packet("eth0"));
    state.push_to_vector(sample_packet("eth1"));
    assert_eq!(state.len(), 2);
    let snap = state.snapshot();
    assert_eq!(snap[0].representative.interface, "eth0");
    assert_eq!(snap[1].representative.interface, "eth1");
    assert_eq!(snap[0].hit_count, 1);
    assert_eq!(snap[1].hit_count, 1);
}

#[test]
fn snapshot_is_independent_and_reset_clears() {
    let mut state = SonarState::new();
    state.push_to_vector(sample_packet("eth0"));
    let snap = state.snapshot();
    state.push_to_vector(sample_packet("eth0"));
    assert_eq!(snap[0].hit_count, 1); // the snapshot did not move
    assert_eq!(state.snapshot()[0].hit_count, 2);
    state.reset();
    assert_eq!(state.len(), 0);
}

#[test]
fn graph_builder_deduplicates_nodes() {
    let mut builder = GraphBuilder::new();
    builder.add_edge(
        String::from("aa:aa:aa:aa:aa:aa"),
        String::from("bb:bb:bb:bb:bb:bb"),
        String::from("Ipv4"),
    );
    builder.add_edge(
        String::from("bb:bb:bb:bb:bb:bb"),
        String::from("aa:aa:aa:aa:aa:aa"),
        String::from("Arp"),
    );
    let data = builder.build_graph_data();
    assert_eq!(data.nodes.len(), 2);
    assert_eq!(data.edges.len(), 2);
    assert_eq!(data.nodes[0].name, "aa:aa:aa:aa:aa:aa");
    assert_eq!(data.edges[0].label, "Ipv4");
    assert_eq!(data.edges[1].source, "bb:bb:bb:bb:bb:bb");
}

#[test]
fn build_graph_covers_every_flow() {
    let mut state = SonarState::new();
    state.push_to_vector(sample_packet("eth0"));
    state.push_to_vector(sample_packet("eth1"));
    let data = sonar_core::graph::build_graph(&state);
    // Two flows, one edge each; both endpoints carry the all-zero hardware
    // address, so a single node stands for them.
    assert_eq!(data.edges.len(), 2);
    assert_eq!(data.nodes.len(), 1);
    assert_eq!(data.nodes[0].name, "00:00:00:00:00:00");
    assert_eq!(data.edges[0].label, "Ipv4");
}

#[test]
fn csv_row_carries_every_field() {
    let packet = sample_packet("eth0");
    let row = PacketInfosCsv::from_packet_infos(&packet, 3);
    assert_eq!(row.mac_address_source, packet.mac_address_source);
    assert_eq!(row.interface, "eth0");
    assert_eq!(row.l_3_protocol, "Ipv4");
    assert_eq!(row.ip_source, Some("192.168.1.1".to_string()));
    assert_eq!(row.ip_destination, Some("192.168.1.2".to_string()));
    assert_eq!(row.l_4_protocol, Some("Tcp".to_string()));
    assert_eq!(row.port_source, Some("0".to_string()));
    assert_eq!(row.port_destination, Some("0".to_string()));
    assert_eq!(row.packet_size, 120);
    assert_eq!(row.count, 3);
}

#[test]
fn error_messages_name_their_kind() {
    assert_eq!(
        MyError::IoError(String::from("x")).message(),
        "Erreur d'E/S : x"
    );
    assert_eq!(
        MyError::CsvError(String::from("y")).message(),
        "Erreur CSV : y"
    );
    assert_eq!(
        MyError::Utf8Error(String::from("z")).message(),
        "Erreur de conversion UTF-8 : z"
    );
    assert_eq!(
        MyError::XlsxError(String::from("w")).message(),
        "Erreur Excel : w"
    );
}
