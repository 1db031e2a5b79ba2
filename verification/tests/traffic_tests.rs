use sniffnet::filters::{AppFilter, Filters, IpVersionFilter, TransportFilter};
use sniffnet::packet::{IpAddress, PacketHeaders};
use sniffnet::protocol::{AppProtocol, TransProtocol, APP_PROTOCOL_COUNT};
use sniffnet::traffic::{classify_direction, Direction, TrafficSnapshot};

fn http_packet() -> PacketHeaders {
    PacketHeaders {
        src: IpAddress::V4(0x0A000001),
        dst: IpAddress::V4(0xC0A80002),
        src_port: 49152,
        dst_port: 80,
        transport: TransProtocol::TCP,
    }
}

fn dns_packet() -> PacketHeaders {
    PacketHeaders {
        src: IpAddress::V6(7),
        dst: IpAddress::V6(8),
        src_port: 5000,
        dst_port: 53,
        transport: TransProtocol::UDP,
    }
}

#[test]
fn new_snapshot_is_all_zero() {
    let s = TrafficSnapshot::new();
    assert_eq!(s.all_packets, 0);
    assert_eq!(s.filtered_packets, 0);
    assert_eq!(s.tot_sent_packets, 0);
    assert_eq!(s.tot_received_packets, 0);
    assert!(s.connections.is_empty());
    assert_eq!(s.app_protocols, vec![0u64; APP_PROTOCOL_COUNT]);
}

#[test]
fn admitted_packet_moves_every_counter() {
    let mut s = TrafficSnapshot::new();
    let admitted = s.process_packet(
        &Filters::no_filters(),
        &http_packet(),
        60,
        Direction::Sent,
        1000,
    );
    assert!(admitted);
    assert_eq!(s.all_packets, 1);
    assert_eq!(s.filtered_packets, 1);
    assert_eq!(s.tot_sent_packets, 1);
    assert_eq!(s.tot_received_packets, 0);
    assert_eq!(s.connections.len(), 1);
    let (key, info) = &s.connections[0];
    assert_eq!(key.src, IpAddress::V4(0x0A000001));
    assert_eq!(key.dst_port, 80);
    assert_eq!(info.bytes, 60);
    assert_eq!(info.packets, 1);
    assert_eq!(info.sent_packets, 1);
    assert_eq!(info.received_packets, 0);
    assert_eq!(info.first_seen, 1000);
    assert_eq!(info.last_seen, 1000);
    assert_eq!(info.app, AppProtocol::HTTP);
}

#[test]
fn same_flow_updates_its_entry_in_place() {
    let mut s = TrafficSnapshot::new();
    let filters = Filters::no_filters();
    s.process_packet(&filters, &http_packet(), 60, Direction::Sent, 1000);
    s.process_packet(&filters, &http_packet(), 40, Direction::Received, 1005);
    assert_eq!(s.connections.len(), 1);
    let info = &s.connections[0].1;
    assert_eq!(info.bytes, 100);
    assert_eq!(info.packets, 2);
    assert_eq!(info.sent_packets, 1);
    assert_eq!(info.received_packets, 1);
    assert_eq!(info.first_seen, 1000);
    assert_eq!(info.last_seen, 1005);
}

#[test]
fn reversed_direction_is_a_distinct_flow() {
    let mut s = TrafficSnapshot::new();
    let filters = Filters::no_filters();
    let forward = http_packet();
    let backward = PacketHeaders {
        src: forward.dst,
        dst: forward.src,
        src_port: forward.dst_port,
        dst_port: forward.src_port,
        transport: forward.transport,
    };
    s.process_packet(&filters, &forward, 60, Direction::Sent, 1);
    s.process_packet(&filters, &backward, 60, Direction::Received, 2);
    assert_eq!(s.connections.len(), 2);
}

#[test]
fn rejected_packet_only_counts_as_observed() {
    let mut s = TrafficSnapshot::new();
    let udp_only = Filters {
        ip: IpVersionFilter::NoFilter,
        transport: TransportFilter::UdpOnly,
        application: AppFilter::NoFilter,
    };
    let admitted = s.process_packet(&udp_only, &http_packet(), 60, Direction::Sent, 1000);
    assert!(!admitted);
    assert_eq!(s.all_packets, 1);
    assert_eq!(s.filtered_packets, 0);
    assert_eq!(s.tot_sent_packets, 0);
    assert_eq!(s.tot_received_packets, 0);
    assert!(s.connections.is_empty());
    assert_eq!(s.app_protocols, vec![0u64; APP_PROTOCOL_COUNT]);
}

#[test]
fn admitted_total_equals_sum_of_label_counts() {
    let mut s = TrafficSnapshot::new();
    let filters = Filters::no_filters();
    for i in 0..5u64 {
        s.process_packet(&filters, &http_packet(), 60, Direction::Sent, i);
        s.process_packet(&filters, &dns_packet(), 80, Direction::Received, i);
    }
    let mut p = dns_packet();
    p.dst_port = 9999; // resolves to Other
    s.process_packet(&filters, &p, 80, Direction::Received, 99);
    let label_sum: u64 = s.app_protocols.iter().sum();
    assert_eq!(s.filtered_packets, 11);
    assert_eq!(label_sum, s.filtered_packets);
}

#[test]
fn ip_version_filter_rejects_the_other_version() {
    let v4_only = Filters {
        ip: IpVersionFilter::V4Only,
        transport: TransportFilter::NoFilter,
        application: AppFilter::NoFilter,
    };
    assert!(v4_only.admits(&http_packet()));
    assert!(!v4_only.admits(&dns_packet()));
    let v6_only = Filters {
        ip: IpVersionFilter::V6Only,
        ..v4_only
    };
    assert!(!v6_only.admits(&http_packet()));
    assert!(v6_only.admits(&dns_packet()));
}

#[test]
fn app_filter_matches_the_resolved_label() {
    let dns_only = Filters {
        ip: IpVersionFilter::NoFilter,
        transport: TransportFilter::NoFilter,
        application: AppFilter::Only(AppProtocol::DNS),
    };
    assert!(dns_only.admits(&dns_packet()));
    assert!(!dns_only.admits(&http_packet()));
}

#[test]
fn reset_then_read_snapshot_is_all_zero() {
    let mut s = TrafficSnapshot::new();
    let filters = Filters::no_filters();
    for i in 0..3u64 {
        s.process_packet(&filters, &http_packet(), 60, Direction::Sent, i);
    }
    assert_ne!(s.filtered_packets, 0);
    s.reset();
    let copy = s.read_snapshot();
    assert_eq!(copy.all_packets, 0);
    assert_eq!(copy.filtered_packets, 0);
    assert_eq!(copy.tot_sent_packets, 0);
    assert_eq!(copy.tot_received_packets, 0);
    assert!(copy.connections.is_empty());
    assert_eq!(copy.app_protocols, vec![0u64; APP_PROTOCOL_COUNT]);
}

#[test]
fn read_snapshot_is_a_faithful_copy() {
    let mut s = TrafficSnapshot::new();
    let filters = Filters::no_filters();
    s.process_packet(&filters, &http_packet(), 60, Direction::Sent, 1);
    s.process_packet(&filters, &dns_packet(), 80, Direction::Received, 2);
    let copy = s.read_snapshot();
    assert_eq!(copy.all_packets, s.all_packets);
    assert_eq!(copy.filtered_packets, s.filtered_packets);
    assert_eq!(copy.connections, s.connections);
    assert_eq!(copy.app_protocols, s.app_protocols);
}

#[test]
fn direction_is_sent_only_from_a_local_address() {
    let local = vec![IpAddress::V4(0x0A000001), IpAddress::V6(7)];
    assert_eq!(
        classify_direction(&IpAddress::V4(0x0A000001), &local),
        Direction::Sent
    );
    assert_eq!(
        classify_direction(&IpAddress::V6(7), &local),
        Direction::Sent
    );
    assert_eq!(
        classify_direction(&IpAddress::V4(0x0A000002), &local),
        Direction::Received
    );
    assert_eq!(
        classify_direction(&IpAddress::V4(0x0A000001), &Vec::new()),
        Direction::Received
    );
}
