use sniffnet::engine::{capture_action, CaptureAction, Device, Engine};
use sniffnet::traffic::FrameOutcome;
use sniffnet::filters::{AppFilter, Filters, IpVersionFilter, TransportFilter};
use sniffnet::packet::IpAddress;
use sniffnet::runstate::Status;

fn test_device() -> Device {
    Device {
        name: String::from("eth0"),
        description: Some(String::from("test interface")),
        addresses: vec![IpAddress::V4(0x0A000001)],
    }
}

fn ipv4_tcp_frame(src: u32, dst: u32, src_port: u16, dst_port: u16) -> Vec<u8> {
    let mut frame = vec![0u8; 12];
    frame.extend_from_slice(&[0x08, 0x00]);
    frame.push(0x45);
    frame.extend_from_slice(&[0, 0, 0, 0, 0, 0, 0, 64]);
    frame.push(6);
    frame.extend_from_slice(&[0, 0]);
    frame.extend_from_slice(&src.to_be_bytes());
    frame.extend_from_slice(&dst.to_be_bytes());
    frame.extend_from_slice(&src_port.to_be_bytes());
    frame.extend_from_slice(&dst_port.to_be_bytes());
    frame.extend_from_slice(&[0u8; 16]);
    frame
}

#[test]
fn capture_loop_decision_follows_run_state() {
    assert_eq!(capture_action(Status::Init), CaptureAction::Wait);
    assert_eq!(capture_action(Status::Pause), CaptureAction::Wait);
    assert_eq!(capture_action(Status::Running), CaptureAction::Capture);
    assert_eq!(capture_action(Status::Stop), CaptureAction::Terminate);
}

#[test]
fn fresh_engine_is_idle_and_empty() {
    let engine = Engine::new(test_device(), Filters::no_filters());
    assert_eq!(engine.status, Status::Init);
    assert!(!engine.capture_error);
    assert_eq!(engine.traffic.all_packets, 0);
    assert_eq!(engine.device.name, "eth0");
}

#[test]
fn admitted_frame_lands_in_the_snapshot_as_sent() {
    let mut engine = Engine::new(test_device(), Filters::no_filters());
    engine.start();
    let frame = ipv4_tcp_frame(0x0A000001, 0xC0A80002, 49152, 80);
    let outcome = engine.handle_frame(&frame, 42);
    assert_eq!(outcome, FrameOutcome::Admitted);
    let snapshot = engine.read_snapshot();
    assert_eq!(snapshot.all_packets, 1);
    assert_eq!(snapshot.filtered_packets, 1);
    assert_eq!(snapshot.tot_sent_packets, 1);
    assert_eq!(snapshot.tot_received_packets, 0);
    assert_eq!(snapshot.connections.len(), 1);
}

#[test]
fn foreign_source_counts_as_received() {
    let mut engine = Engine::new(test_device(), Filters::no_filters());
    let frame = ipv4_tcp_frame(0xC0A80002, 0x0A000001, 80, 49152);
    assert_eq!(engine.handle_frame(&frame, 42), FrameOutcome::Admitted);
    assert_eq!(engine.traffic.tot_sent_packets, 0);
    assert_eq!(engine.traffic.tot_received_packets, 1);
}

#[test]
fn malformed_frame_counts_only_as_observed() {
    let mut engine = Engine::new(test_device(), Filters::no_filters());
    let outcome = engine.handle_frame(&vec![0u8; 5], 42);
    assert_eq!(outcome, FrameOutcome::Malformed);
    assert_eq!(engine.traffic.all_packets, 1);
    assert_eq!(engine.traffic.filtered_packets, 0);
    assert!(engine.traffic.connections.is_empty());
}

#[test]
fn rejected_frame_counts_only_as_observed() {
    let mut engine = Engine::new(test_device(), Filters::no_filters());
    engine.set_transport_filter(TransportFilter::UdpOnly);
    let frame = ipv4_tcp_frame(0x0A000001, 0xC0A80002, 49152, 80);
    let outcome = engine.handle_frame(&frame, 42);
    assert_eq!(outcome, FrameOutcome::Rejected);
    assert_eq!(engine.traffic.all_packets, 1);
    assert_eq!(engine.traffic.filtered_packets, 0);
    assert!(engine.traffic.connections.is_empty());
}

#[test]
fn filter_setters_replace_one_selector_each() {
    let mut engine = Engine::new(test_device(), Filters::no_filters());
    engine.set_ip_filter(IpVersionFilter::V6Only);
    engine.set_transport_filter(TransportFilter::TcpOnly);
    engine.set_app_filter(AppFilter::Only(
        sniffnet::protocol::AppProtocol::DNS,
    ));
    assert_eq!(engine.filters.ip, IpVersionFilter::V6Only);
    assert_eq!(engine.filters.transport, TransportFilter::TcpOnly);
    assert_eq!(
        engine.filters.application,
        AppFilter::Only(sniffnet::protocol::AppProtocol::DNS)
    );
    assert_eq!(engine.status, Status::Init);
}

#[test]
fn select_device_changes_nothing_else() {
    let mut engine = Engine::new(test_device(), Filters::no_filters());
    engine.start();
    engine.select_device(Device {
        name: String::from("wlan0"),
        description: None,
        addresses: vec![IpAddress::V6(9)],
    });
    assert_eq!(engine.device.name, "wlan0");
    assert_eq!(engine.status, Status::Running);
    assert_eq!(engine.traffic.all_packets, 0);
}

#[test]
fn reset_keeps_run_state_and_filters() {
    let mut engine = Engine::new(test_device(), Filters::no_filters());
    engine.start();
    engine.set_transport_filter(TransportFilter::TcpOnly);
    let frame = ipv4_tcp_frame(0x0A000001, 0xC0A80002, 49152, 80);
    engine.handle_frame(&frame, 42);
    engine.reset();
    assert_eq!(engine.traffic.all_packets, 0);
    assert!(engine.traffic.connections.is_empty());
    assert_eq!(engine.status, Status::Running);
    assert_eq!(engine.filters.transport, TransportFilter::TcpOnly);
}

#[test]
fn stop_is_terminal_and_start_clears_a_capture_error() {
    let mut engine = Engine::new(test_device(), Filters::no_filters());
    engine.record_capture_failure();
    assert!(engine.capture_error);
    engine.stop();
    assert_eq!(engine.status, Status::Stop);
    assert_eq!(capture_action(engine.status), CaptureAction::Terminate);
    engine.start();
    assert!(!engine.capture_error);
    assert_eq!(engine.status, Status::Stop);
}
