use sniffnet::packet::{parse_frame, IpAddress};
use sniffnet::protocol::TransProtocol;

fn ethernet_header(ethertype: u16) -> Vec<u8> {
    let mut frame = vec![0u8; 12];
    frame.push((ethertype >> 8) as u8);
    frame.push((ethertype & 0xFF) as u8);
    frame
}

fn ipv4_tcp_frame(src: u32, dst: u32, src_port: u16, dst_port: u16) -> Vec<u8> {
    let mut frame = ethernet_header(0x0800);
    frame.push(0x45); // version 4, header length 5 words
    frame.extend_from_slice(&[0, 0, 0, 0, 0, 0, 0, 64]);
    frame.push(6); // TCP
    frame.extend_from_slice(&[0, 0]);
    frame.extend_from_slice(&src.to_be_bytes());
    frame.extend_from_slice(&dst.to_be_bytes());
    frame.extend_from_slice(&src_port.to_be_bytes());
    frame.extend_from_slice(&dst_port.to_be_bytes());
    frame.extend_from_slice(&[0u8; 16]); // rest of the 20-byte TCP header
    frame
}

fn ipv6_udp_frame(src: u128, dst: u128, src_port: u16, dst_port: u16) -> Vec<u8> {
    let mut frame = ethernet_header(0x86DD);
    frame.push(0x60); // version 6
    frame.extend_from_slice(&[0, 0, 0, 0, 0]);
    frame.push(17); // UDP
    frame.push(64); // hop limit
    frame.extend_from_slice(&src.to_be_bytes());
    frame.extend_from_slice(&dst.to_be_bytes());
    frame.extend_from_slice(&src_port.to_be_bytes());
    frame.extend_from_slice(&dst_port.to_be_bytes());
    frame.extend_from_slice(&[0, 8, 0, 0]); // length and checksum
    frame
}

#[test]
fn parses_ipv4_tcp() {
    let frame = ipv4_tcp_frame(0x0A000001, 0xC0A80002, 49152, 80);
    let packet = parse_frame(&frame).expect("well-formed frame");
    assert_eq!(packet.src, IpAddress::V4(0x0A000001));
    assert_eq!(packet.dst, IpAddress::V4(0xC0A80002));
    assert_eq!(packet.src_port, 49152);
    assert_eq!(packet.dst_port, 80);
    assert_eq!(packet.transport, TransProtocol::TCP);
}

#[test]
fn parses_ipv6_udp() {
    let frame = ipv6_udp_frame(1, 2, 5353, 5353);
    let packet = parse_frame(&frame).expect("well-formed frame");
    assert_eq!(packet.src, IpAddress::V6(1));
    assert_eq!(packet.dst, IpAddress::V6(2));
    assert_eq!(packet.src_port, 5353);
    assert_eq!(packet.dst_port, 5353);
    assert_eq!(packet.transport, TransProtocol::UDP);
}

#[test]
fn parses_ipv4_with_option_words() {
    let mut frame = ethernet_header(0x0800);
    frame.push(0x46); // header length 6 words: one option word
    frame.extend_from_slice(&[0, 0, 0, 0, 0, 0, 0, 64]);
    frame.push(17); // UDP
    frame.extend_from_slice(&[0, 0]);
    frame.extend_from_slice(&0x7F000001u32.to_be_bytes());
    frame.extend_from_slice(&0x7F000002u32.to_be_bytes());
    frame.extend_from_slice(&[0, 0, 0, 0]); // the option word
    frame.extend_from_slice(&53u16.to_be_bytes());
    frame.extend_from_slice(&4000u16.to_be_bytes());
    frame.extend_from_slice(&[0, 8, 0, 0]);
    let packet = parse_frame(&frame).expect("well-formed frame");
    assert_eq!(packet.src_port, 53);
    assert_eq!(packet.dst_port, 4000);
    assert_eq!(packet.transport, TransProtocol::UDP);
}

#[test]
fn unknown_transport_is_tagged_other_with_zero_ports() {
    let mut frame = ethernet_header(0x0800);
    frame.push(0x45);
    frame.extend_from_slice(&[0, 0, 0, 0, 0, 0, 0, 64]);
    frame.push(1); // ICMP
    frame.extend_from_slice(&[0, 0]);
    frame.extend_from_slice(&0x0A000001u32.to_be_bytes());
    frame.extend_from_slice(&0x0A000002u32.to_be_bytes());
    let packet = parse_frame(&frame).expect("valid packet despite unsupported transport");
    assert_eq!(packet.transport, TransProtocol::Other);
    assert_eq!(packet.src_port, 0);
    assert_eq!(packet.dst_port, 0);
}

#[test]
fn short_frame_is_malformed() {
    assert!(parse_frame(&vec![0u8; 13]).is_none());
    assert!(parse_frame(&Vec::new()).is_none());
}

#[test]
fn non_ip_ethertype_is_malformed() {
    let mut frame = ethernet_header(0x0806); // ARP
    frame.extend_from_slice(&[0u8; 28]);
    assert!(parse_frame(&frame).is_none());
}

#[test]
fn truncated_transport_header_is_malformed() {
    let mut frame = ipv4_tcp_frame(1, 2, 80, 80);
    frame.truncate(frame.len() - 1); // one byte short of the TCP header
    assert!(parse_frame(&frame).is_none());
}

#[test]
fn bad_ip_version_is_malformed() {
    let mut frame = ethernet_header(0x0800);
    frame.push(0x55); // claims version 5
    frame.extend_from_slice(&[0u8; 19]);
    frame.extend_from_slice(&[0u8; 20]);
    assert!(parse_frame(&frame).is_none());
}
