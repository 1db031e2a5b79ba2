//! Raw-frame parsing: Ethernet II, IPv4/IPv6, TCP/UDP headers.
//!
//! A frame either parses to the `PacketHeaders` the engine aggregates on,
//! or it does not parse at all; an unparseable frame is dropped by the
//! caller, counted but never fatal.  A recognized IP packet whose
//! transport is neither TCP nor UDP is not an error: it is tagged with
//! transport `Other` and zero ports.  `parse_frame_spec` pins the whole
//! byte-level format; `parse_frame` is proved to compute exactly it.

use vstd::prelude::*;
use crate::protocol::TransProtocol;

verus! {

/// A network-layer address, held as the big-endian integer its header
/// bytes spell.
#[derive(Clone, Copy, Debug, PartialEq, Eq, Hash, Structural)]
pub enum IpAddress {
    V4(u32),
    V6(u128),
}

impl IpAddress {
    /// Whether this is an IPv4 address.
    pub open spec fn is_v4_spec(self) -> bool {
        matches!(self, IpAddress::V4(_))
    }

    pub fn is_v4(&self) -> (r: bool)
        ensures
            r == self.is_v4_spec(),
    {
        matches!(self, IpAddress::V4(_))
    }
}

/// What the capture loop reads out of one raw frame: the flow endpoints
/// and the transport protocol.  Ports are zero when the transport is
/// neither TCP nor UDP.
#[derive(Clone, Copy, Debug, PartialEq, Eq, Hash, Structural)]
pub struct PacketHeaders {
    pub src: IpAddress,
    pub dst: IpAddress,
    pub src_port: u16,
    pub dst_port: u16,
    pub transport: TransProtocol,
}

/// Two header bytes read big-endian.
pub open spec fn be16_spec(s: Seq<u8>, i: int) -> u16 {
    ((s[i] as int) * 0x100 + (s[i + 1] as int)) as u16
}

/// Four header bytes read big-endian.
pub open spec fn be32_spec(s: Seq<u8>, i: int) -> u32 {
    ((s[i] as int) * 0x1000000 + (s[i + 1] as int) * 0x10000 + (s[i + 2] as int) * 0x100 + (
    s[i + 3] as int)) as u32
}

/// Sixteen header bytes read big-endian: an IPv6 address.
pub open spec fn be128_spec(s: Seq<u8>, i: int) -> u128 {
    ((be32_spec(s, i) as int) * 0x1000000000000000000000000 + (be32_spec(s, i + 4) as int)
        * 0x10000000000000000 + (be32_spec(s, i + 8) as int) * 0x100000000 + (be32_spec(
        s,
        i + 12,
    ) as int)) as u128
}

/// The IPv4 header beginning at offset `o`: on success, the source and
/// destination addresses, the transport protocol number, and the offset
/// of the transport header, past the variable-length option words.
pub open spec fn parse_ipv4_spec(s: Seq<u8>, o: int) -> Option<(IpAddress, IpAddress, u8, int)> {
    if o + 20 <= s.len() && s[o] / 16 == 4 && s[o] % 16 >= 5 && o + (s[o] % 16) * 4 <= s.len() {
        Some(
            (
                IpAddress::V4(be32_spec(s, o + 12)),
                IpAddress::V4(be32_spec(s, o + 16)),
                s[o + 9],
                o + (s[o] % 16) * 4,
            ),
        )
    } else {
        None
    }
}

/// The fixed 40-byte IPv6 header beginning at offset `o`: on success, the
/// addresses, the next-header number, and the offset of the transport
/// header.  Extension headers are not walked: a packet carrying one is
/// tagged by its first next-header number, like any transport besides
/// TCP and UDP.
pub open spec fn parse_ipv6_spec(s: Seq<u8>, o: int) -> Option<(IpAddress, IpAddress, u8, int)> {
    if o + 40 <= s.len() && s[o] / 16 == 6 {
        Some(
            (
                IpAddress::V6(be128_spec(s, o + 8)),
                IpAddress::V6(be128_spec(s, o + 24)),
                s[o + 6],
                o + 40,
            ),
        )
    } else {
        None
    }
}

/// The transport header beginning at offset `o`, given the IP protocol
/// number: TCP (6) and UDP (17) yield their port pair and must fit their
/// minimum header length; every other number is a valid packet with
/// transport `Other` and zero ports.
pub open spec fn parse_transport_spec(s: Seq<u8>, o: int, proto: u8) -> Option<
    (TransProtocol, u16, u16),
> {
    if proto == 6 {
        if o + 20 <= s.len() {
            Some((TransProtocol::TCP, be16_spec(s, o), be16_spec(s, o + 2)))
        } else {
            None
        }
    } else if proto == 17 {
        if o + 8 <= s.len() {
            Some((TransProtocol::UDP, be16_spec(s, o), be16_spec(s, o + 2)))
        } else {
            None
        }
    } else {
        Some((TransProtocol::Other, 0, 0))
    }
}

/// The whole frame: an Ethernet II header whose EtherType announces IPv4
/// or IPv6, the IP header, then the transport header.  Any other frame
/// does not parse.
pub open spec fn parse_frame_spec(s: Seq<u8>) -> Option<PacketHeaders> {
    if s.len() < 14 {
        None
    } else {
        let net = if be16_spec(s, 12) == 0x0800 {
            parse_ipv4_spec(s, 14)
        } else if be16_spec(s, 12) == 0x86DD {
            parse_ipv6_spec(s, 14)
        } else {
            None
        };
        match net {
            None => None,
            Some((src, dst, proto, t)) => match parse_transport_spec(s, t, proto) {
                None => None,
                Some((transport, src_port, dst_port)) => Some(
                    PacketHeaders { src, dst, src_port, dst_port, transport },
                ),
            },
        }
    }
}

fn read_be16(frame: &Vec<u8>, i: usize) -> (r: u16)
    requires
        i + 2 <= frame@.len(),
    ensures
        r == be16_spec(frame@, i as int),
{
    let n = frame.len();
    (frame[i] as u16) * 0x100 + (frame[i + 1] as u16)
}

fn read_be32(frame: &Vec<u8>, i: usize) -> (r: u32)
    requires
        i + 4 <= frame@.len(),
    ensures
        r == be32_spec(frame@, i as int),
{
    let n = frame.len();
    (frame[i] as u32) * 0x1000000 + (frame[i + 1] as u32) * 0x10000 + (frame[i + 2] as u32) * 0x100
        + (frame[i + 3] as u32)
}

fn read_be128(frame: &Vec<u8>, i: usize) -> (r: u128)
    requires
        i + 16 <= frame@.len(),
    ensures
        r == be128_spec(frame@, i as int),
{
    let n = frame.len();
    (read_be32(frame, i) as u128) * 0x1000000000000000000000000 + (read_be32(
        frame,
        i + 4,
    ) as u128) * 0x10000000000000000 + (read_be32(frame, i + 8) as u128) * 0x100000000 + (
    read_be32(frame, i + 12) as u128)
}

/// Parses one raw link-layer frame.  `None` is a malformed frame, to be
/// dropped by the caller; the result is pinned by `parse_frame_spec`.
pub fn parse_frame(frame: &Vec<u8>) -> (r: Option<PacketHeaders>)
    ensures
        r == parse_frame_spec(frame@),
{
    if frame.len() < 14 {
        return None;
    }
    let ethertype = read_be16(frame, 12);
    let net: Option<(IpAddress, IpAddress, u8, usize)> = if ethertype == 0x0800 {
        parse_ipv4(frame, 14)
    } else if ethertype == 0x86DD {
        parse_ipv6(frame, 14)
    } else {
        None
    };
    match net {
        None => None,
        Some((src, dst, proto, t)) => match parse_transport(frame, t, proto) {
            None => None,
            Some((transport, src_port, dst_port)) => Some(
                PacketHeaders { src, dst, src_port, dst_port, transport },
            ),
        },
    }
}

fn parse_ipv4(frame: &Vec<u8>, o: usize) -> (r: Option<(IpAddress, IpAddress, u8, usize)>)
    requires
        o <= 14,
    ensures
        r matches Some((src, dst, proto, t)) ==> parse_ipv4_spec(frame@, o as int) == Some(
            (src, dst, proto, t as int),
        ),
        r is None ==> parse_ipv4_spec(frame@, o as int) is None,
{
    if o + 20 > frame.len() {
        return None;
    }
    let first = frame[o];
    if first / 16 != 4 || first % 16 < 5 {
        return None;
    }
    let header_len: usize = (first % 16) as usize * 4;
    if o + header_len > frame.len() {
        return None;
    }
    Some(
        (
            IpAddress::V4(read_be32(frame, o + 12)),
            IpAddress::V4(read_be32(frame, o + 16)),
            frame[o + 9],
            o + header_len,
        ),
    )
}

fn parse_ipv6(frame: &Vec<u8>, o: usize) -> (r: Option<(IpAddress, IpAddress, u8, usize)>)
    requires
        o <= 14,
    ensures
        r matches Some((src, dst, proto, t)) ==> parse_ipv6_spec(frame@, o as int) == Some(
            (src, dst, proto, t as int),
        ),
        r is None ==> parse_ipv6_spec(frame@, o as int) is None,
{
    if o + 40 > frame.len() {
        return None;
    }
    if frame[o] / 16 != 6 {
        return None;
    }
    Some(
        (
            IpAddress::V6(read_be128(frame, o + 8)),
            IpAddress::V6(read_be128(frame, o + 24)),
            frame[o + 6],
            o + 40,
        ),
    )
}

fn parse_transport(frame: &Vec<u8>, o: usize, proto: u8) -> (r: Option<(TransProtocol, u16, u16)>)
    requires
        o <= frame@.len(),
    ensures
        r == parse_transport_spec(frame@, o as int, proto),
{
    let n = frame.len();
    if proto == 6 {
        if n - o >= 20 {
            Some((TransProtocol::TCP, read_be16(frame, o), read_be16(frame, o + 2)))
        } else {
            None
        }
    } else if proto == 17 {
        if n - o >= 8 {
            Some((TransProtocol::UDP, read_be16(frame, o), read_be16(frame, o + 2)))
        } else {
            None
        }
    } else {
        Some((TransProtocol::Other, 0, 0))
    }
}

} // verus!
