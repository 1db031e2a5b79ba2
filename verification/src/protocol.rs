//! Transport and application protocols, and the port-based classifier.
//!
//! The classifier is a pure, total function from a transport protocol and
//! a 16-bit port number to an application-protocol label drawn from a
//! closed set of well-known services.  A port that is bound to no listed
//! service yields `Other`.

use vstd::prelude::*;

verus! {

/// Transport-layer protocol of a packet.  `Other` covers every transport
/// besides TCP and UDP; such packets carry no port numbers.
#[derive(Clone, Copy, Debug, PartialEq, Eq, Hash, Structural)]
pub enum TransProtocol {
    TCP,
    UDP,
    Other,
}

/// Application-layer protocol label, inferred from port numbers alone.
#[derive(Clone, Copy, Debug, PartialEq, Eq, Hash, Structural)]
pub enum AppProtocol {
    FTP,
    SSH,
    Telnet,
    SMTP,
    DNS,
    DHCP,
    HTTP,
    POP,
    NTP,
    NetBIOS,
    IMAP,
    SNMP,
    HTTPS,
    SSDP,
    XMPP,
    MDNS,
    Other,
}

/// Number of application-protocol labels, `Other` included.
pub const APP_PROTOCOL_COUNT: usize = 17;

/// Position of a label in the fixed enumeration order; every label,
/// `Other` included, has a distinct index below `APP_PROTOCOL_COUNT`.
pub open spec fn app_index_spec(app: AppProtocol) -> int {
    match app {
        AppProtocol::FTP => 0,
        AppProtocol::SSH => 1,
        AppProtocol::Telnet => 2,
        AppProtocol::SMTP => 3,
        AppProtocol::DNS => 4,
        AppProtocol::DHCP => 5,
        AppProtocol::HTTP => 6,
        AppProtocol::POP => 7,
        AppProtocol::NTP => 8,
        AppProtocol::NetBIOS => 9,
        AppProtocol::IMAP => 10,
        AppProtocol::SNMP => 11,
        AppProtocol::HTTPS => 12,
        AppProtocol::SSDP => 13,
        AppProtocol::XMPP => 14,
        AppProtocol::MDNS => 15,
        AppProtocol::Other => 16,
    }
}

/// The label standing at a given index: inverse of `app_index_spec`.
pub open spec fn app_at_index_spec(i: int) -> AppProtocol {
    if i == 0 { AppProtocol::FTP }
    else if i == 1 { AppProtocol::SSH }
    else if i == 2 { AppProtocol::Telnet }
    else if i == 3 { AppProtocol::SMTP }
    else if i == 4 { AppProtocol::DNS }
    else if i == 5 { AppProtocol::DHCP }
    else if i == 6 { AppProtocol::HTTP }
    else if i == 7 { AppProtocol::POP }
    else if i == 8 { AppProtocol::NTP }
    else if i == 9 { AppProtocol::NetBIOS }
    else if i == 10 { AppProtocol::IMAP }
    else if i == 11 { AppProtocol::SNMP }
    else if i == 12 { AppProtocol::HTTPS }
    else if i == 13 { AppProtocol::SSDP }
    else if i == 14 { AppProtocol::XMPP }
    else if i == 15 { AppProtocol::MDNS }
    else { AppProtocol::Other }
}

pub fn app_index(app: AppProtocol) -> (i: usize)
    ensures
        i == app_index_spec(app),
        i < APP_PROTOCOL_COUNT,
{
    match app {
        AppProtocol::FTP => 0,
        AppProtocol::SSH => 1,
        AppProtocol::Telnet => 2,
        AppProtocol::SMTP => 3,
        AppProtocol::DNS => 4,
        AppProtocol::DHCP => 5,
        AppProtocol::HTTP => 6,
        AppProtocol::POP => 7,
        AppProtocol::NTP => 8,
        AppProtocol::NetBIOS => 9,
        AppProtocol::IMAP => 10,
        AppProtocol::SNMP => 11,
        AppProtocol::HTTPS => 12,
        AppProtocol::SSDP => 13,
        AppProtocol::XMPP => 14,
        AppProtocol::MDNS => 15,
        AppProtocol::Other => 16,
    }
}

pub fn app_at_index(i: usize) -> (app: AppProtocol)
    ensures
        app == app_at_index_spec(i as int),
{
    if i == 0 { AppProtocol::FTP }
    else if i == 1 { AppProtocol::SSH }
    else if i == 2 { AppProtocol::Telnet }
    else if i == 3 { AppProtocol::SMTP }
    else if i == 4 { AppProtocol::DNS }
    else if i == 5 { AppProtocol::DHCP }
    else if i == 6 { AppProtocol::HTTP }
    else if i == 7 { AppProtocol::POP }
    else if i == 8 { AppProtocol::NTP }
    else if i == 9 { AppProtocol::NetBIOS }
    else if i == 10 { AppProtocol::IMAP }
    else if i == 11 { AppProtocol::SNMP }
    else if i == 12 { AppProtocol::HTTPS }
    else if i == 13 { AppProtocol::SSDP }
    else if i == 14 { AppProtocol::XMPP }
    else if i == 15 { AppProtocol::MDNS }
    else { AppProtocol::Other }
}

/// The classifier's table: which label a well-known port resolves to.
/// The same table serves TCP and UDP; a transport besides the two carries
/// no ports, and its packets always resolve to `Other`.
pub open spec fn classify_spec(transport: TransProtocol, port: u16) -> AppProtocol {
    if transport == TransProtocol::Other {
        AppProtocol::Other
    } else if port == 20 || port == 21 {
        AppProtocol::FTP
    } else if port == 22 {
        AppProtocol::SSH
    } else if port == 23 {
        AppProtocol::Telnet
    } else if port == 25 || port == 587 {
        AppProtocol::SMTP
    } else if port == 53 {
        AppProtocol::DNS
    } else if port == 67 || port == 68 {
        AppProtocol::DHCP
    } else if port == 80 || port == 8080 {
        AppProtocol::HTTP
    } else if port == 110 {
        AppProtocol::POP
    } else if port == 123 {
        AppProtocol::NTP
    } else if port == 137 || port == 138 || port == 139 {
        AppProtocol::NetBIOS
    } else if port == 143 {
        AppProtocol::IMAP
    } else if port == 161 || port == 162 {
        AppProtocol::SNMP
    } else if port == 443 {
        AppProtocol::HTTPS
    } else if port == 1900 {
        AppProtocol::SSDP
    } else if port == 5222 {
        AppProtocol::XMPP
    } else if port == 5353 {
        AppProtocol::MDNS
    } else {
        AppProtocol::Other
    }
}

/// Classifies one port.  Total and deterministic: the result is a function
/// of the transport and the port alone, pinned by `classify_spec`.
pub fn classify(transport: TransProtocol, port: u16) -> (app: AppProtocol)
    ensures
        app == classify_spec(transport, port),
{
    if transport == TransProtocol::Other {
        AppProtocol::Other
    } else if port == 20 || port == 21 {
        AppProtocol::FTP
    } else if port == 22 {
        AppProtocol::SSH
    } else if port == 23 {
        AppProtocol::Telnet
    } else if port == 25 || port == 587 {
        AppProtocol::SMTP
    } else if port == 53 {
        AppProtocol::DNS
    } else if port == 67 || port == 68 {
        AppProtocol::DHCP
    } else if port == 80 || port == 8080 {
        AppProtocol::HTTP
    } else if port == 110 {
        AppProtocol::POP
    } else if port == 123 {
        AppProtocol::NTP
    } else if port == 137 || port == 138 || port == 139 {
        AppProtocol::NetBIOS
    } else if port == 143 {
        AppProtocol::IMAP
    } else if port == 161 || port == 162 {
        AppProtocol::SNMP
    } else if port == 443 {
        AppProtocol::HTTPS
    } else if port == 1900 {
        AppProtocol::SSDP
    } else if port == 5222 {
        AppProtocol::XMPP
    } else if port == 5353 {
        AppProtocol::MDNS
    } else {
        AppProtocol::Other
    }
}

/// A packet's label from its two ports: a well-known service answers on
/// either side of a connection, so a non-`Other` match on the source port
/// wins, then one on the destination port.
pub open spec fn classify_pair_spec(
    transport: TransProtocol,
    src_port: u16,
    dst_port: u16,
) -> AppProtocol {
    if classify_spec(transport, src_port) != AppProtocol::Other {
        classify_spec(transport, src_port)
    } else {
        classify_spec(transport, dst_port)
    }
}

pub fn classify_pair(transport: TransProtocol, src_port: u16, dst_port: u16) -> (app: AppProtocol)
    ensures
        app == classify_pair_spec(transport, src_port, dst_port),
{
    let from_src = classify(transport, src_port);
    if from_src != AppProtocol::Other {
        from_src
    } else {
        classify(transport, dst_port)
    }
}

/// The classifier is total and deterministic: two classifications of one
/// and the same (transport, port) pair agree, whenever they are made.
pub proof fn lemma_classifier_deterministic(
    transport: TransProtocol,
    port: u16,
    first: AppProtocol,
    second: AppProtocol,
)
    requires
        first == classify_spec(transport, port),
        second == classify_spec(transport, port),
    ensures
        first == second,
{
}

} // verus!
