//! The capture filter configuration and its admission rule.
//!
//! Three independent selectors — IP version, transport protocol,
//! application protocol — each either names one value or filters
//! nothing.  No invariant couples them: every combination is legal,
//! including ones that match no traffic at all.  A packet is admitted
//! exactly when every active selector matches it.

use vstd::prelude::*;
use crate::packet::PacketHeaders;
use crate::protocol::{AppProtocol, TransProtocol, classify_pair_spec, classify_pair};

verus! {

/// The IP-version selector.
#[derive(Clone, Copy, Debug, PartialEq, Eq, Structural)]
pub enum IpVersionFilter {
    V4Only,
    V6Only,
    NoFilter,
}

/// The transport-protocol selector.
#[derive(Clone, Copy, Debug, PartialEq, Eq, Structural)]
pub enum TransportFilter {
    TcpOnly,
    UdpOnly,
    NoFilter,
}

/// The application-protocol selector.
#[derive(Clone, Copy, Debug, PartialEq, Eq, Structural)]
pub enum AppFilter {
    Only(AppProtocol),
    NoFilter,
}

/// The current capture filter configuration, read on every parsed packet.
#[derive(Clone, Copy, Debug, PartialEq, Eq, Structural)]
pub struct Filters {
    pub ip: IpVersionFilter,
    pub transport: TransportFilter,
    pub application: AppFilter,
}

impl Filters {
    /// The configuration that filters nothing: every packet is admitted.
    pub fn no_filters() -> (r: Filters)
        ensures
            r == (Filters {
                ip: IpVersionFilter::NoFilter,
                transport: TransportFilter::NoFilter,
                application: AppFilter::NoFilter,
            }),
    {
        Filters {
            ip: IpVersionFilter::NoFilter,
            transport: TransportFilter::NoFilter,
            application: AppFilter::NoFilter,
        }
    }

    /// Whether the IP-version selector matches the packet.
    pub open spec fn ip_matches_spec(self, packet: PacketHeaders) -> bool {
        match self.ip {
            IpVersionFilter::V4Only => packet.src.is_v4_spec(),
            IpVersionFilter::V6Only => !packet.src.is_v4_spec(),
            IpVersionFilter::NoFilter => true,
        }
    }

    /// Whether the transport-protocol selector matches the packet.
    pub open spec fn transport_matches_spec(self, packet: PacketHeaders) -> bool {
        match self.transport {
            TransportFilter::TcpOnly => packet.transport == TransProtocol::TCP,
            TransportFilter::UdpOnly => packet.transport == TransProtocol::UDP,
            TransportFilter::NoFilter => true,
        }
    }

    /// Whether the application-protocol selector matches the packet's
    /// resolved label.
    pub open spec fn app_matches_spec(self, packet: PacketHeaders) -> bool {
        match self.application {
            AppFilter::Only(app) => classify_pair_spec(
                packet.transport,
                packet.src_port,
                packet.dst_port,
            ) == app,
            AppFilter::NoFilter => true,
        }
    }

    /// Whether the packet passes every active selector.
    pub open spec fn admits_spec(self, packet: PacketHeaders) -> bool {
        self.ip_matches_spec(packet) && self.transport_matches_spec(packet)
            && self.app_matches_spec(packet)
    }

    /// Evaluates the three selectors against one parsed packet.
    pub fn admits(&self, packet: &PacketHeaders) -> (r: bool)
        ensures
            r == self.admits_spec(*packet),
    {
        let ip_ok = match self.ip {
            IpVersionFilter::V4Only => packet.src.is_v4(),
            IpVersionFilter::V6Only => !packet.src.is_v4(),
            IpVersionFilter::NoFilter => true,
        };
        let transport_ok = match self.transport {
            TransportFilter::TcpOnly => packet.transport == TransProtocol::TCP,
            TransportFilter::UdpOnly => packet.transport == TransProtocol::UDP,
            TransportFilter::NoFilter => true,
        };
        let app_ok = match self.application {
            AppFilter::Only(app) => classify_pair(
                packet.transport,
                packet.src_port,
                packet.dst_port,
            ) == app,
            AppFilter::NoFilter => true,
        };
        ip_ok && transport_ok && app_ok
    }
}

} // verus!
