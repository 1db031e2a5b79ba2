//! The traffic model: per-connection and global aggregate counters.
//!
//! `TrafficSnapshot` is the one jointly owned aggregate: the capture loop
//! is the sole writer of increments, a full reset is the only other
//! mutation, and readers take a whole consistent copy.  The guard that
//! serializes those accesses belongs to the embedding process; every
//! mutation here is a single call, so whatever runs it under one
//! exclusive-access critical section gets the atomicity the model asks
//! for.
//!
//! Connection keys are directional: the two directions of one logical
//! connection are tracked as two entries, each key built from the
//! packet's addresses and ports in capture order.  This is a deliberate
//! choice, not canonicalized, so that a flow's transmit and receive
//! sides stay distinguishable.

use vstd::prelude::*;
use vstd::pervasive::VecAdditionalExecFns;
use crate::filters::Filters;
use crate::packet::{IpAddress, PacketHeaders, parse_frame, parse_frame_spec};
use crate::protocol::{
    APP_PROTOCOL_COUNT,
    AppProtocol,
    TransProtocol,
    app_index,
    app_index_spec,
    classify_pair,
    classify_pair_spec,
};

verus! {

/// Which way an admitted packet went, relative to the local host.
#[derive(Clone, Copy, Debug, PartialEq, Eq, Structural)]
pub enum Direction {
    Sent,
    Received,
}

/// The direction of a packet whose source address is, or is not, one of
/// the local addresses of the capture device.
pub open spec fn direction_of_spec(src: IpAddress, local: Seq<IpAddress>) -> Direction {
    if local.contains(src) {
        Direction::Sent
    } else {
        Direction::Received
    }
}

/// Classifies a packet as sent or received: sent exactly when its source
/// address is one of the device's bound addresses.
pub fn classify_direction(src: &IpAddress, local: &Vec<IpAddress>) -> (d: Direction)
    ensures
        d == direction_of_spec(*src, local@),
{
    let n = local.len();
    for i in 0..n
        invariant
            n == local@.len(),
            forall|j: int| 0 <= j < i ==> local@[j] != *src,
    {
        if local[i] == *src {
            assert(local@.contains(*src));
            return Direction::Sent;
        }
    }
    assert(!local@.contains(*src));
    Direction::Received
}

/// The unordered 5-tuple identifying one directional flow.
#[derive(Clone, Copy, Debug, PartialEq, Eq, Hash, Structural)]
pub struct ConnectionKey {
    pub src: IpAddress,
    pub src_port: u16,
    pub dst: IpAddress,
    pub dst_port: u16,
    pub transport: TransProtocol,
}

/// Per-connection aggregate, created on the first admitted packet of its
/// key and updated on every later one.
#[derive(Clone, Copy, Debug, PartialEq, Eq, Structural)]
pub struct ConnectionInfo {
    /// Cumulative link-layer bytes of the admitted packets of this flow.
    pub bytes: u128,
    /// Cumulative admitted packets of this flow.
    pub packets: u64,
    /// How many of those packets the local host sent.
    pub sent_packets: u64,
    /// How many of those packets the local host received.
    pub received_packets: u64,
    /// Timestamp of the first admitted packet of this flow.
    pub first_seen: u64,
    /// Timestamp of the latest admitted packet of this flow.
    pub last_seen: u64,
    /// The flow's resolved application-protocol label.
    pub app: AppProtocol,
}

/// The key a packet's headers spell, in capture order.
pub open spec fn key_of_spec(p: PacketHeaders) -> ConnectionKey {
    ConnectionKey {
        src: p.src,
        src_port: p.src_port,
        dst: p.dst,
        dst_port: p.dst_port,
        transport: p.transport,
    }
}

/// The application-protocol label a packet resolves to.
pub open spec fn app_of_spec(p: PacketHeaders) -> AppProtocol {
    classify_pair_spec(p.transport, p.src_port, p.dst_port)
}

/// The aggregate a flow's first admitted packet creates.
pub open spec fn fresh_info_spec(
    app: AppProtocol,
    bytes: u64,
    direction: Direction,
    timestamp: u64,
) -> ConnectionInfo {
    ConnectionInfo {
        bytes: bytes as u128,
        packets: 1,
        sent_packets: if direction == Direction::Sent {
            1
        } else {
            0
        },
        received_packets: if direction == Direction::Received {
            1
        } else {
            0
        },
        first_seen: timestamp,
        last_seen: timestamp,
        app,
    }
}

/// The aggregate after one more admitted packet of the same flow.
pub open spec fn updated_info_spec(
    info: ConnectionInfo,
    bytes: u64,
    direction: Direction,
    timestamp: u64,
) -> ConnectionInfo {
    ConnectionInfo {
        bytes: (info.bytes + bytes) as u128,
        packets: (info.packets + 1) as u64,
        sent_packets: if direction == Direction::Sent {
            (info.sent_packets + 1) as u64
        } else {
            info.sent_packets
        },
        received_packets: if direction == Direction::Received {
            (info.received_packets + 1) as u64
        } else {
            info.received_packets
        },
        first_seen: info.first_seen,
        last_seen: timestamp,
        app: info.app,
    }
}

/// Whether some entry of the connection table carries this key.
pub open spec fn contains_key_spec(
    s: Seq<(ConnectionKey, ConnectionInfo)>,
    key: ConnectionKey,
) -> bool {
    exists|i: int| 0 <= i < s.len() && s[i].0 == key
}

/// No two entries of the connection table share a key.
pub open spec fn keys_unique_spec(s: Seq<(ConnectionKey, ConnectionInfo)>) -> bool {
    forall|i: int, j: int| 0 <= i < j < s.len() ==> s[i].0 != s[j].0
}

/// The sum of a sequence of counters, as an unbounded integer.
pub open spec fn sum_counts_spec(s: Seq<u64>) -> int
    decreases s.len(),
{
    if s.len() == 0 {
        0
    } else {
        sum_counts_spec(s.drop_last()) + s.last()
    }
}

pub proof fn lemma_sum_nonneg(s: Seq<u64>)
    ensures
        sum_counts_spec(s) >= 0,
    decreases s.len(),
{
    if s.len() > 0 {
        lemma_sum_nonneg(s.drop_last());
    }
}

pub proof fn lemma_sum_element_bound(s: Seq<u64>, i: int)
    requires
        0 <= i < s.len(),
    ensures
        s[i] <= sum_counts_spec(s),
    decreases s.len(),
{
    if i == s.len() - 1 {
        lemma_sum_nonneg(s.drop_last());
    } else {
        lemma_sum_element_bound(s.drop_last(), i);
    }
}

pub proof fn lemma_sum_update(s: Seq<u64>, i: int, v: u64)
    requires
        0 <= i < s.len(),
    ensures
        sum_counts_spec(s.update(i, v)) == sum_counts_spec(s) - s[i] + v,
    decreases s.len(),
{
    if i == s.len() - 1 {
        assert(s.update(i, v).drop_last() =~= s.drop_last());
    } else {
        lemma_sum_update(s.drop_last(), i, v);
        assert(s.update(i, v).drop_last() =~= s.drop_last().update(i, v));
        assert(s.update(i, v).last() == s.last());
    }
}

pub proof fn lemma_sum_all_zero(s: Seq<u64>)
    requires
        forall|i: int| 0 <= i < s.len() ==> s[i] == 0,
    ensures
        sum_counts_spec(s) == 0,
    decreases s.len(),
{
    if s.len() > 0 {
        lemma_sum_all_zero(s.drop_last());
    }
}

/// Well-formedness of one connection entry against the global admitted
/// count: its label agrees with the classifier on its key, its direction
/// counts split its packet count, and its counters stay under the global
/// ones (each admitted packet is at most 0xFFFF bytes of link frame).
pub open spec fn entry_wf_spec(e: (ConnectionKey, ConnectionInfo), admitted: u64) -> bool {
    &&& e.1.app == classify_pair_spec(e.0.transport, e.0.src_port, e.0.dst_port)
    &&& e.1.sent_packets + e.1.received_packets == e.1.packets
    &&& 1 <= e.1.packets <= admitted
    &&& e.1.bytes <= admitted * 0xFFFF
}

/// The global traffic aggregate: total packets observed pre-filter,
/// total admitted post-filter, the sent/received split, the connection
/// table, and the per-application-protocol packet counts, indexed by
/// `app_index_spec`.
#[derive(Debug)]
pub struct TrafficSnapshot {
    pub all_packets: u64,
    pub filtered_packets: u64,
    pub tot_sent_packets: u64,
    pub tot_received_packets: u64,
    pub connections: Vec<(ConnectionKey, ConnectionInfo)>,
    pub app_protocols: Vec<u64>,
}

/// What one admitted packet does to the aggregate: observed count
/// untouched, admitted and one direction counter up by one, the packet's
/// label count up by one, and its flow's entry updated in place or
/// freshly appended.
pub open spec fn recorded_spec(
    prev: TrafficSnapshot,
    cur: TrafficSnapshot,
    packet: PacketHeaders,
    bytes: u64,
    direction: Direction,
    timestamp: u64,
) -> bool {
    let app = app_of_spec(packet);
    let idx = app_index_spec(app);
    let key = key_of_spec(packet);
    &&& cur.all_packets == prev.all_packets
    &&& cur.filtered_packets == prev.filtered_packets + 1
    &&& cur.tot_sent_packets == prev.tot_sent_packets + (if direction == Direction::Sent {
        1int
    } else {
        0int
    })
    &&& cur.tot_received_packets == prev.tot_received_packets + (
    if direction == Direction::Received {
        1int
    } else {
        0int
    })
    &&& cur.app_protocols@ == prev.app_protocols@.update(
        idx,
        ((prev.app_protocols@[idx] + 1) as u64),
    )
    &&& if contains_key_spec(prev.connections@, key) {
        exists|i: int|
            0 <= i < prev.connections@.len() && prev.connections@[i].0 == key
                && cur.connections@ == prev.connections@.update(
                i,
                (key, updated_info_spec(prev.connections@[i].1, bytes, direction, timestamp)),
            )
    } else {
        cur.connections@ == prev.connections@.push(
            (key, fresh_info_spec(app, bytes, direction, timestamp)),
        )
    }
}

/// The aggregates besides the observed count are the same in both states.
pub open spec fn same_aggregates_spec(a: TrafficSnapshot, b: TrafficSnapshot) -> bool {
    &&& a.filtered_packets == b.filtered_packets
    &&& a.tot_sent_packets == b.tot_sent_packets
    &&& a.tot_received_packets == b.tot_received_packets
    &&& a.connections@ == b.connections@
    &&& a.app_protocols@ == b.app_protocols@
}

/// Both states hold exactly the same traffic.
pub open spec fn same_state_spec(a: TrafficSnapshot, b: TrafficSnapshot) -> bool {
    &&& a.all_packets == b.all_packets
    &&& same_aggregates_spec(a, b)
}

impl TrafficSnapshot {
    /// The structural invariant of the aggregate: the label-count table
    /// has one slot per label, the admitted count splits into sent and
    /// received and never exceeds the observed count, the per-label
    /// counts sum to the admitted count, and the connection table has
    /// unique, well-formed entries.
    pub open spec fn wf(self) -> bool {
        &&& self.app_protocols@.len() == APP_PROTOCOL_COUNT
        &&& sum_counts_spec(self.app_protocols@) == self.filtered_packets
        &&& self.tot_sent_packets + self.tot_received_packets == self.filtered_packets
        &&& self.filtered_packets <= self.all_packets
        &&& keys_unique_spec(self.connections@)
        &&& forall|i: int|
            0 <= i < self.connections@.len() ==> entry_wf_spec(
                #[trigger] self.connections@[i],
                self.filtered_packets,
            )
    }

    /// Every counter is zero and both tables are empty.
    pub open spec fn is_zero_spec(self) -> bool {
        &&& self.all_packets == 0
        &&& self.filtered_packets == 0
        &&& self.tot_sent_packets == 0
        &&& self.tot_received_packets == 0
        &&& self.connections@.len() == 0
        &&& self.app_protocols@.len() == APP_PROTOCOL_COUNT
        &&& forall|i: int| 0 <= i < self.app_protocols@.len() ==> self.app_protocols@[i] == 0
    }

    /// A fresh, all-zero aggregate.
    pub fn new() -> (r: TrafficSnapshot)
        ensures
            r.wf(),
            r.is_zero_spec(),
    {
        let counts: Vec<u64> = vec![0u64; APP_PROTOCOL_COUNT];
        proof {
            lemma_sum_all_zero(counts@);
        }
        TrafficSnapshot {
            all_packets: 0,
            filtered_packets: 0,
            tot_sent_packets: 0,
            tot_received_packets: 0,
            connections: Vec::new(),
            app_protocols: counts,
        }
    }

    /// Zeroes every counter and clears both tables; the capture state
    /// and the filters are elsewhere and are untouched.
    pub fn reset(&mut self)
        ensures
            final (self).wf(),
            final (self).is_zero_spec(),
    {
        let fresh = TrafficSnapshot::new();
        *self = fresh;
    }

    /// A consistent copy of the whole aggregate, taken in one piece.
    pub fn read_snapshot(&self) -> (r: TrafficSnapshot)
        ensures
            same_state_spec(r, *self),
            self.wf() ==> r.wf(),
    {
        let mut connections: Vec<(ConnectionKey, ConnectionInfo)> = Vec::new();
        let n = self.connections.len();
        for i in 0..n
            invariant
                n == self.connections@.len(),
                connections@ == self.connections@.take(i as int),
        {
            connections.push(self.connections[i]);
            proof {
                assert(connections@ =~= self.connections@.take(i + 1));
            }
        }
        proof {
            assert(connections@ =~= self.connections@);
        }
        let mut app_protocols: Vec<u64> = Vec::new();
        let m = self.app_protocols.len();
        for i in 0..m
            invariant
                m == self.app_protocols@.len(),
                app_protocols@ == self.app_protocols@.take(i as int),
        {
            app_protocols.push(self.app_protocols[i]);
            proof {
                assert(app_protocols@ =~= self.app_protocols@.take(i + 1));
            }
        }
        proof {
            assert(app_protocols@ =~= self.app_protocols@);
        }
        TrafficSnapshot {
            all_packets: self.all_packets,
            filtered_packets: self.filtered_packets,
            tot_sent_packets: self.tot_sent_packets,
            tot_received_packets: self.tot_received_packets,
            connections,
            app_protocols,
        }
    }

    /// The index of the entry carrying this key, if one exists.
    fn find_connection(&self, key: &ConnectionKey) -> (r: Option<usize>)
        ensures
            r matches Some(i) ==> i < self.connections@.len() && self.connections@[i as int].0
                == *key,
            r is None ==> !contains_key_spec(self.connections@, *key),
    {
        let n = self.connections.len();
        for i in 0..n
            invariant
                n == self.connections@.len(),
                forall|j: int| 0 <= j < i ==> self.connections@[j].0 != *key,
        {
            if self.connections[i].0 == *key {
                return Some(i);
            }
        }
        None
    }

    /// Counts one more observed packet, whether or not it will be
    /// admitted; nothing else moves.
    pub fn record_observed(&mut self)
        requires
            old(self).all_packets < u64::MAX,
        ensures
            final (self).all_packets == old(self).all_packets + 1,
            same_aggregates_spec(*final (self), *old(self)),
            old(self).wf() ==> final (self).wf(),
    {
        self.all_packets = self.all_packets + 1;
    }

    /// Aggregates one admitted packet: the packet has already been
    /// counted as observed, passed the filters, and been classified by
    /// direction; its link-layer length is at most 0xFFFF bytes, the
    /// capture's snapshot length.
    pub fn record_packet(
        &mut self,
        packet: &PacketHeaders,
        bytes: u64,
        direction: Direction,
        timestamp: u64,
    )
        requires
            old(self).wf(),
            old(self).filtered_packets < old(self).all_packets,
            bytes <= 0xFFFF,
        ensures
            final (self).wf(),
            recorded_spec(*old(self), *final (self), *packet, bytes, direction, timestamp),
    {
        let ghost prev = *self;
        let app = classify_pair(packet.transport, packet.src_port, packet.dst_port);
        let idx = app_index(app);
        proof {
            lemma_sum_element_bound(self.app_protocols@, idx as int);
        }
        let count = self.app_protocols[idx];
        self.app_protocols.set(idx, count + 1);
        proof {
            lemma_sum_update(prev.app_protocols@, idx as int, (count + 1) as u64);
        }
        self.filtered_packets = self.filtered_packets + 1;
        match direction {
            Direction::Sent => {
                self.tot_sent_packets = self.tot_sent_packets + 1;
            },
            Direction::Received => {
                self.tot_received_packets = self.tot_received_packets + 1;
            },
        }
        let key = ConnectionKey {
            src: packet.src,
            src_port: packet.src_port,
            dst: packet.dst,
            dst_port: packet.dst_port,
            transport: packet.transport,
        };
        match self.find_connection(&key) {
            Some(i) => {
                let entry = self.connections[i];
                let info = entry.1;
                let updated = ConnectionInfo {
                    bytes: info.bytes + (bytes as u128),
                    packets: info.packets + 1,
                    sent_packets: if matches!(direction, Direction::Sent) {
                        info.sent_packets + 1
                    } else {
                        info.sent_packets
                    },
                    received_packets: if matches!(direction, Direction::Received) {
                        info.received_packets + 1
                    } else {
                        info.received_packets
                    },
                    first_seen: info.first_seen,
                    last_seen: timestamp,
                    app: info.app,
                };
                self.connections.set(i, (key, updated));
            },
            None => {
                let fresh = ConnectionInfo {
                    bytes: bytes as u128,
                    packets: 1,
                    sent_packets: if matches!(direction, Direction::Sent) {
                        1
                    } else {
                        0
                    },
                    received_packets: if matches!(direction, Direction::Received) {
                        1
                    } else {
                        0
                    },
                    first_seen: timestamp,
                    last_seen: timestamp,
                    app,
                };
                self.connections.push((key, fresh));
            },
        }
    }

    /// One parsed packet through the filter and, on acceptance, into the
    /// aggregate: the observed count always moves; a rejected packet
    /// creates and changes nothing else.
    pub fn process_packet(
        &mut self,
        filters: &Filters,
        packet: &PacketHeaders,
        bytes: u64,
        direction: Direction,
        timestamp: u64,
    ) -> (admitted: bool)
        requires
            old(self).wf(),
            old(self).all_packets < u64::MAX,
            bytes <= 0xFFFF,
        ensures
            final (self).wf(),
            admitted == filters.admits_spec(*packet),
            final (self).all_packets == old(self).all_packets + 1,
            !admitted ==> same_aggregates_spec(*final (self), *old(self)),
            admitted ==> recorded_spec(
                TrafficSnapshot { all_packets: (old(self).all_packets + 1) as u64, ..*old(self) },
                *final (self),
                *packet,
                bytes,
                direction,
                timestamp,
            ),
    {
        self.record_observed();
        let admitted = filters.admits(packet);
        if admitted {
            self.record_packet(packet, bytes, direction, timestamp);
        }
        admitted
    }
}

/// What became of one raw frame.
#[derive(Clone, Copy, Debug, PartialEq, Eq, Structural)]
pub enum FrameOutcome {
    /// The frame failed link, network or transport parsing and was
    /// dropped; it still counts as observed.
    Malformed,
    /// The packet parsed but an active filter rejected it.
    Rejected,
    /// The packet passed every filter and was aggregated.
    Admitted,
}

impl TrafficSnapshot {
    /// One raw frame through parsing, the filters and the aggregate.
    /// The observed count always moves; a malformed or rejected frame
    /// changes nothing else; an admitted packet is aggregated under the
    /// direction its source address earns against the local addresses.
    /// The frame is at most 0xFFFF bytes, the capture's snapshot length.
    pub fn handle_frame(
        &mut self,
        filters: &Filters,
        local: &Vec<IpAddress>,
        frame: &Vec<u8>,
        timestamp: u64,
    ) -> (outcome: FrameOutcome)
        requires
            old(self).wf(),
            old(self).all_packets < u64::MAX,
            frame@.len() <= 0xFFFF,
        ensures
            final (self).wf(),
            final (self).all_packets == old(self).all_packets + 1,
            parse_frame_spec(frame@) is None ==> outcome == FrameOutcome::Malformed
                && same_aggregates_spec(*final (self), *old(self)),
            parse_frame_spec(frame@) matches Some(p) ==> outcome == (
            if filters.admits_spec(p) {
                FrameOutcome::Admitted
            } else {
                FrameOutcome::Rejected
            }),
            parse_frame_spec(frame@) matches Some(p) ==> (!filters.admits_spec(p)
                ==> same_aggregates_spec(*final (self), *old(self))),
            parse_frame_spec(frame@) matches Some(p) ==> (filters.admits_spec(p)
                ==> recorded_spec(
                TrafficSnapshot { all_packets: (old(self).all_packets + 1) as u64, ..*old(self) },
                *final (self),
                p,
                frame@.len() as u64,
                direction_of_spec(p.src, local@),
                timestamp,
            )),
    {
        match parse_frame(frame) {
            None => {
                self.record_observed();
                FrameOutcome::Malformed
            },
            Some(packet) => {
                let direction = classify_direction(&packet.src, local);
                let bytes = frame.len() as u64;
                let admitted = self.process_packet(filters, &packet, bytes, direction, timestamp);
                if admitted {
                    FrameOutcome::Admitted
                } else {
                    FrameOutcome::Rejected
                }
            },
        }
    }
}

/// The total admitted count always equals the sum of the per-label
/// counts: every admitted packet resolves to exactly one label.
pub proof fn lemma_admitted_equals_label_sum(s: TrafficSnapshot)
    requires
        s.wf(),
    ensures
        sum_counts_spec(s.app_protocols@) == s.filtered_packets,
{
}

/// A reset followed by a snapshot read, with no packet in between,
/// yields all-zero counters and empty tables, whatever went before.
pub proof fn lemma_reset_then_read_is_zero(after_reset: TrafficSnapshot, copy: TrafficSnapshot)
    requires
        after_reset.is_zero_spec(),
        same_state_spec(copy, after_reset),
    ensures
        copy.is_zero_spec(),
{
}

} // verus!
