//! The control surface and the capture loop's per-iteration logic.
//!
//! `Engine` owns the four independently guarded resources of the design
//! — the traffic aggregate, the filters, the selected device and the run
//! state — as one sequential value.  The embedding process shards them
//! behind its own guards; every operation here touches the named
//! resource in one step, so each maps onto one critical section.
//!
//! The capture loop itself does outside work (a blocking read on the
//! capture handle, a wait on the run-state's notify primitive) that
//! cannot stand here; its decisions can.  `capture_action` says, from
//! the run state alone, whether the loop waits, reads one frame, or
//! terminates for good, and `handle_frame` turns one raw frame into
//! zero or one update of the traffic aggregate.

use vstd::prelude::*;
use crate::filters::{AppFilter, Filters, IpVersionFilter, TransportFilter};
use crate::packet::{IpAddress, parse_frame_spec};
use crate::runstate::{
    Status,
    start_transition,
    start_transition_spec,
    stop_transition,
    stop_transition_spec,
};
use crate::traffic::{
    FrameOutcome,
    TrafficSnapshot,
    direction_of_spec,
    recorded_spec,
    same_aggregates_spec,
    same_state_spec,
};

verus! {

/// A selectable network interface: its name, an optional human
/// description, and the addresses bound to it.  The bound addresses
/// decide whether an admitted packet counts as sent or received.
#[derive(Debug)]
pub struct Device {
    pub name: String,
    pub description: Option<String>,
    pub addresses: Vec<IpAddress>,
}

/// What the capture loop does next, decided from the run state alone.
#[derive(Clone, Copy, Debug, PartialEq, Eq, Structural)]
pub enum CaptureAction {
    /// Block on the run-state's notify primitive and re-check.
    Wait,
    /// Read one raw frame and feed it to `handle_frame`.
    Capture,
    /// Leave the loop permanently; `Stop` is terminal.
    Terminate,
}

/// The loop's decision: work while Running, end on Stop, otherwise wait.
pub open spec fn capture_action_spec(status: Status) -> CaptureAction {
    match status {
        Status::Running => CaptureAction::Capture,
        Status::Stop => CaptureAction::Terminate,
        _ => CaptureAction::Wait,
    }
}

pub fn capture_action(status: Status) -> (action: CaptureAction)
    ensures
        action == capture_action_spec(status),
{
    match status {
        Status::Running => CaptureAction::Capture,
        Status::Stop => CaptureAction::Terminate,
        Status::Init => CaptureAction::Wait,
        Status::Pause => CaptureAction::Wait,
    }
}

/// The capture-and-aggregation engine behind the control surface.
pub struct Engine {
    pub traffic: TrafficSnapshot,
    pub filters: Filters,
    pub device: Device,
    pub status: Status,
    /// Set when the selected device could not be opened for capture:
    /// fatal to the capture loop, surfaced here, never retried silently.
    pub capture_error: bool,
}

/// The filters, device, run state and error flag are the same in both
/// engine states.
pub open spec fn same_control_spec(a: Engine, b: Engine) -> bool {
    &&& a.filters == b.filters
    &&& a.device.name@ == b.device.name@
    &&& a.device.description == b.device.description
    &&& a.device.addresses@ == b.device.addresses@
    &&& a.status == b.status
    &&& a.capture_error == b.capture_error
}

impl Engine {
    pub open spec fn wf(self) -> bool {
        self.traffic.wf()
    }

    /// A fresh engine on the given device with the given initial
    /// filters: no traffic yet, run state Init, no capture error.
    pub fn new(device: Device, filters: Filters) -> (r: Engine)
        ensures
            r.wf(),
            r.traffic.is_zero_spec(),
            r.filters == filters,
            r.device.name@ == device.name@,
            r.device.description == device.description,
            r.device.addresses@ == device.addresses@,
            r.status == Status::Init,
            !r.capture_error,
    {
        Engine {
            traffic: TrafficSnapshot::new(),
            filters,
            device,
            status: Status::Init,
            capture_error: false,
        }
    }

    /// Replaces the active device; takes effect on the next capture
    /// (re)open.  Nothing else moves.
    pub fn select_device(&mut self, device: Device)
        ensures
            final (self).device.name@ == device.name@,
            final (self).device.description == device.description,
            final (self).device.addresses@ == device.addresses@,
            final (self).filters == old(self).filters,
            final (self).status == old(self).status,
            final (self).capture_error == old(self).capture_error,
            same_state_spec(final (self).traffic, old(self).traffic),
            old(self).wf() ==> final (self).wf(),
    {
        self.device = device;
    }

    /// Replaces the IP-version selector; visible from the next packet.
    pub fn set_ip_filter(&mut self, selector: IpVersionFilter)
        ensures
            final (self).filters == (Filters { ip: selector, ..old(self).filters }),
            final (self).status == old(self).status,
            final (self).capture_error == old(self).capture_error,
            final (self).device.name@ == old(self).device.name@,
            final (self).device.description == old(self).device.description,
            final (self).device.addresses@ == old(self).device.addresses@,
            same_state_spec(final (self).traffic, old(self).traffic),
            old(self).wf() ==> final (self).wf(),
    {
        self.filters.ip = selector;
    }

    /// Replaces the transport-protocol selector; visible from the next
    /// packet.
    pub fn set_transport_filter(&mut self, selector: TransportFilter)
        ensures
            final (self).filters == (Filters { transport: selector, ..old(self).filters }),
            final (self).status == old(self).status,
            final (self).capture_error == old(self).capture_error,
            final (self).device.name@ == old(self).device.name@,
            final (self).device.description == old(self).device.description,
            final (self).device.addresses@ == old(self).device.addresses@,
            same_state_spec(final (self).traffic, old(self).traffic),
            old(self).wf() ==> final (self).wf(),
    {
        self.filters.transport = selector;
    }

    /// Replaces the application-protocol selector; visible from the next
    /// packet.
    pub fn set_app_filter(&mut self, selector: AppFilter)
        ensures
            final (self).filters == (Filters { application: selector, ..old(self).filters }),
            final (self).status == old(self).status,
            final (self).capture_error == old(self).capture_error,
            final (self).device.name@ == old(self).device.name@,
            final (self).device.description == old(self).device.description,
            final (self).device.addresses@ == old(self).device.addresses@,
            same_state_spec(final (self).traffic, old(self).traffic),
            old(self).wf() ==> final (self).wf(),
    {
        self.filters.application = selector;
    }

    /// Starts or resumes the capture and clears a previous capture
    /// error, allowing a fresh open attempt; starting while already
    /// Running leaves the state Running.
    pub fn start(&mut self)
        ensures
            final (self).status == start_transition_spec(old(self).status),
            !final (self).capture_error,
            final (self).filters == old(self).filters,
            final (self).device.name@ == old(self).device.name@,
            final (self).device.description == old(self).device.description,
            final (self).device.addresses@ == old(self).device.addresses@,
            same_state_spec(final (self).traffic, old(self).traffic),
            old(self).wf() ==> final (self).wf(),
    {
        self.status = start_transition(self.status);
        self.capture_error = false;
    }

    /// Stops the capture, from any state, permanently.
    pub fn stop(&mut self)
        ensures
            final (self).status == stop_transition_spec(old(self).status),
            final (self).status == Status::Stop,
            final (self).filters == old(self).filters,
            final (self).capture_error == old(self).capture_error,
            final (self).device.name@ == old(self).device.name@,
            final (self).device.description == old(self).device.description,
            final (self).device.addresses@ == old(self).device.addresses@,
            same_state_spec(final (self).traffic, old(self).traffic),
            old(self).wf() ==> final (self).wf(),
    {
        self.status = stop_transition(self.status);
    }

    /// Zeroes every traffic counter and clears both tables; the run
    /// state and the filters are untouched.
    pub fn reset(&mut self)
        ensures
            final (self).wf(),
            final (self).traffic.is_zero_spec(),
            same_control_spec(*final (self), *old(self)),
    {
        self.traffic.reset();
    }

    /// A consistent copy of the traffic aggregate, taken in one piece;
    /// the engine itself is unread thereafter and unchanged.
    pub fn read_snapshot(&self) -> (r: TrafficSnapshot)
        ensures
            same_state_spec(r, self.traffic),
            self.wf() ==> r.wf(),
    {
        self.traffic.read_snapshot()
    }

    /// Records that the selected device could not be opened for
    /// capture: the loop is dead until a fresh start, and the flag makes
    /// that visible to the control surface.
    pub fn record_capture_failure(&mut self)
        ensures
            final (self).capture_error,
            final (self).status == old(self).status,
            final (self).filters == old(self).filters,
            final (self).device.name@ == old(self).device.name@,
            final (self).device.description == old(self).device.description,
            final (self).device.addresses@ == old(self).device.addresses@,
            same_state_spec(final (self).traffic, old(self).traffic),
            old(self).wf() ==> final (self).wf(),
    {
        self.capture_error = true;
    }

    /// One raw frame through parsing, the filters and the aggregate.
    /// The observed count always moves; a malformed or rejected frame
    /// changes nothing else; an admitted packet is aggregated under the
    /// direction its source address earns against the device's bound
    /// addresses.  The frame is at most 0xFFFF bytes, the capture's
    /// snapshot length.
    pub fn handle_frame(&mut self, frame: &Vec<u8>, timestamp: u64) -> (outcome: FrameOutcome)
        requires
            old(self).wf(),
            old(self).traffic.all_packets < u64::MAX,
            frame@.len() <= 0xFFFF,
        ensures
            final (self).wf(),
            same_control_spec(*final (self), *old(self)),
            final (self).traffic.all_packets == old(self).traffic.all_packets + 1,
            parse_frame_spec(frame@) is None ==> outcome == FrameOutcome::Malformed
                && same_aggregates_spec(final (self).traffic, old(self).traffic),
            parse_frame_spec(frame@) matches Some(p) ==> outcome == (
            if old(self).filters.admits_spec(p) {
                FrameOutcome::Admitted
            } else {
                FrameOutcome::Rejected
            }),
            parse_frame_spec(frame@) matches Some(p) ==> (!old(self).filters.admits_spec(p)
                ==> same_aggregates_spec(final (self).traffic, old(self).traffic)),
            parse_frame_spec(frame@) matches Some(p) ==> (old(self).filters.admits_spec(p)
                ==> recorded_spec(
                TrafficSnapshot {
                    all_packets: (old(self).traffic.all_packets + 1) as u64,
                    ..old(self).traffic
                },
                final (self).traffic,
                p,
                frame@.len() as u64,
                direction_of_spec(p.src, old(self).device.addresses@),
                timestamp,
            )),
    {
        self.traffic.handle_frame(&self.filters, &self.device.addresses, frame, timestamp)
    }
}

} // verus!
