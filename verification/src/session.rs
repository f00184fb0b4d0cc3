//! The per-device session: the request/response decision rules, the probe
//! state machine that identifies a device, the continuous-mode scan stepper
//! of the imaging sonar, and the checksum gate in front of the frame
//! broadcast.

use vstd::prelude::*;

use crate::broadcast::FrameChannel;
use crate::codec::{parse_frame, starts_badly, length_bad, checksum_bad, valid_frame_bytes, le16_at,
    DecodeError, Frame};
use crate::errors::{ErrorKind, ManagerError};
use crate::ids::DeviceKind;

verus! {

/// No reply within this window times a request out.
pub const REQUEST_TIMEOUT_MS: u64 = 1000;

/// A missed scan reply is retransmitted this many times before the step is
/// skipped.
pub const MAX_SCAN_RETRIES: u8 = 3;

/// The probe gives up after this many consecutive timeouts.
pub const MAX_PROBE_ATTEMPTS: u8 = 3;

/// Milliseconds a discovery probe waits for an identification reply.
pub const DISCOVERY_PROBE_TIMEOUT_MS: u64 = 500;

/// Message id of the protocol-level negative acknowledgement.
pub const NACK_ID: u16 = 2;

/// What the protocol driver should do about the one outstanding request.
#[derive(Clone, Copy, Debug, PartialEq, Eq, Structural)]
pub enum RequestDecision {
    /// Keep waiting: the window is open and no reply has arrived.
    KeepWaiting,
    /// The window closed without a reply.
    GiveUpTimeout,
    /// A matching reply (or an explicit rejection) arrived in time.
    Complete,
}

/// Decides the fate of the outstanding request after `elapsed_ms`
/// milliseconds, given whether a matching reply has arrived. The window
/// closes at exactly the timeout: a reply in hand at one millisecond less
/// still wins, and at the timeout the request fails even if a reply showed
/// up in the same poll.
pub fn decide_request(elapsed_ms: u64, have_reply: bool) -> (r: RequestDecision)
    ensures
        (r == RequestDecision::GiveUpTimeout) <==> elapsed_ms >= REQUEST_TIMEOUT_MS,
        (r == RequestDecision::Complete) <==> (elapsed_ms < REQUEST_TIMEOUT_MS && have_reply),
        (r == RequestDecision::KeepWaiting) <==> (elapsed_ms < REQUEST_TIMEOUT_MS && !have_reply),
{
    if elapsed_ms >= REQUEST_TIMEOUT_MS {
        RequestDecision::GiveUpTimeout
    } else if have_reply {
        RequestDecision::Complete
    } else {
        RequestDecision::KeepWaiting
    }
}

/// Whether an incoming frame settles a request that expects `expected_id`:
/// either the expected reply or an explicit rejection.
pub open spec fn spec_reply_matches(expected_id: u16, incoming_id: u16) -> bool {
    incoming_id == expected_id || incoming_id == NACK_ID
}

/// Decides whether an incoming frame settles the outstanding request;
/// unrelated frames leave it pending.
pub fn reply_matches(expected_id: u16, incoming_id: u16) -> (r: bool)
    ensures
        r == spec_reply_matches(expected_id, incoming_id),
{
    incoming_id == expected_id || incoming_id == NACK_ID
}

/// The one outstanding protocol request of a session.
#[derive(Clone, Copy, Debug, PartialEq, Eq, Structural)]
pub struct PendingRequest {
    /// Message id of the expected reply.
    pub expected_id: u16,
    /// Milliseconds since the request was written.
    pub elapsed_ms: u64,
}

/// Hands one decoded incoming frame to the request matcher. A frame whose
/// id is the expected reply (or the explicit rejection) settles the
/// outstanding request; any unrelated frame leaves it pending, undisturbed —
/// the frame has already gone out on the broadcast either way.
pub fn session_handle_frame(pending: Option<PendingRequest>, frame: &Frame) -> (r: (
    Option<PendingRequest>,
    bool,
))
    ensures
        pending is None ==> r == (None::<PendingRequest>, false),
        pending matches Some(p) && spec_reply_matches(p.expected_id, frame.message_id) ==> r == (
            None::<PendingRequest>,
            true,
        ),
        pending matches Some(p) && !spec_reply_matches(p.expected_id, frame.message_id) ==> r == (
            pending,
            false,
        ),
{
    match pending {
        None => (None, false),
        Some(p) => {
            if reply_matches(p.expected_id, frame.message_id) {
                (None, true)
            } else {
                (Some(p), false)
            }
        },
    }
}

/// The lifecycle of one session.
#[derive(Clone, Copy, Debug, PartialEq, Eq, Structural)]
pub enum SessionPhase {
    /// Identifying the device; counts consecutive probe timeouts.
    Probing { attempts: u8 },
    /// Identified and quiet.
    Idle { kind: DeviceKind },
    /// Identified and streaming continuously.
    Streaming { kind: DeviceKind },
    /// Terminal: the session actor exits and the manager evicts the entry.
    Closed,
}

/// When a probe settles two claimed kinds, the more specialized wins.
pub fn specialize_kind(a: DeviceKind, b: DeviceKind) -> (r: DeviceKind)
    ensures
        r == if a == DeviceKind::Common {
            b
        } else {
            a
        },
{
    if a == DeviceKind::Common {
        b
    } else {
        a
    }
}

/// One probe round: a valid identification reply settles the kind; a
/// timeout counts, and the third consecutive timeout closes the session.
pub fn probe_step(phase: SessionPhase, reply: Option<DeviceKind>) -> (r: SessionPhase)
    requires
        phase matches SessionPhase::Probing { attempts } && attempts < MAX_PROBE_ATTEMPTS,
    ensures
        reply matches Some(kind) ==> r == (SessionPhase::Idle { kind }),
        reply is None ==> r == if (phase->Probing_attempts + 1) as u8 >= MAX_PROBE_ATTEMPTS {
            SessionPhase::Closed
        } else {
            (SessionPhase::Probing { attempts: (phase->Probing_attempts + 1) as u8 })
        },
{
    match (phase, reply) {
        (_, Some(kind)) => SessionPhase::Idle { kind },
        (SessionPhase::Probing { attempts }, None) => {
            if attempts + 1 >= MAX_PROBE_ATTEMPTS {
                SessionPhase::Closed
            } else {
                SessionPhase::Probing { attempts: attempts + 1 }
            }
        },
        _ => SessionPhase::Closed,
    }
}

/// Starts continuous streaming: valid for an identified sonar of a known
/// family, an error for a merely protocol-compatible device.
pub fn enable_continuous(phase: SessionPhase) -> (r: Result<SessionPhase, ManagerError>)
    ensures
        (r is Ok) <==> ((phase matches SessionPhase::Idle { kind } && kind != DeviceKind::Common)
            || (phase matches SessionPhase::Streaming { kind } && kind != DeviceKind::Common)),
        r matches Ok(p) ==> {
            &&& phase matches SessionPhase::Idle { kind } ==> p == (SessionPhase::Streaming { kind })
            &&& phase matches SessionPhase::Streaming { kind } ==> p == phase
        },
        r matches Err(e) ==> e.kind == ErrorKind::UnsupportedKind,
{
    match phase {
        SessionPhase::Idle { kind } => {
            if kind == DeviceKind::Common {
                Err(
                    ManagerError::new(
                        ErrorKind::UnsupportedKind,
                        String::from_str("continuous mode needs a recognized device kind"),
                    ),
                )
            } else {
                Ok(SessionPhase::Streaming { kind })
            }
        },
        SessionPhase::Streaming { kind } => {
            if kind == DeviceKind::Common {
                Err(
                    ManagerError::new(
                        ErrorKind::UnsupportedKind,
                        String::from_str("continuous mode needs a recognized device kind"),
                    ),
                )
            } else {
                Ok(SessionPhase::Streaming { kind })
            }
        },
        _ => Err(
            ManagerError::new(
                ErrorKind::UnsupportedKind,
                String::from_str("continuous mode needs an identified device"),
            ),
        ),
    }
}

/// Stops continuous streaming; the session falls back to idle.
pub fn disable_continuous(phase: SessionPhase) -> (r: Result<SessionPhase, ManagerError>)
    ensures
        (r is Ok) <==> (phase matches SessionPhase::Streaming { kind } || phase
            matches SessionPhase::Idle { kind }),
        r matches Ok(p) ==> {
            &&& phase matches SessionPhase::Streaming { kind } ==> p == (SessionPhase::Idle { kind })
            &&& phase matches SessionPhase::Idle { kind } ==> p == phase
        },
        r matches Err(e) ==> e.kind == ErrorKind::UnsupportedKind,
{
    match phase {
        SessionPhase::Streaming { kind } => Ok(SessionPhase::Idle { kind }),
        SessionPhase::Idle { kind } => Ok(SessionPhase::Idle { kind }),
        _ => Err(
            ManagerError::new(
                ErrorKind::UnsupportedKind,
                String::from_str("continuous mode needs an identified device"),
            ),
        ),
    }
}

/// The configured scan sector of the imaging sonar.
#[derive(Clone, Copy, Debug, PartialEq, Eq, Structural)]
pub struct ScanConfig {
    /// Motor steps between pings.
    pub num_steps: u16,
    /// First integer angle of the sector.
    pub start_angle: u16,
    /// Last integer angle of the sector.
    pub stop_angle: u16,
}

impl ScanConfig {
    /// The sector lies in the 400-gradian circle and the step advances.
    pub open spec fn wf(self) -> bool {
        &&& 1 <= self.num_steps <= 399
        &&& self.start_angle <= self.stop_angle <= 399
    }
}

/// The angle commanded after `angle`, wrapping past the sector's end.
pub open spec fn spec_next_angle(cfg: ScanConfig, angle: u16) -> u16 {
    if angle + cfg.num_steps > cfg.stop_angle {
        cfg.start_angle
    } else {
        (angle + cfg.num_steps) as u16
    }
}

/// Steps the commanded angle through the sector, wrapping to its start.
pub fn next_angle(cfg: &ScanConfig, angle: u16) -> (r: u16)
    requires
        cfg.wf(),
        cfg.start_angle <= angle <= cfg.stop_angle,
    ensures
        r == spec_next_angle(*cfg, angle),
        cfg.start_angle <= r <= cfg.stop_angle,
{
    if angle + cfg.num_steps > cfg.stop_angle {
        cfg.start_angle
    } else {
        angle + cfg.num_steps
    }
}

/// The scan driver's state between two transducer commands.
#[derive(Clone, Copy, Debug, PartialEq, Eq, Structural)]
pub struct ScanState {
    /// The angle of the outstanding command.
    pub angle: u16,
    /// How often the outstanding command has been retransmitted.
    pub retries: u8,
}

/// A reply arrived for the outstanding scan command. The reply's reported
/// angle is authoritative even where it disagrees with the commanded one;
/// the next command steps on from it with a fresh retry budget.
pub fn scan_on_reply(cfg: &ScanConfig, reported_angle: u16) -> (r: ScanState)
    requires
        cfg.wf(),
        cfg.start_angle <= reported_angle <= cfg.stop_angle,
    ensures
        r.angle == spec_next_angle(*cfg, reported_angle),
        r.retries == 0,
{
    ScanState { angle: next_angle(cfg, reported_angle), retries: 0 }
}

/// The outstanding scan command timed out. It is retransmitted at the same
/// angle up to three times; after that the step is skipped and the scan
/// moves on.
pub fn scan_on_timeout(cfg: &ScanConfig, st: ScanState) -> (r: ScanState)
    requires
        cfg.wf(),
        cfg.start_angle <= st.angle <= cfg.stop_angle,
    ensures
        st.retries < MAX_SCAN_RETRIES ==> r == (ScanState {
            angle: st.angle,
            retries: (st.retries + 1) as u8,
        }),
        st.retries >= MAX_SCAN_RETRIES ==> r == (ScanState {
            angle: spec_next_angle(*cfg, st.angle),
            retries: 0,
        }),
{
    if st.retries < MAX_SCAN_RETRIES {
        ScanState { angle: st.angle, retries: st.retries + 1 }
    } else {
        ScanState { angle: next_angle(cfg, st.angle), retries: 0 }
    }
}

/// The session's receive-side counters, observable by introspection.
#[derive(Clone, Copy, Debug, PartialEq, Eq, Structural)]
pub struct SessionCounters {
    /// Frames dropped for a bad checksum.
    pub rx_crc_errors: u64,
    /// Frames dropped for any other framing fault.
    pub rx_framing_errors: u64,
}

/// Feeds one received byte string through the checksum gate. A frame with
/// an invalid checksum is dropped silently — nothing is broadcast and only
/// the checksum-error counter moves. A valid frame is published to the
/// broadcast and handed back for request matching; any other framing fault
/// is dropped with its own counter.
pub fn process_incoming(chan: &mut FrameChannel, counters: &mut SessionCounters, bytes: Vec<u8>) -> (r:
    Option<Frame>)
    requires
        old(chan).wf(),
        old(chan).published() < 0xffff_ffff_ffff_ffff,
        old(counters).rx_crc_errors < 0xffff_ffff_ffff_ffff,
        old(counters).rx_framing_errors < 0xffff_ffff_ffff_ffff,
    ensures
        final(chan).wf(),
        final(chan).capacity == old(chan).capacity,
        (r is Some) <==> valid_frame_bytes(bytes@),
        r matches Some(f) ==> {
            &&& final(chan).history@ == old(chan).history@.push(bytes@)
            &&& *final(counters) == *old(counters)
            &&& f.message_id == le16_at(bytes@, 4)
            &&& crate::codec::frame_bytes(f) == bytes@
        },
        r is None ==> final(chan).history@ == old(chan).history@ && *final(chan) == *old(chan),
        checksum_bad(bytes@) ==> *final(counters) == (SessionCounters {
            rx_crc_errors: (old(counters).rx_crc_errors + 1) as u64,
            rx_framing_errors: old(counters).rx_framing_errors,
        }),
        (starts_badly(bytes@) || length_bad(bytes@)) ==> *final(counters) == (SessionCounters {
            rx_crc_errors: old(counters).rx_crc_errors,
            rx_framing_errors: (old(counters).rx_framing_errors + 1) as u64,
        }),
{
    match parse_frame(&bytes) {
        Ok(f) => {
            chan.publish(bytes);
            Some(f)
        },
        Err(DecodeError::BadChecksum) => {
            counters.rx_crc_errors = counters.rx_crc_errors + 1;
            None
        },
        Err(_) => {
            counters.rx_framing_errors = counters.rx_framing_errors + 1;
            None
        },
    }
}

} // verus!
