//! Vehicle-telemetry fusion: the bridge keeps the latest attitude and the
//! latest position sample and, once both have arrived, maintains a fused
//! snapshot that recording workers read.
//!
//! Angles travel as raw IEEE-754 bit patterns and position fields as the
//! scaled integers of the telemetry wire format (degrees times ten million,
//! millimetres); the core never does floating-point arithmetic on them, and
//! conversion to display units happens at the edge.

use vstd::prelude::*;

verus! {

/// Seconds the bridge waits before rebuilding a failed bus connection.
pub const RECONNECT_DELAY_SECS: u64 = 5;

/// Latest attitude sample: roll, pitch and yaw as 32-bit float bit patterns.
#[derive(Clone, Copy, Debug, PartialEq, Eq, Structural)]
pub struct AttitudeSample {
    pub roll_bits: u32,
    pub pitch_bits: u32,
    pub yaw_bits: u32,
}

/// Latest position sample: scaled integers straight off the wire.
#[derive(Clone, Copy, Debug, PartialEq, Eq, Structural)]
pub struct PositionSample {
    /// Latitude in degrees times `1e7`.
    pub lat_e7: i32,
    /// Longitude in degrees times `1e7`.
    pub lon_e7: i32,
    /// Altitude in millimetres.
    pub alt_mm: i32,
}

/// The fused record that the recording worker samples.
#[derive(Clone, Copy, Debug, PartialEq, Eq, Structural)]
pub struct VehicleSnapshot {
    pub roll_bits: u32,
    pub pitch_bits: u32,
    pub yaw_bits: u32,
    pub lat_e7: i32,
    pub lon_e7: i32,
    pub alt_mm: i32,
}

/// One decoded sample arriving from the telemetry bus.
#[derive(Clone, Copy, Debug, PartialEq, Eq, Structural)]
pub enum BridgeEvent {
    Attitude(AttitudeSample),
    Position(PositionSample),
}

/// The fusion of the two latest samples.
pub open spec fn fuse(a: AttitudeSample, p: PositionSample) -> VehicleSnapshot {
    VehicleSnapshot {
        roll_bits: a.roll_bits,
        pitch_bits: a.pitch_bits,
        yaw_bits: a.yaw_bits,
        lat_e7: p.lat_e7,
        lon_e7: p.lon_e7,
        alt_mm: p.alt_mm,
    }
}

/// The bridge's state between two received samples.
#[derive(Clone, Copy, Debug, PartialEq, Eq, Structural)]
pub struct BridgeState {
    pub latest_attitude: Option<AttitudeSample>,
    pub latest_position: Option<PositionSample>,
    pub snapshot: Option<VehicleSnapshot>,
}

impl BridgeState {
    /// The snapshot is present exactly when both samples have arrived, and
    /// is always the fusion of the latest two — never anything stale.
    pub open spec fn wf(self) -> bool {
        match (self.latest_attitude, self.latest_position) {
            (Some(a), Some(p)) => self.snapshot == Some(fuse(a, p)),
            _ => self.snapshot is None,
        }
    }

    /// A freshly connected bridge has seen nothing.
    pub fn new() -> (r: BridgeState)
        ensures
            r.wf(),
            r.latest_attitude is None,
            r.latest_position is None,
            r.snapshot is None,
    {
        BridgeState { latest_attitude: None, latest_position: None, snapshot: None }
    }

    /// Folds one received sample into the state: the matching latest-sample
    /// slot is replaced, and the snapshot is refreshed whenever both slots
    /// are populated.
    pub fn step(&mut self, ev: BridgeEvent)
        requires
            old(self).wf(),
        ensures
            final(self).wf(),
            ev matches BridgeEvent::Attitude(a) ==> final(self).latest_attitude == Some(a)
                && final(self).latest_position == old(self).latest_position,
            ev matches BridgeEvent::Position(p) ==> final(self).latest_position == Some(p)
                && final(self).latest_attitude == old(self).latest_attitude,
            final(self).snapshot == (match (
                final(self).latest_attitude,
                final(self).latest_position,
            ) {
                (Some(a), Some(p)) => Some(fuse(a, p)),
                _ => None::<VehicleSnapshot>,
            }),
    {
        match ev {
            BridgeEvent::Attitude(a) => {
                self.latest_attitude = Some(a);
            },
            BridgeEvent::Position(p) => {
                self.latest_position = Some(p);
            },
        }
        match (self.latest_attitude, self.latest_position) {
            (Some(a), Some(p)) => {
                self.snapshot = Some(
                    VehicleSnapshot {
                        roll_bits: a.roll_bits,
                        pitch_bits: a.pitch_bits,
                        yaw_bits: a.yaw_bits,
                        lat_e7: p.lat_e7,
                        lon_e7: p.lon_e7,
                        alt_mm: p.alt_mm,
                    },
                );
            },
            _ => {
                self.snapshot = None;
            },
        }
    }
}

/// After at least one attitude and one position sample the shared snapshot
/// is present, and it is exactly the fusion of the latest two samples; a
/// reader never sees anything stale.
pub proof fn lemma_snapshot_fresh(s: BridgeState)
    requires
        s.wf(),
    ensures
        (s.latest_attitude is Some && s.latest_position is Some) <==> (s.snapshot is Some),
        s.snapshot matches Some(v) ==> v == fuse(
            s.latest_attitude.unwrap(),
            s.latest_position.unwrap(),
        ),
{
}

} // verus!
