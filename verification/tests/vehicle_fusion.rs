use ping_viewer_next::vehicle::{
    AttitudeSample, BridgeEvent, BridgeState, PositionSample, VehicleSnapshot,
};

fn attitude() -> AttitudeSample {
    AttitudeSample {
        roll_bits: 0.1f32.to_bits(),
        pitch_bits: 0.2f32.to_bits(),
        yaw_bits: 0.3f32.to_bits(),
    }
}

fn position() -> PositionSample {
    PositionSample {
        lat_e7: 474608000,
        lon_e7: 85037000,
        alt_mm: 125000,
    }
}

#[test]
fn no_snapshot_before_both_samples() {
    let mut st = BridgeState::new();
    assert!(st.snapshot.is_none());
    st.step(BridgeEvent::Attitude(attitude()));
    assert!(st.snapshot.is_none());
}

#[test]
fn fusion_combines_latest_samples() {
    let mut st = BridgeState::new();
    st.step(BridgeEvent::Attitude(attitude()));
    st.step(BridgeEvent::Position(position()));

    let snap = st.snapshot.expect("both samples arrived");
    assert_eq!(
        snap,
        VehicleSnapshot {
            roll_bits: 0.1f32.to_bits(),
            pitch_bits: 0.2f32.to_bits(),
            yaw_bits: 0.3f32.to_bits(),
            lat_e7: 474608000,
            lon_e7: 85037000,
            alt_mm: 125000,
        }
    );

    // The scaled integers convert to the expected display units.
    assert_eq!(f32::from_bits(snap.roll_bits), 0.1);
    assert_eq!(snap.lat_e7 as f64 / 1e7, 47.4608);
    assert_eq!(snap.lon_e7 as f64 / 1e7, 8.5037);
    assert_eq!(snap.alt_mm as f64 / 1000.0, 125.0);
}

#[test]
fn snapshot_tracks_newest_sample() {
    let mut st = BridgeState::new();
    st.step(BridgeEvent::Attitude(attitude()));
    st.step(BridgeEvent::Position(position()));

    let newer = AttitudeSample {
        roll_bits: 0.5f32.to_bits(),
        pitch_bits: 0.6f32.to_bits(),
        yaw_bits: 0.7f32.to_bits(),
    };
    st.step(BridgeEvent::Attitude(newer));
    let snap = st.snapshot.expect("snapshot stays present");
    assert_eq!(snap.roll_bits, 0.5f32.to_bits());
    assert_eq!(snap.lat_e7, 474608000);
}

#[test]
fn position_alone_gives_no_snapshot() {
    let mut st = BridgeState::new();
    st.step(BridgeEvent::Position(position()));
    assert!(st.snapshot.is_none());
    st.step(BridgeEvent::Position(position()));
    assert!(st.snapshot.is_none());
}
