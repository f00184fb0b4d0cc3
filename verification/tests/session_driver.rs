use ping_viewer_next::broadcast::FrameChannel;
use ping_viewer_next::codec::serialize_frame;
use ping_viewer_next::codec::Frame;
use ping_viewer_next::errors::ErrorKind;
use ping_viewer_next::ids::DeviceKind;
use ping_viewer_next::session::{
    session_handle_frame, PendingRequest,
    decide_request, disable_continuous, enable_continuous, next_angle, probe_step, reply_matches,
    scan_on_reply, scan_on_timeout, specialize_kind, process_incoming, RequestDecision, ScanConfig,
    ScanState, SessionCounters, SessionPhase,
};

#[test]
fn timeout_boundary_is_exact() {
    assert_eq!(decide_request(1000, true), RequestDecision::GiveUpTimeout);
    assert_eq!(decide_request(1000, false), RequestDecision::GiveUpTimeout);
    assert_eq!(decide_request(999, true), RequestDecision::Complete);
    assert_eq!(decide_request(999, false), RequestDecision::KeepWaiting);
    assert_eq!(decide_request(0, false), RequestDecision::KeepWaiting);
}

#[test]
fn reply_matching_accepts_expected_and_nack() {
    assert!(reply_matches(1300, 1300));
    assert!(reply_matches(1300, 2));
    assert!(!reply_matches(1300, 1211));
}

#[test]
fn probe_identifies_or_closes() {
    let probing = SessionPhase::Probing { attempts: 0 };
    assert_eq!(
        probe_step(probing, Some(DeviceKind::Ping360)),
        SessionPhase::Idle {
            kind: DeviceKind::Ping360
        }
    );
    let one = probe_step(probing, None);
    assert_eq!(one, SessionPhase::Probing { attempts: 1 });
    let two = probe_step(one, None);
    assert_eq!(two, SessionPhase::Probing { attempts: 2 });
    let closed = probe_step(two, None);
    assert_eq!(closed, SessionPhase::Closed);
}

#[test]
fn specialized_kind_wins() {
    assert_eq!(
        specialize_kind(DeviceKind::Common, DeviceKind::Ping360),
        DeviceKind::Ping360
    );
    assert_eq!(
        specialize_kind(DeviceKind::Ping1D, DeviceKind::Common),
        DeviceKind::Ping1D
    );
}

#[test]
fn continuous_mode_needs_recognized_kind() {
    let idle = SessionPhase::Idle {
        kind: DeviceKind::Ping360,
    };
    let streaming = enable_continuous(idle).expect("imaging sonar should stream");
    assert_eq!(
        streaming,
        SessionPhase::Streaming {
            kind: DeviceKind::Ping360
        }
    );
    let back = disable_continuous(streaming).expect("stop streaming should succeed");
    assert_eq!(back, idle);

    let common = SessionPhase::Idle {
        kind: DeviceKind::Common,
    };
    let err = enable_continuous(common).unwrap_err();
    assert_eq!(err.kind, ErrorKind::UnsupportedKind);
}

#[test]
fn scan_steps_wrap_the_circle() {
    let cfg = ScanConfig {
        num_steps: 2,
        start_angle: 0,
        stop_angle: 399,
    };
    // The session emits requests at angles 0, 2, 4, ..., 398, 0, 2, ...
    let mut angle = 0u16;
    let mut seen = vec![angle];
    for _ in 0..200 {
        angle = next_angle(&cfg, angle);
        seen.push(angle);
    }
    assert_eq!(seen[0..5], [0, 2, 4, 6, 8]);
    assert_eq!(seen[199], 398);
    assert_eq!(seen[200], 0);
    assert_eq!(next_angle(&cfg, 398), 0);
}

#[test]
fn missed_scan_reply_retransmits_then_skips() {
    let cfg = ScanConfig {
        num_steps: 2,
        start_angle: 0,
        stop_angle: 399,
    };
    let mut st = ScanState {
        angle: 100,
        retries: 0,
    };
    for expected_retries in 1..=3u8 {
        st = scan_on_timeout(&cfg, st);
        assert_eq!(st.angle, 100);
        assert_eq!(st.retries, expected_retries);
    }
    // Third retransmission missed too: the step is skipped.
    st = scan_on_timeout(&cfg, st);
    assert_eq!(st.angle, 102);
    assert_eq!(st.retries, 0);
}

#[test]
fn scan_trusts_reported_angle() {
    let cfg = ScanConfig {
        num_steps: 2,
        start_angle: 0,
        stop_angle: 399,
    };
    let st = scan_on_reply(&cfg, 200);
    assert_eq!(st, ScanState { angle: 202, retries: 0 });
}

fn valid_frame_bytes() -> Vec<u8> {
    serialize_frame(&Frame {
        message_id: 1300,
        src_device_id: 1,
        dst_device_id: 0,
        payload: vec![0; 26],
    })
}

#[test]
fn bad_checksum_dropped_silently() {
    let mut chan = FrameChannel::new(100);
    let mut counters = SessionCounters {
        rx_crc_errors: 0,
        rx_framing_errors: 0,
    };
    let mut corrupted = valid_frame_bytes();
    let last = corrupted.len() - 1;
    corrupted[last] = corrupted[last].wrapping_add(1);

    let r = process_incoming(&mut chan, &mut counters, corrupted);
    assert!(r.is_none());
    assert_eq!(chan.buffer.len(), 0);
    assert_eq!(counters.rx_crc_errors, 1);
    assert_eq!(counters.rx_framing_errors, 0);
}

#[test]
fn valid_frame_broadcast_and_returned() {
    let mut chan = FrameChannel::new(100);
    let mut counters = SessionCounters {
        rx_crc_errors: 0,
        rx_framing_errors: 0,
    };
    let bytes = valid_frame_bytes();
    let frame = process_incoming(&mut chan, &mut counters, bytes.clone())
        .expect("a valid frame should be accepted");
    assert_eq!(frame.message_id, 1300);
    assert_eq!(chan.buffer.len(), 1);
    assert_eq!(chan.buffer[0], bytes);
    assert_eq!(counters.rx_crc_errors, 0);
    assert_eq!(counters.rx_framing_errors, 0);
}

#[test]
fn framing_faults_counted_separately() {
    let mut chan = FrameChannel::new(100);
    let mut counters = SessionCounters {
        rx_crc_errors: 0,
        rx_framing_errors: 0,
    };
    let r = process_incoming(&mut chan, &mut counters, vec![0x13, 0x37]);
    assert!(r.is_none());
    assert_eq!(counters.rx_crc_errors, 0);
    assert_eq!(counters.rx_framing_errors, 1);
    assert_eq!(chan.buffer.len(), 0);
}

#[test]
fn unrelated_frames_leave_request_pending() {
    let pending = Some(PendingRequest {
        expected_id: 1300,
        elapsed_ms: 10,
    });
    let unrelated = Frame {
        message_id: 1211,
        src_device_id: 1,
        dst_device_id: 0,
        payload: vec![],
    };
    assert_eq!(session_handle_frame(pending, &unrelated), (pending, false));

    let reply = Frame {
        message_id: 1300,
        src_device_id: 1,
        dst_device_id: 0,
        payload: vec![],
    };
    assert_eq!(session_handle_frame(pending, &reply), (None, true));

    let nack = Frame {
        message_id: 2,
        src_device_id: 1,
        dst_device_id: 0,
        payload: vec![],
    };
    assert_eq!(session_handle_frame(pending, &nack), (None, true));
    assert_eq!(session_handle_frame(None, &reply), (None, false));
}
