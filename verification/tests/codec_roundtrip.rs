use ping_viewer_next::codec::{parse_frame, serialize_frame, DecodeError, Frame};
use ping_viewer_next::messages::{
    classify_frame, decode_auto_device_data, decode_device_data, decode_profile, encode_profile,
    continuous_start_command, continuous_stop_command, encode_auto_device_data,
    synthesize_auto_device_data, transducer_command, ParsedMessage, Ping1DProfile,
    Ping360DeviceData, TransducerSettings,
};

fn sample_profile() -> Ping1DProfile {
    Ping1DProfile {
        distance: 12345,
        confidence: 92,
        transmit_duration: 40,
        ping_number: 7,
        scan_start: 100,
        scan_length: 5000,
        gain_setting: 2,
        profile_data_length: 4,
        profile_data: vec![1, 2, 3, 4],
    }
}

#[test]
fn parse_documented_frame() {
    // The example frame of the protocol documentation: a general request
    // for message id 5, carried in message id 6.
    let bytes: Vec<u8> = vec![
        0x42, 0x52, 0x02, 0x00, 0x06, 0x00, 0x00, 0x00, 0x05, 0x00, 0xa1, 0x00,
    ];
    let frame = parse_frame(&bytes).expect("frame should parse");
    assert_eq!(frame.message_id, 6);
    assert_eq!(frame.src_device_id, 0);
    assert_eq!(frame.dst_device_id, 0);
    assert_eq!(frame.payload, vec![0x05, 0x00]);
    assert_eq!(serialize_frame(&frame), bytes);
}

#[test]
fn parse_rejects_bad_start() {
    let bytes: Vec<u8> = vec![0x41, 0x52, 0x00, 0x00, 0x06, 0x00, 0x00, 0x00, 0x00, 0x00];
    assert_eq!(parse_frame(&bytes).unwrap_err(), DecodeError::InvalidStart);
}

#[test]
fn parse_rejects_short_input() {
    let bytes: Vec<u8> = vec![0x42, 0x52, 0x02, 0x00];
    assert_eq!(parse_frame(&bytes).unwrap_err(), DecodeError::Incomplete);
}

#[test]
fn parse_rejects_length_mismatch() {
    let bytes: Vec<u8> = vec![
        0x42, 0x52, 0x05, 0x00, 0x06, 0x00, 0x00, 0x00, 0x05, 0x00, 0xa1, 0x00,
    ];
    assert_eq!(parse_frame(&bytes).unwrap_err(), DecodeError::Incomplete);
}

#[test]
fn parse_rejects_bad_checksum() {
    let mut bytes: Vec<u8> = vec![
        0x42, 0x52, 0x02, 0x00, 0x06, 0x00, 0x00, 0x00, 0x05, 0x00, 0xa1, 0x00,
    ];
    bytes[10] = 0xa2;
    assert_eq!(parse_frame(&bytes).unwrap_err(), DecodeError::BadChecksum);
}

#[test]
fn frame_serialize_parse_round_trip() {
    let frame = Frame {
        message_id: 1300,
        src_device_id: 1,
        dst_device_id: 0,
        payload: encode_profile(&sample_profile()),
    };
    let bytes = serialize_frame(&frame);
    let back = parse_frame(&bytes).expect("round trip should parse");
    assert_eq!(back.message_id, frame.message_id);
    assert_eq!(back.src_device_id, frame.src_device_id);
    assert_eq!(back.dst_device_id, frame.dst_device_id);
    assert_eq!(back.payload, frame.payload);
}

#[test]
fn profile_payload_round_trip() {
    let p = sample_profile();
    let bytes = encode_profile(&p);
    assert_eq!(bytes.len(), 30);
    let q = decode_profile(&bytes).expect("profile should decode");
    assert_eq!(q.distance, p.distance);
    assert_eq!(q.confidence, p.confidence);
    assert_eq!(q.transmit_duration, p.transmit_duration);
    assert_eq!(q.ping_number, p.ping_number);
    assert_eq!(q.scan_start, p.scan_start);
    assert_eq!(q.scan_length, p.scan_length);
    assert_eq!(q.gain_setting, p.gain_setting);
    assert_eq!(q.profile_data_length, p.profile_data_length);
    assert_eq!(q.profile_data, p.profile_data);
    assert_eq!(encode_profile(&q), bytes);
}

#[test]
fn profile_decode_rejects_short_payload() {
    let bytes: Vec<u8> = vec![0; 25];
    assert!(decode_profile(&bytes).is_none());
    assert!(decode_device_data(&vec![0; 13]).is_none());
    assert!(decode_auto_device_data(&vec![0; 19]).is_none());
}

#[test]
fn classify_by_message_id() {
    let profile_frame = Frame {
        message_id: 1300,
        src_device_id: 1,
        dst_device_id: 0,
        payload: encode_profile(&sample_profile()),
    };
    match classify_frame(&profile_frame) {
        ParsedMessage::Profile(p) => assert_eq!(p.distance, 12345),
        other => panic!("expected a profile, got {:?}", other),
    }
    let unknown_frame = Frame {
        message_id: 1211,
        src_device_id: 1,
        dst_device_id: 0,
        payload: vec![0; 5],
    };
    match classify_frame(&unknown_frame) {
        ParsedMessage::Other(id) => assert_eq!(id, 1211),
        other => panic!("expected an ignored message, got {:?}", other),
    }
}

#[test]
fn synthesis_preserves_samples() {
    let d = Ping360DeviceData {
        mode: 1,
        gain_setting: 2,
        angle: 133,
        transmit_duration: 500,
        sample_period: 80,
        transmit_frequency: 740,
        number_of_samples: 4,
        data_length: 4,
        data: vec![9, 8, 7, 6],
    };
    let a = synthesize_auto_device_data(&d);
    assert_eq!(a.data, vec![9, 8, 7, 6]);
    assert_eq!(a.number_of_samples, 4);
    assert_eq!(a.angle, 133);
    assert_eq!(a.start_angle, 0);
    assert_eq!(a.stop_angle, 399);
    assert_eq!(a.num_steps, 1);
    assert_eq!(a.delay, 0);
    assert_eq!(a.data_length, 4);
    assert_eq!(a.mode, 1);
    assert_eq!(a.gain_setting, 2);
    assert_eq!(a.transmit_duration, 500);
    assert_eq!(a.sample_period, 80);
    assert_eq!(a.transmit_frequency, 740);
}

#[test]
fn codec_agrees_with_device_library() {
    // Cross-check against the device protocol library: its serializer and
    // ours must produce and accept the same bytes.
    let ours = sample_profile();
    let lib_profile = bluerobotics_ping::ping1d::ProfileStruct {
        distance: ours.distance,
        confidence: ours.confidence,
        transmit_duration: ours.transmit_duration,
        ping_number: ours.ping_number,
        scan_start: ours.scan_start,
        scan_length: ours.scan_length,
        gain_setting: ours.gain_setting,
        profile_data_length: ours.profile_data_length,
        profile_data: ours.profile_data.clone(),
    };
    let mut message = bluerobotics_ping::message::ProtocolMessage::new();
    message.set_message(&bluerobotics_ping::ping1d::Messages::Profile(
        lib_profile.clone(),
    ));
    message.set_src_device_id(1);
    let lib_bytes = message.serialized();

    let frame = parse_frame(&lib_bytes).expect("library bytes should parse");
    assert_eq!(frame.message_id, 1300);
    match classify_frame(&frame) {
        ParsedMessage::Profile(p) => {
            assert_eq!(p.distance, lib_profile.distance);
            assert_eq!(p.profile_data, lib_profile.profile_data);
        }
        other => panic!("expected a profile, got {:?}", other),
    }
    assert_eq!(serialize_frame(&frame), lib_bytes);

    let our_frame = Frame {
        message_id: 1300,
        src_device_id: 1,
        dst_device_id: 0,
        payload: encode_profile(&ours),
    };
    let our_bytes = serialize_frame(&our_frame);
    let decoded = bluerobotics_ping::Messages::try_from(&our_bytes)
        .expect("the device library should accept our bytes");
    match decoded {
        bluerobotics_ping::Messages::Ping1D(bluerobotics_ping::ping1d::Messages::Profile(p)) => {
            assert_eq!(p, lib_profile);
        }
        other => panic!("expected a profile, got {:?}", other),
    }
}

#[test]
fn auto_device_data_payload_round_trip() {
    let d = Ping360DeviceData {
        mode: 1,
        gain_setting: 2,
        angle: 133,
        transmit_duration: 500,
        sample_period: 80,
        transmit_frequency: 740,
        number_of_samples: 4,
        data_length: 4,
        data: vec![9, 8, 7, 6],
    };
    let a = synthesize_auto_device_data(&d);
    let bytes = encode_auto_device_data(&a);
    assert_eq!(bytes.len(), 24);
    let back = decode_auto_device_data(&bytes).expect("auto-scan record should decode");
    assert_eq!(back.angle, a.angle);
    assert_eq!(back.data, a.data);
    assert_eq!(back.start_angle, 0);
    assert_eq!(back.stop_angle, 399);
    assert_eq!(back.num_steps, 1);
    assert_eq!(back.data_length, 4);
    assert_eq!(encode_auto_device_data(&back), bytes);
}

#[test]
fn scan_command_builders_match_wire_layout() {
    let settings = TransducerSettings {
        mode: 1,
        gain_setting: 0,
        transmit_duration: 500,
        sample_period: 80,
        transmit_frequency: 740,
        number_of_samples: 200,
    };
    let cmd = transducer_command(&settings, 102);
    assert_eq!(cmd.message_id, 2601);
    assert_eq!(
        cmd.payload,
        vec![1, 0, 102, 0, 244, 1, 80, 0, 228, 2, 200, 0, 1, 0]
    );
    // The device library accepts the built command whole.
    let bytes = serialize_frame(&cmd);
    let decoded =
        bluerobotics_ping::Messages::try_from(&bytes).expect("command frame should decode");
    match decoded {
        bluerobotics_ping::Messages::Ping360(
            bluerobotics_ping::ping360::Messages::Transducer(t),
        ) => {
            assert_eq!(t.angle, 102);
            assert_eq!(t.transmit_duration, 500);
            assert_eq!(t.transmit, 1);
        }
        other => panic!("expected a transducer command, got {:?}", other),
    }

    let start = continuous_start_command();
    assert_eq!(start.message_id, 1400);
    assert_eq!(start.payload, vec![0x14, 0x05]);
    let stop = continuous_stop_command();
    assert_eq!(stop.message_id, 1401);
    assert_eq!(stop.payload, vec![0x14, 0x05]);
}
