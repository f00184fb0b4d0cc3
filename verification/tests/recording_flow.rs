use ping_viewer_next::errors::ErrorKind;
use ping_viewer_next::ids::{DeviceId, DeviceKind};
use ping_viewer_next::messages::{ParsedMessage, Ping1DProfile, Ping360DeviceData};
use ping_viewer_next::recording::{
    recording_file_name, worker_records, Answer, CommandAction, LogRecord,
    RecordingManagerCommand, RecordingManager,
};
use ping_viewer_next::timefmt::TimeParts;
use ping_viewer_next::vehicle::VehicleSnapshot;

fn device() -> DeviceId {
    DeviceId {
        value: 0x123e4567_e89b_12d3_a456_426614174000,
    }
}

fn start_time() -> TimeParts {
    TimeParts {
        year: 2024,
        month: 1,
        day: 2,
        hour: 3,
        minute: 4,
        second: 5,
    }
}

fn manager() -> RecordingManager<i32> {
    RecordingManager::new(String::from("recordings"))
}

#[test]
fn start_stop_lifecycle() {
    let mut st = manager();
    let d = device();

    let session = st
        .start_recording(d, DeviceKind::Ping360, start_time(), 41)
        .expect("first start should succeed");
    assert_eq!(session.device_id, d);
    assert!(session.is_active);
    assert_eq!(session.device_type, DeviceKind::Ping360);
    assert_eq!(
        session.file_path,
        "recordings/device_123e4567-e89b-12d3-a456-426614174000_20240102_030405.mcap"
    );

    let again = st.start_recording(d, DeviceKind::Ping360, start_time(), 42);
    assert_eq!(again.unwrap_err().kind, ErrorKind::Busy);

    let (stopped, writer) = st.stop_recording(d).expect("stop should succeed");
    assert!(!stopped.is_active);
    assert_eq!(writer, 41);

    let second_stop = st.stop_recording(d);
    assert_eq!(second_stop.unwrap_err().kind, ErrorKind::NotFound);
}

#[test]
fn stop_without_session_is_not_found() {
    let mut st = manager();
    let err = st.stop_recording(device()).unwrap_err();
    assert_eq!(err.kind, ErrorKind::NotFound);
}

#[test]
fn status_queries_follow_registry() {
    let mut st = manager();
    let d = device();
    assert!(st.get_recording_status(d).is_none());
    assert!(st.get_all_recording_status().is_empty());

    st.start_recording(d, DeviceKind::Ping1D, start_time(), 1)
        .expect("start should succeed");
    let status = st.get_recording_status(d).expect("status should exist");
    assert!(status.is_active);
    assert_eq!(st.get_all_recording_status().len(), 1);

    st.stop_recording(d).expect("stop should succeed");
    let status = st.get_recording_status(d).expect("entry drains later");
    assert!(!status.is_active);
}

#[test]
fn worker_drains_stopped_entry() {
    let mut st = manager();
    let d = device();
    st.start_recording(d, DeviceKind::Ping1D, start_time(), 1)
        .expect("start should succeed");
    assert!(st.worker_poll(d));

    st.stop_recording(d).expect("stop should succeed");
    assert!(!st.worker_poll(d));
    assert!(st.get_recording_status(d).is_none());
    assert!(!st.worker_poll(d));
}

#[test]
fn file_name_carries_id_and_time() {
    let name = recording_file_name(device(), &start_time());
    assert_eq!(
        name,
        "device_123e4567-e89b-12d3-a456-426614174000_20240102_030405.mcap"
    );
}

fn sample_snapshot() -> VehicleSnapshot {
    VehicleSnapshot {
        roll_bits: 0x3dcccccd,
        pitch_bits: 0x3e4ccccd,
        yaw_bits: 0x3e99999a,
        lat_e7: 474608000,
        lon_e7: 85037000,
        alt_mm: 125000,
    }
}

fn sample_device_data() -> Ping360DeviceData {
    Ping360DeviceData {
        mode: 1,
        gain_setting: 0,
        angle: 42,
        transmit_duration: 500,
        sample_period: 80,
        transmit_frequency: 740,
        number_of_samples: 3,
        data_length: 3,
        data: vec![10, 20, 30],
    }
}

#[test]
fn worker_normalizes_single_step_replies() {
    let msg = ParsedMessage::DeviceData(sample_device_data());
    let records = worker_records(&msg, &None);
    assert_eq!(records.len(), 1);
    match &records[0] {
        LogRecord::SonarPing360(a) => {
            assert_eq!(a.angle, 42);
            assert_eq!(a.data, vec![10, 20, 30]);
            assert_eq!(a.number_of_samples, 3);
            assert_eq!(
                (a.start_angle, a.stop_angle, a.num_steps, a.delay),
                (0, 399, 1, 0)
            );
            assert_eq!(a.data_length, 3);
        }
        other => panic!("expected an imaging record, got {:?}", other),
    }
}

#[test]
fn worker_without_snapshot_logs_only_sonar() {
    let profile = Ping1DProfile {
        distance: 1,
        confidence: 2,
        transmit_duration: 3,
        ping_number: 4,
        scan_start: 5,
        scan_length: 6,
        gain_setting: 7,
        profile_data_length: 2,
        profile_data: vec![8, 9],
    };
    let records = worker_records(&ParsedMessage::Profile(profile), &None);
    assert_eq!(records.len(), 1);
    assert!(matches!(records[0], LogRecord::SonarPing1D(_)));
}

#[test]
fn worker_appends_snapshot_after_sonar() {
    let msg = ParsedMessage::DeviceData(sample_device_data());
    let records = worker_records(&msg, &Some(sample_snapshot()));
    assert_eq!(records.len(), 2);
    match &records[1] {
        LogRecord::Vehicle(v) => assert_eq!(*v, sample_snapshot()),
        other => panic!("expected a vehicle record, got {:?}", other),
    }
}

#[test]
fn worker_ignores_unrelated_messages() {
    let records = worker_records(&ParsedMessage::Other(1211), &Some(sample_snapshot()));
    assert!(records.is_empty());
}

#[test]
fn command_dispatch_matches_mailbox() {
    let mut st = manager();
    let d = device();
    st.start_recording(d, DeviceKind::Ping1D, start_time(), 1)
        .expect("start should succeed");

    match st.plan_command(&RecordingManagerCommand::StartRecording(d)) {
        CommandAction::Start(id) => assert_eq!(id, d),
        other => panic!("expected a start action, got {:?}", other),
    }
    match st.plan_command(&RecordingManagerCommand::StopRecording(d)) {
        CommandAction::Stop(id) => assert_eq!(id, d),
        other => panic!("expected a stop action, got {:?}", other),
    }
    match st.plan_command(&RecordingManagerCommand::GetSubscriber) {
        CommandAction::Subscribe => {}
        other => panic!("expected a subscribe action, got {:?}", other),
    }
    match st.plan_command(&RecordingManagerCommand::GetRecordingStatus(d)) {
        CommandAction::Query(Answer::RecordingStatus(Some(s))) => assert_eq!(s.device_id, d),
        other => panic!("expected a status answer, got {:?}", other),
    }
    match st.plan_command(&RecordingManagerCommand::GetAllRecordingStatus) {
        CommandAction::Query(Answer::AllRecordingStatus(v)) => assert_eq!(v.len(), 1),
        other => panic!("expected a status list, got {:?}", other),
    }
}
