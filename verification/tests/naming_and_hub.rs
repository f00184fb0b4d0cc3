use ping_viewer_next::errors::{ErrorKind, ManagerError};
use ping_viewer_next::files::{
    file_name_is_safe, filter_recordings, name_is_mcap, post_option_command, McapFileInfo,
    RecordingsManagerPostOptionsV1,
};
use ping_viewer_next::ids::{device_id_string, DeviceId, TransportSpec, transports_equal};
use ping_viewer_next::recording::RecordingManagerCommand;
use ping_viewer_next::timefmt::{format_timestamp, utc_now_parts, TimeParts};
use ping_viewer_next::wshub::WebsocketManager;
use chrono::TimeZone;
use ping_viewer_next::recording::{topic_ping1d, topic_ping360, topic_vehicle_data};
use ping_viewer_next::files::{content_disposition, sort_by_modified_desc};
use ping_viewer_next::wshub::filter_or_default;

#[test]
fn device_id_renders_like_uuid() {
    let value: u128 = 0x123e4567_e89b_12d3_a456_426614174000;
    let ours = device_id_string(DeviceId { value });
    let reference = uuid::Uuid::from_u128(value).to_string();
    assert_eq!(ours, reference);
    assert_eq!(ours, "123e4567-e89b-12d3-a456-426614174000");

    let zero = device_id_string(DeviceId { value: 0 });
    assert_eq!(zero, uuid::Uuid::from_u128(0).to_string());
}

#[test]
fn timestamp_renders_like_clock_library() {
    let t = TimeParts {
        year: 2024,
        month: 1,
        day: 2,
        hour: 3,
        minute: 4,
        second: 5,
    };
    let ours = format_timestamp(&t);
    let reference = chrono::Utc
        .with_ymd_and_hms(2024, 1, 2, 3, 4, 5)
        .unwrap()
        .format("%Y%m%d_%H%M%S")
        .to_string();
    assert_eq!(ours, reference);
    assert_eq!(ours, "20240102_030405");
}

#[test]
fn clock_fields_stay_in_range() {
    let now = utc_now_parts();
    assert!((1..=12).contains(&now.month));
    assert!((1..=31).contains(&now.day));
    assert!(now.hour <= 23);
    assert!(now.minute <= 59);
    assert!(now.second <= 59);
    assert!(now.year <= 9999);
}

#[test]
fn traversal_names_rejected() {
    assert!(!file_name_is_safe("../etc/passwd"));
    assert!(!file_name_is_safe(".."));
    assert!(!file_name_is_safe("a..b"));
    assert!(!file_name_is_safe("dir/file.mcap"));
    assert!(!file_name_is_safe("dir\\file.mcap"));
    assert!(!file_name_is_safe(""));
    assert!(file_name_is_safe("device_0_20240102.mcap"));
    assert!(file_name_is_safe("a.b.mcap"));
}

#[test]
fn listing_filters_to_container_files() {
    let entries = vec![
        McapFileInfo {
            file_name: String::from("device_a.mcap"),
            file_size: 100,
            modified: String::from("2024-01-02T03:04:05+00:00"),
        },
        McapFileInfo {
            file_name: String::from("notes.txt"),
            file_size: 5,
            modified: String::from("2024-01-02T03:04:06+00:00"),
        },
    ];
    let plain = filter_recordings(&entries, false);
    assert_eq!(plain.len(), 1);
    assert_eq!(plain[0].file_name, "device_a.mcap");

    let detailed = filter_recordings(&entries, true);
    assert_eq!(detailed.len(), 2);

    assert!(name_is_mcap("x.mcap"));
    assert!(!name_is_mcap("x.mcap.txt"));
    assert!(!name_is_mcap("mcap"));
}

#[test]
fn post_options_map_to_commands() {
    let d = DeviceId { value: 3 };
    assert_eq!(
        post_option_command(RecordingsManagerPostOptionsV1::StartRecording, d),
        RecordingManagerCommand::StartRecording(d)
    );
    assert_eq!(
        post_option_command(RecordingsManagerPostOptionsV1::StopRecording, d),
        RecordingManagerCommand::StopRecording(d)
    );
    assert_eq!(
        post_option_command(RecordingsManagerPostOptionsV1::GetRecordingStatus, d),
        RecordingManagerCommand::GetRecordingStatus(d)
    );
}

#[test]
fn transports_compare_by_contents() {
    let a = TransportSpec::Serial {
        path: String::from("/dev/ttyUSB0"),
        baud: 115200,
    };
    let b = TransportSpec::Serial {
        path: String::from("/dev/ttyUSB0"),
        baud: 115200,
    };
    let c = TransportSpec::Serial {
        path: String::from("/dev/ttyUSB0"),
        baud: 9600,
    };
    let d = TransportSpec::Udp {
        addr: String::from("192.168.1.2"),
        port: 9092,
    };
    assert!(transports_equal(&a, &b));
    assert!(!transports_equal(&a, &c));
    assert!(!transports_equal(&a, &d));
    assert!(transports_equal(&TransportSpec::Auto, &TransportSpec::Auto));
}

#[test]
fn error_carries_kind_and_detail() {
    let e = ManagerError::new(ErrorKind::Upstream, String::from("channel closed"));
    assert_eq!(e.kind(), ErrorKind::Upstream);
    assert_eq!(e.detail, "channel closed");
}

#[test]
fn hub_delivers_by_filter_and_device() {
    let mut hub = WebsocketManager::new();
    let d1 = DeviceId { value: 1 };
    let d2 = DeviceId { value: 2 };

    let all = hub.register(String::from(".*"), None);
    let only_d1 = hub.register(String::from(".*"), Some(d1));
    let status_only = hub.register(String::from("DeviceInfo"), None);
    let broken = hub.register(String::from("("), None);
    assert_eq!(vec![all, only_d1, status_only, broken], vec![0, 1, 2, 3]);

    let targets = hub.delivery_targets("some text", Some(d2));
    // Client 0 matches everything; client 1 is bound to another device;
    // client 2's filter does not match; client 3's pattern never compiled.
    assert_eq!(targets, vec![0]);

    let targets = hub.delivery_targets("DeviceInfo update", Some(d1));
    assert_eq!(targets, vec![0, 1, 2]);

    hub.unregister(all);
    let targets = hub.delivery_targets("DeviceInfo update", Some(d1));
    assert_eq!(
        targets
            .iter()
            .map(|i| hub.clients[*i].client_id)
            .collect::<Vec<_>>(),
        vec![1, 2]
    );
}

#[test]
fn topics_carry_device_id() {
    let id = DeviceId {
        value: 0x123e4567_e89b_12d3_a456_426614174000,
    };
    assert_eq!(
        topic_ping1d(id),
        "/device_123e4567-e89b-12d3-a456-426614174000/Ping1D"
    );
    assert_eq!(
        topic_ping360(id),
        "/device_123e4567-e89b-12d3-a456-426614174000/Ping360"
    );
    assert_eq!(
        topic_vehicle_data(id),
        "/device_123e4567-e89b-12d3-a456-426614174000/VehicleData"
    );
}

#[test]
fn disposition_header_renders() {
    assert_eq!(
        content_disposition(true, "a.mcap"),
        "inline; filename=\"a.mcap\""
    );
    assert_eq!(
        content_disposition(false, "a.mcap"),
        "attachment; filename=\"a.mcap\""
    );
}

#[test]
fn default_filter_matches_everything() {
    assert_eq!(filter_or_default(None), ".*");
    assert_eq!(
        filter_or_default(Some(String::from("DeviceInfo"))),
        "DeviceInfo"
    );
}

#[test]
fn listing_sorts_newest_first() {
    let entry = |name: &str, modified: &str| McapFileInfo {
        file_name: String::from(name),
        file_size: 1,
        modified: String::from(modified),
    };
    let entries = vec![
        entry("b.mcap", "2024-01-02T03:04:06+00:00"),
        entry("c.mcap", "2024-01-03T00:00:00+00:00"),
        entry("a.mcap", "2024-01-02T03:04:05+00:00"),
    ];
    let sorted = sort_by_modified_desc(entries);
    let names: Vec<&str> = sorted.iter().map(|e| e.file_name.as_str()).collect();
    assert_eq!(names, vec!["c.mcap", "b.mcap", "a.mcap"]);
}
