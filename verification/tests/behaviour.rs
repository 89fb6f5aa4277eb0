use ratablet::args::{normalize_host, Args};
use ratablet::device::{profile_for, DeviceInfo};
use ratablet::pen::{read_event, InputEvent, PenState};
use ratablet::retry::{is_auth_error, same_error_type};
use ratablet::rotation::{format_rotation, parse_rotation, RotationMode};
use ratablet::ssh::ssh_command;

const KNOWN_HOSTS_SINK: &str = "/dev/null";

fn args() -> Args {
    Args::default()
}

#[test]
fn persisted_rotation_values_round_trip() {
    for mode in [
        RotationMode::Landscape,
        RotationMode::Auto,
        RotationMode::Fixed(0),
        RotationMode::Fixed(90),
        RotationMode::Fixed(180),
        RotationMode::Fixed(270),
    ] {
        assert_eq!(parse_rotation(format_rotation(mode)), Some(mode));
    }
}

#[test]
fn recognizes_every_supported_model_family() {
    assert_eq!(profile_for("reMarkable 1.0"), Some((20967, 15725, 4095)));
    assert_eq!(profile_for("reMarkable 2.0"), Some((20967, 15725, 4095)));
    assert_eq!(
        profile_for("reMarkable Ferrari"),
        Some((11180, 15340, 4096))
    );
    assert_eq!(profile_for("reMarkable Chiappa"), Some((6760, 11960, 4096)));
    assert_eq!(profile_for("reMarkable Tatsu"), Some((9620, 13000, 4096)));
}

#[test]
fn parses_32_and_64_bit_evdev_records() {
    for (size, offset) in [(16, 8), (24, 16)] {
        let mut bytes = vec![0u8; size];
        bytes[offset..offset + 2].copy_from_slice(&3u16.to_le_bytes());
        bytes[offset + 2..offset + 4].copy_from_slice(&24u16.to_le_bytes());
        bytes[offset + 4..offset + 8].copy_from_slice(&2048i32.to_le_bytes());
        assert_eq!(
            read_event(bytes.as_slice(), size).unwrap(),
            Some(InputEvent {
                kind: 3,
                code: 24,
                value: 2048
            })
        );
    }
}

#[test]
fn header_allows_unknown_hardware_with_explicit_ranges() {
    let mut args = args();
    args.max_x = Some(100);
    args.max_y = Some(200);
    args.max_pressure = Some(1024);
    let info =
        DeviceInfo::from_header("RAT1\t64\t/dev/input/event9\tfuture model\n", &args).unwrap();
    assert_eq!(
        (info.max_x, info.max_y, info.max_pressure),
        (100, 200, 1024)
    );
}

#[test]
fn rotates_coordinates_and_ranges() {
    let state = PenState {
        x: 25,
        y: 80,
        ..PenState::default()
    };
    let rotated = state.transformed(100, 200, 200, 100, 90);
    assert_eq!((rotated.x, rotated.y), (120, 25));
    let rm2 = DeviceInfo::from_header("RAT1\t32\t/dev/input/event1\treMarkable 2.0\n", &args())
        .unwrap();
    assert_eq!(rm2.landscape_rotation(), 0);
    let rmpp =
        DeviceInfo::from_header("RAT1\t64\t/dev/input/event2\treMarkable Ferrari\n", &args())
            .unwrap();
    assert_eq!(rmpp.landscape_rotation(), 90);
    assert!(rmpp.supports_auto_rotation());
}

#[test]
fn normalizes_device_ip_to_root_ssh_target() {
    assert_eq!(normalize_host("10.11.99.1").unwrap(), "root@10.11.99.1");
    assert_eq!(normalize_host("admin@rm.local").unwrap(), "admin@rm.local");
    assert!(normalize_host("root@bad host").is_err());
    assert!(normalize_host("root@").is_err());
}

#[test]
fn ssh_skips_known_hosts_uses_keys_first_and_internal_askpass() {
    let command = ssh_command(
        &args(),
        false,
        Some("secret"),
        12345,
        "data-token",
        KNOWN_HOSTS_SINK,
        "/usr/bin/ratablet",
    );
    let arguments: Vec<_> = command.args.iter().map(|value| value.as_str()).collect();
    assert!(arguments
        .iter()
        .any(|value| *value == "StrictHostKeyChecking=no"));
    for option in ["UpdateHostKeys=no", "CheckHostIP=no"] {
        assert!(arguments.iter().any(|value| *value == option));
    }
    assert!(arguments
        .iter()
        .any(|value| *value == format!("UserKnownHostsFile={KNOWN_HOSTS_SINK}")));
    assert!(arguments
        .iter()
        .any(|value| *value == format!("GlobalKnownHostsFile={KNOWN_HOSTS_SINK}")));
    assert!(arguments.iter().any(
        |value| *value == "PreferredAuthentications=publickey,keyboard-interactive,password"
    ));
    let environment = &command.envs;
    assert!(environment
        .iter()
        .any(|(key, value)| key == "SSH_ASKPASS_REQUIRE" && value == "force"));
    assert!(environment
        .iter()
        .any(|(key, value)| key == "RATABLET_PASSWORD" && value == "secret"));
    assert!(arguments
        .iter()
        .any(|value| value.contains("RAT_PORT='12345' RAT_TOKEN='data-token'")));
}

#[test]
fn recognizes_ssh_authentication_failures() {
    assert!(is_auth_error(
        "root@10.11.99.1: Permission denied (publickey,password)."
    ));
    assert!(is_auth_error("Authentication failed."));
    assert!(!is_auth_error("Connection timed out"));
    assert!(same_error_type(
        "connect to host 10.0.0.1: Connection timed out",
        "connect to host 10.0.0.2: Connection timed out"
    ));
    assert!(!same_error_type(
        "Connection timed out",
        "Connection refused"
    ));
}
