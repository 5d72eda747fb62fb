use openscq30_a3954::button_configuration::{ActionStatus, ButtonStatus, ButtonStatusCollection};
use openscq30_a3954::firmware_version::FirmwareVersion;
use openscq30_a3954::state_update::{A3954StateUpdatePacket, Command, ParseError};
use openscq30_a3954::structures::{DeviceSide, IsCharging};

// Liberty 4 Pro, firmware 03.23/03.23, case firmware 02.56. No slide button configuration.
// The serial numbers (bytes 16..32 and 38..44) are replaced.
const ISSUE_246_BODY: [u8; 161] = [
    1, 0, 100, 97, 0, 0, 48, 51, 46, 50, 51, 48, 51, 46, 50, 51, 51, 57, 53, 52, 48, 48, 48, 48,
    48, 48, 48, 48, 48, 48, 48, 49, 48, 50, 46, 53, 54, 7, 0, 0, 0, 0, 0, 1, 0, 0, 120, 120, 120,
    120, 120, 120, 120, 120, 120, 120, 255, 255, 255, 255, 255, 255, 255, 255, 255, 255, 255, 0, 0,
    0, 0, 0, 0, 0, 0, 0, 0, 0, 0, 0, 0, 0, 0, 0, 0, 0, 0, 0, 0, 0, 0, 0, 0, 0, 0, 0, 0, 0, 0, 0, 0,
    0, 0, 0, 0, 0, 0, 0, 0, 0, 0, 0, 0, 0, 0, 10, 102, 102, 50, 51, 255, 255, 68, 68, 51, 2, 6, 0,
    0, 0, 0, 255, 0, 0, 0, 0, 91, 1, 49, 1, 1, 0, 1, 1, 2, 0, 90, 0, 0, 0, 0, 0, 0, 0, 49, 1, 0, 1,
    0, 1, 255,
];

// Liberty 4 Pro, firmware 03.23/03.23, case firmware 01.56. No slide button configuration.
// The serial numbers (bytes 16..32 and 38..44) are replaced.
const ISSUE_284_BODY: [u8; 161] = [
    1, 1, 100, 99, 0, 0, 48, 51, 46, 50, 51, 48, 51, 46, 50, 51, 51, 57, 53, 52, 48, 48, 48, 48,
    48, 48, 48, 48, 48, 48, 48, 50, 48, 49, 46, 53, 54, 9, 0, 0, 0, 0, 0, 2, 4, 0, 150, 150, 100,
    100, 120, 140, 150, 160, 120, 120, 255, 255, 255, 255, 255, 255, 255, 255, 255, 255, 0, 0, 254,
    254, 254, 254, 254, 254, 0, 0, 0, 0, 0, 0, 0, 0, 0, 0, 0, 0, 0, 0, 0, 0, 0, 0, 0, 0, 0, 0, 0,
    0, 0, 0, 0, 0, 0, 0, 0, 0, 0, 0, 0, 0, 0, 0, 0, 0, 0, 10, 102, 102, 50, 51, 255, 255, 68, 68,
    51, 2, 6, 0, 2, 1, 1, 255, 0, 0, 0, 0, 99, 1, 50, 1, 1, 0, 1, 1, 2, 0, 90, 0, 0, 0, 0, 0, 0, 0,
    50, 0, 0, 1, 0, 1, 255,
];

// Firmware 03.29/03.29, case firmware 02.58. Includes slide button configuration.
const FULL_BODY: [u8; 165] = [
    0, 1, 99, 100, 0, 0, 48, 51, 46, 50, 57, 48, 51, 46, 50, 57, 51, 57, 53, 52, 68, 69, 55, 55,
    53, 49, 56, 65, 57, 68, 70, 52, 48, 50, 46, 53, 56, 9, 244, 157, 138, 83, 43, 186, 254, 254,
    120, 120, 120, 120, 120, 120, 120, 120, 120, 120, 255, 255, 255, 255, 255, 255, 255, 255, 255,
    255, 0, 1, 145, 147, 139, 141, 122, 111, 105, 100, 60, 60, 145, 147, 139, 141, 122, 111, 105,
    100, 60, 60, 0, 0, 0, 0, 1, 145, 147, 139, 130, 122, 133, 133, 114, 60, 60, 145, 147, 139, 130,
    122, 133, 133, 114, 60, 60, 0, 0, 10, 102, 102, 50, 51, 255, 255, 68, 68, 51, 2, 6, 0, 0, 255,
    1, 255, 0, 0, 0, 0, 94, 1, 110, 1, 0, 0, 0, 1, 0, 1, 95, 0, 0, 1, 0, 0, 0, 0, 110, 1, 0, 1, 0,
    0, 255, 0, 0, 17, 17,
];


fn read(body: &[u8]) -> A3954StateUpdatePacket {
    let (rest, packet) = A3954StateUpdatePacket::take(body).unwrap();
    assert!(rest.is_empty());
    packet
}

#[test]
fn reads_every_field_of_the_full_packet() {
    let packet = read(&FULL_BODY);
    assert_eq!(packet.tws_status.host_device, DeviceSide::Left);
    assert!(packet.tws_status.is_connected);
    assert_eq!(packet.battery.left.level.0, 99);
    assert_eq!(packet.battery.right.level.0, 100);
    assert_eq!(packet.battery.left.is_charging, IsCharging::No);
    assert_eq!(packet.battery.right.is_charging, IsCharging::No);
    assert_eq!(packet.firmware_version.left.to_string(), "03.29");
    assert_eq!(packet.firmware_version.right.to_string(), "03.29");
    assert_eq!(&packet.serial_number.0, b"3954DE77518A9DF4");
    assert_eq!(packet.case_firmware_version.0.to_string(), "02.58");
    assert_eq!(packet.case_battery_level.0, 9);
    assert_eq!(packet.case_serial_number.0, [0xF4, 0x9D, 0x8A, 0x53, 0x2B, 0xBA]);
    assert_eq!(packet.equalizer_configuration.preset_id, 0xFEFE);
    assert_eq!(packet.equalizer_configuration.volume_adjustments[..10], [120; 10]);
    assert_eq!(packet.equalizer_configuration.volume_adjustments[10..], [255; 10]);
    assert_eq!(packet.hear_id.0[0], 1);
    assert_eq!(packet.ambient_sound_mode_cycle.0, 0x33);
    assert_eq!(packet.sound_modes.0, [2, 6, 0, 0]);
    assert_eq!(packet.case_features.0, [0, 0, 0]);
    assert_eq!(packet.air_pressure.0, [0, 94]);
    assert!(!packet.low_battery_prompt.is_enabled);
    assert!(!packet.ldac.is_enabled);
    assert!(!packet.dual_connections_enabled);
    assert!(packet.auto_power_off.is_enabled);
    assert_eq!(packet.auto_power_off.duration, 0);
    assert!(packet.limit_high_volume.is_enabled);
    assert_eq!(packet.limit_high_volume.db_limit, 95);
    assert_eq!(packet.limit_high_volume.refresh_rate, 0);
    assert_eq!(packet.spatial_audio.0, [0, 1, 0]);
    assert!(!packet.easy_chat.is_enabled);
    assert_eq!(packet.easy_chat.wait_time.0, 0);
    assert!(!packet.sound_leak_compensation.is_enabled);
    assert_eq!(packet.case_language.0, 1);
    assert!(!packet.wearing_detection.is_enabled);
    // Left double press is 0x32: action 2 while connected, 3 while apart.
    assert_eq!(
        packet.button_configuration.0[2].action,
        ActionStatus::Tws { connected: 2, disconnected: 3 },
    );
}

#[test]
fn tws_and_dual_connection_flags_of_other_fixtures() {
    let disconnected = read(&ISSUE_246_BODY);
    assert_eq!(disconnected.tws_status.host_device, DeviceSide::Right);
    assert!(!disconnected.tws_status.is_connected);
    assert!(disconnected.wearing_detection.is_enabled);
    let connected = read(&ISSUE_284_BODY);
    assert!(connected.tws_status.is_connected);
    assert!(connected.dual_connections_enabled);
    assert_eq!(connected.auto_power_off.duration, 2);
    assert_eq!(connected.equalizer_configuration.preset_id, 4);
}

#[test]
fn invalid_firmware_version_is_rejected() {
    let mut body = FULL_BODY;
    body[6] = b'x';
    assert_eq!(A3954StateUpdatePacket::take(&body).err(), Some(ParseError::InvalidFirmwareVersion));
    let mut body = FULL_BODY;
    body[13] = b'-';
    assert_eq!(A3954StateUpdatePacket::take(&body).err(), Some(ParseError::InvalidFirmwareVersion));
    let mut body = FULL_BODY;
    body[34] = b',';
    assert_eq!(A3954StateUpdatePacket::take(&body).err(), Some(ParseError::InvalidFirmwareVersion));
    // The firmware versions are checked before the slide buttons.
    assert_eq!(
        A3954StateUpdatePacket::take(&body[..163]).err(),
        Some(ParseError::InvalidFirmwareVersion),
    );
    // But a body too short for the fixed part is cut short whatever it holds.
    assert_eq!(A3954StateUpdatePacket::take(&body[..100]).err(), Some(ParseError::UnexpectedEnd));
}

#[test]
fn truncation_errors() {
    assert_eq!(A3954StateUpdatePacket::take(&[]).err(), Some(ParseError::UnexpectedEnd));
    assert_eq!(A3954StateUpdatePacket::take(&FULL_BODY[..160]).err(), Some(ParseError::UnexpectedEnd));
    assert_eq!(A3954StateUpdatePacket::take(&FULL_BODY[..162]).err(), Some(ParseError::UnexpectedEnd));
    assert_eq!(A3954StateUpdatePacket::take(&FULL_BODY[..164]).err(), Some(ParseError::UnexpectedEnd));
}

#[test]
fn writing_back_clears_unknown_bytes_and_normalizes_flags() {
    // Byte 66 is unknown and holds 255 in this fixture.
    let packet = read(&ISSUE_246_BODY);
    let written = packet.body();
    let mut expected = ISSUE_246_BODY.to_vec();
    for i in [66, 115, 129, 130, 131, 137, 138, 139, 152, 154, 155, 156, 160] {
        expected[i] = 0;
    }
    assert_eq!(written, expected);

    let mut body = FULL_BODY;
    body[140] = 2; // low battery prompt: only 1 reads as on
    body[159] = 1; // wearing detection on
    let packet = read(&body);
    assert!(!packet.low_battery_prompt.is_enabled);
    assert!(packet.wearing_detection.is_enabled);
    let written = packet.body();
    assert_eq!(written[140], 0);
    assert_eq!(written[159], 1);
}

#[test]
fn written_body_reads_back_as_the_same_packet() {
    for body in [&FULL_BODY[..], &ISSUE_246_BODY[..], &ISSUE_284_BODY[..]] {
        let written = read(body).body();
        let again = read(&written);
        assert_eq!(again.body(), written);
    }
    let default = A3954StateUpdatePacket::default();
    let written = default.body();
    assert_eq!(written.len(), 165);
    let again = read(&written);
    assert_eq!(again.body(), written);
    assert_eq!(again.firmware_version.left, FirmwareVersion::new(0, 0));
    assert_eq!(
        again.slide_button_configuration,
        Some(ButtonStatusCollection::<4>::default_status_collection()),
    );
}

#[test]
fn default_packet_has_default_fields() {
    let packet = A3954StateUpdatePacket::default();
    assert_eq!(&packet.body()[6..16], b"00.0000.00");
    assert_eq!(
        packet.button_configuration.0[5],
        ButtonStatus { enabled: None, action: ActionStatus::Tws { connected: 0, disconnected: 0 } },
    );
    assert!(packet.body().iter().enumerate().all(|(i, b)| *b == 0 || (6..16).contains(&i) || (32..37).contains(&i)));
}

#[test]
fn extra_bytes_after_full_packet_are_left() {
    let mut body = FULL_BODY.to_vec();
    body.extend_from_slice(&[1, 2, 3]);
    let (rest, packet) = A3954StateUpdatePacket::take(&body).unwrap();
    assert_eq!(rest, [1, 2, 3]);
    assert_eq!(packet.body(), read(&FULL_BODY).body());
}

#[test]
fn command_is_state_update() {
    assert_eq!(A3954StateUpdatePacket::default().command(), Command([1, 1]));
}

#[test]
fn firmware_version_text() {
    assert_eq!(FirmwareVersion::new(3, 23).to_string(), "03.23");
    assert_eq!(FirmwareVersion::new(0, 5).to_string(), "00.05");
    assert_eq!(FirmwareVersion::new(100, 5).to_string(), "100.05");
    assert_eq!(FirmwareVersion::new(12, 255).to_string(), "12.255");
    assert_eq!(FirmwareVersion::new(3, 29).bytes(), *b"03.29");
    assert_eq!(FirmwareVersion::parse(b"01.56"), Some(FirmwareVersion::new(1, 56)));
    assert_eq!(FirmwareVersion::parse(b"01:56"), None);
}

#[test]
fn button_byte_nibbles() {
    let status = ButtonStatus::parse(0x1F);
    assert_eq!(status.action, ActionStatus::Tws { connected: 0xF, disconnected: 0x1 });
    assert_eq!(status.enabled, None);
    assert_eq!(status.byte(), 0x1F);
    let collection = ButtonStatusCollection::<4>::parse(&[0xF0, 0x0F, 0x01, 0x1F]);
    assert_eq!(collection.bytes(), [0xF0, 0x0F, 0x01, 0x1F]);
}
