use openscq30_a3954::button_configuration::{ActionStatus, ButtonStatus};
use openscq30_a3954::firmware_version::{DualFirmwareVersion, FirmwareVersion};
use openscq30_a3954::state_update::{A3954StateUpdatePacket, ParseError};

// Liberty 4 Pro, firmware 03.23/03.23, case firmware 02.56. No slide button configuration.
// The serial numbers (bytes 16..32 and 38..44) are replaced.
const ISSUE_246_BODY: [u8; 161] = [
    1, 0, 100, 97, 0, 0, 48, 51, 46, 50, 51, 48, 51, 46, 50, 51, 51, 57, 53, 52, 48, 48, 48, 48,
    48, 48, 48, 48, 48, 48, 48, 49, 48, 50, 46, 53, 54, 7, 0, 0, 0, 0, 0, 1, 0, 0, 120, 120, 120,
    120, 120, 120, 120, 120, 120, 120, 255, 255, 255, 255, 255, 255, 255, 255, 255, 255, 255, 0, 0,
    0, 0, 0, 0, 0, 0, 0, 0, 0, 0, 0, 0, 0, 0, 0, 0, 0, 0, 0, 0, 0, 0, 0, 0, 0, 0, 0, 0, 0, 0, 0, 0,
    0, 0, 0, 0, 0, 0, 0, 0, 0, 0, 0, 0, 0, 0, 10, 102, 102, 50, 51, 255, 255, 68, 68, 51, 2, 6, 0,
    0, 0, 0, 255, 0, 0, 0, 0, 91, 1, 49, 1, 1, 0, 1, 1, 2, 0, 90, 0, 0, 0, 0, 0, 0, 0, 49, 1, 0, 1,
    0, 1, 255,
];

// Liberty 4 Pro, firmware 03.23/03.23, case firmware 01.56. No slide button configuration.
// The serial numbers (bytes 16..32 and 38..44) are replaced.
const ISSUE_284_BODY: [u8; 161] = [
    1, 1, 100, 99, 0, 0, 48, 51, 46, 50, 51, 48, 51, 46, 50, 51, 51, 57, 53, 52, 48, 48, 48, 48,
    48, 48, 48, 48, 48, 48, 48, 50, 48, 49, 46, 53, 54, 9, 0, 0, 0, 0, 0, 2, 4, 0, 150, 150, 100,
    100, 120, 140, 150, 160, 120, 120, 255, 255, 255, 255, 255, 255, 255, 255, 255, 255, 0, 0, 254,
    254, 254, 254, 254, 254, 0, 0, 0, 0, 0, 0, 0, 0, 0, 0, 0, 0, 0, 0, 0, 0, 0, 0, 0, 0, 0, 0, 0,
    0, 0, 0, 0, 0, 0, 0, 0, 0, 0, 0, 0, 0, 0, 0, 0, 0, 0, 10, 102, 102, 50, 51, 255, 255, 68, 68,
    51, 2, 6, 0, 2, 1, 1, 255, 0, 0, 0, 0, 99, 1, 50, 1, 1, 0, 1, 1, 2, 0, 90, 0, 0, 0, 0, 0, 0, 0,
    50, 0, 0, 1, 0, 1, 255,
];

// Firmware 03.29/03.29, case firmware 02.58. Includes slide button configuration.
const FULL_BODY: [u8; 165] = [
    0, 1, 99, 100, 0, 0, 48, 51, 46, 50, 57, 48, 51, 46, 50, 57, 51, 57, 53, 52, 68, 69, 55, 55,
    53, 49, 56, 65, 57, 68, 70, 52, 48, 50, 46, 53, 56, 9, 244, 157, 138, 83, 43, 186, 254, 254,
    120, 120, 120, 120, 120, 120, 120, 120, 120, 120, 255, 255, 255, 255, 255, 255, 255, 255, 255,
    255, 0, 1, 145, 147, 139, 141, 122, 111, 105, 100, 60, 60, 145, 147, 139, 141, 122, 111, 105,
    100, 60, 60, 0, 0, 0, 0, 1, 145, 147, 139, 130, 122, 133, 133, 114, 60, 60, 145, 147, 139, 130,
    122, 133, 133, 114, 60, 60, 0, 0, 10, 102, 102, 50, 51, 255, 255, 68, 68, 51, 2, 6, 0, 0, 255,
    1, 255, 0, 0, 0, 0, 94, 1, 110, 1, 0, 0, 0, 1, 0, 1, 95, 0, 0, 1, 0, 0, 0, 0, 110, 1, 0, 1, 0,
    0, 255, 0, 0, 17, 17,
];

fn parse(body: &[u8]) -> Result<A3954StateUpdatePacket, ParseError> {
    A3954StateUpdatePacket::take(body).map(|(remaining, packet)| {
        assert!(remaining.is_empty(), "{} bytes remaining", remaining.len());
        packet
    })
}

/// Reads a packet and discards what follows it.
fn try_to_packet(body: &[u8]) -> Result<A3954StateUpdatePacket, ()> {
    A3954StateUpdatePacket::take(body)
        .map(|(_, packet)| packet)
        .map_err(|_| ())
}

fn main_button_bytes(packet: &A3954StateUpdatePacket) -> Vec<u8> {
    packet.button_configuration.bytes().to_vec()
}

fn slide_button_bytes(packet: &A3954StateUpdatePacket) -> Option<Vec<u8>> {
    packet
        .slide_button_configuration
        .map(|buttons| buttons.bytes().to_vec())
}

#[test]
fn parses_161_byte_packet_without_slide_buttons() {
    for body in [&ISSUE_246_BODY, &ISSUE_284_BODY] {
        let packet = parse(body).unwrap();
        assert_eq!(packet.slide_button_configuration, None);
        assert_eq!(
            main_button_bytes(&packet),
            [0x66, 0x66, 0x32, 0x33, 0xFF, 0xFF, 0x44, 0x44],
        );
        assert_eq!(packet.battery.left.level.0, body[2]);
        assert_eq!(packet.battery.right.level.0, body[3]);
        assert_eq!(
            packet.firmware_version,
            DualFirmwareVersion {
                left: FirmwareVersion::new(3, 23),
                right: FirmwareVersion::new(3, 23),
            },
        );

        // Fields in known positions are serialized back to the same place, so this validates
        // that nothing before the slide buttons was shifted.
        let serialized = packet.body();
        assert_eq!(serialized.len(), 161);
        assert_eq!(serialized[..44], body[..44]);
        // main buttons
        assert_eq!(serialized[116..124], body[116..124]);
        // sound modes
        assert_eq!(serialized[125..129], body[125..129]);
        // case language, easy chat wait time, wearing detection
        assert_eq!(serialized[157..160], body[157..160]);
    }
    assert_eq!(
        parse(&ISSUE_284_BODY)
            .unwrap()
            .case_firmware_version
            .0
            .to_string(),
        "01.56",
    );
    assert_eq!(
        parse(&ISSUE_246_BODY)
            .unwrap()
            .case_firmware_version
            .0
            .to_string(),
        "02.56",
    );
}

#[test]
fn parses_165_byte_packet_with_slide_buttons() {
    let packet = parse(&FULL_BODY).unwrap();
    assert_eq!(
        slide_button_bytes(&packet),
        Some(vec![0x00, 0x00, 0x11, 0x11])
    );
    assert_eq!(packet.body().len(), 165);
}

#[test]
fn parses_non_default_slide_buttons() {
    // Synthetic: low nibble is the action when TWS is connected, high nibble when disconnected
    let mut body = FULL_BODY;
    body[161..].copy_from_slice(&[0xF0, 0x0F, 0x01, 0x1F]);
    let packet = parse(&body).unwrap();
    let slide_buttons = packet.slide_button_configuration.unwrap();
    assert_eq!(
        slide_buttons.0.map(|status| status.action),
        [
            ActionStatus::Tws {
                connected: 0x0,
                disconnected: 0xF,
            },
            ActionStatus::Tws {
                connected: 0xF,
                disconnected: 0x0,
            },
            ActionStatus::Tws {
                connected: 0x1,
                disconnected: 0x0,
            },
            ActionStatus::Tws {
                connected: 0xF,
                disconnected: 0x1,
            },
        ],
    );
    assert!(
        slide_buttons
            .0
            .iter()
            .all(|status: &ButtonStatus| status.enabled.is_none())
    );
    assert_eq!(packet.body()[161..], body[161..]);
}

#[test]
fn rejects_truncated_packets() {
    for len in 0..161 {
        assert!(parse(&FULL_BODY[..len]).is_err(), "length {len}");
        assert!(try_to_packet(&FULL_BODY[..len]).is_err(), "length {len}");
    }
}

#[test]
fn rejects_partial_slide_buttons() {
    // Reading discards the remaining input, so make sure a partial slide button
    // configuration isn't treated as missing.
    for len in 162..165 {
        assert!(
            A3954StateUpdatePacket::take(&FULL_BODY[..len]).is_err(),
            "length {len}",
        );
        assert!(try_to_packet(&FULL_BODY[..len]).is_err(), "length {len}");
    }
}

#[test]
fn slide_buttons_are_only_optional_at_the_end() {
    assert_eq!(
        try_to_packet(&FULL_BODY[..161])
            .unwrap()
            .slide_button_configuration,
        None,
    );
    assert!(
        try_to_packet(&FULL_BODY)
            .unwrap()
            .slide_button_configuration
            .is_some()
    );

    let mut body = FULL_BODY.to_vec();
    body.push(0xAB);
    let (remaining, packet) = A3954StateUpdatePacket::take(&body).unwrap();
    assert_eq!(remaining, [0xAB]);
    assert_eq!(
        slide_button_bytes(&packet),
        Some(vec![0x00, 0x00, 0x11, 0x11])
    );
}

#[test]
fn serializes_slide_buttons_only_when_present() {
    let mut packet = A3954StateUpdatePacket::default();
    assert_eq!(packet.body().len(), 165);
    packet.slide_button_configuration = None;
    assert_eq!(packet.body().len(), 161);
    assert_eq!(
        parse(&packet.body()).unwrap().slide_button_configuration,
        None,
    );
}
