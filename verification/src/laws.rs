//! The laws of the state update packet: where each field stands in the body,
//! that reading a written body gives the packet back, and that writing a read
//! packet puts every known field back in its place.
use crate::bytes::{flag_byte, flag_of};
use crate::firmware_version::{DualFirmwareVersion, FirmwareVersion};
use crate::state_update::{A3954StateUpdatePacket, ParseError, spec_consumed, spec_take_error};
use crate::button_configuration::{ActionStatus, ButtonStatus};
use crate::structures::{DeviceSide, DualBattery, IsCharging, TwsStatus};
use vstd::prelude::*;

verus! {

impl A3954StateUpdatePacket {
    /// Where each field stands in the fixed part of the body.
    #[verifier::spinoff_prover]
    #[verifier::rlimit(40)]
    pub proof fn lemma_fixed_layout(self)
        ensures
            self.spec_fixed_body().len() == 161,
            self.spec_fixed_body().subrange(0, 2) == self.tws_status.spec_bytes(),
            self.spec_fixed_body().subrange(2, 6) == self.battery.spec_bytes(),
            self.spec_fixed_body().subrange(6, 16) == self.firmware_version.spec_bytes(),
            self.spec_fixed_body().subrange(16, 32) == self.serial_number.0@,
            self.spec_fixed_body().subrange(32, 37) == self.case_firmware_version.0.spec_bytes(),
            self.spec_fixed_body().subrange(37, 38) == seq![self.case_battery_level.0],
            self.spec_fixed_body().subrange(38, 44) == self.case_serial_number.0@,
            self.spec_fixed_body().subrange(44, 66) == self.equalizer_configuration.spec_bytes(),
            self.spec_fixed_body().subrange(66, 67) == seq![0u8],
            self.spec_fixed_body().subrange(67, 115) == self.hear_id.0@,
            self.spec_fixed_body().subrange(115, 116) == seq![0u8],
            self.spec_fixed_body().subrange(116, 124) == self.button_configuration.spec_bytes(),
            self.spec_fixed_body().subrange(124, 125) == seq![self.ambient_sound_mode_cycle.0],
            self.spec_fixed_body().subrange(125, 129) == self.sound_modes.0@,
            self.spec_fixed_body().subrange(129, 132) == seq![0u8, 0u8, 0u8],
            self.spec_fixed_body().subrange(132, 135) == self.case_features.0@,
            self.spec_fixed_body().subrange(135, 137) == self.air_pressure.0@,
            self.spec_fixed_body().subrange(137, 140) == seq![0u8, 0u8, 0u8],
            self.spec_fixed_body().subrange(140, 143) == seq![
                flag_byte(self.low_battery_prompt.is_enabled),
                flag_byte(self.ldac.is_enabled),
                flag_byte(self.dual_connections_enabled),
            ],
            self.spec_fixed_body().subrange(143, 145) == seq![
                flag_byte(self.auto_power_off.is_enabled),
                self.auto_power_off.duration,
            ],
            self.spec_fixed_body().subrange(145, 148) == seq![
                flag_byte(self.limit_high_volume.is_enabled),
                self.limit_high_volume.db_limit,
                self.limit_high_volume.refresh_rate,
            ],
            self.spec_fixed_body().subrange(148, 151) == self.spatial_audio.0@,
            self.spec_fixed_body().subrange(151, 153) == seq![
                flag_byte(self.easy_chat.is_enabled),
                0u8,
            ],
            self.spec_fixed_body().subrange(153, 154) == seq![
                flag_byte(self.sound_leak_compensation.is_enabled),
            ],
            self.spec_fixed_body().subrange(154, 157) == seq![0u8, 0u8, 0u8],
            self.spec_fixed_body().subrange(157, 161) == seq![
                self.case_language.0,
                self.easy_chat.wait_time.0,
                flag_byte(self.wearing_detection.is_enabled),
                0u8,
            ],
    {
        let whole = self.spec_fixed_body();
        let p1 = self.tws_status.spec_bytes();
        let p2 = p1 + self.battery.spec_bytes();
        let p3 = p2 + self.firmware_version.spec_bytes();
        let p4 = p3 + self.serial_number.0@;
        let p5 = p4 + self.case_firmware_version.0.spec_bytes();
        let p6 = p5 + seq![self.case_battery_level.0];
        let p7 = p6 + self.case_serial_number.0@;
        let p8 = p7 + self.equalizer_configuration.spec_bytes();
        let p9 = p8 + seq![0u8];
        let p10 = p9 + self.hear_id.0@;
        let p11 = p10 + seq![0u8];
        let p12 = p11 + self.button_configuration.spec_bytes();
        let p13 = p12 + seq![self.ambient_sound_mode_cycle.0];
        let p14 = p13 + self.sound_modes.0@;
        let p15 = p14 + seq![0u8, 0u8, 0u8];
        let p16 = p15 + self.case_features.0@;
        let p17 = p16 + self.air_pressure.0@;
        let p18 = p17 + seq![0u8, 0u8, 0u8];
        let p19 = p18 + seq![
            flag_byte(self.low_battery_prompt.is_enabled),
            flag_byte(self.ldac.is_enabled),
            flag_byte(self.dual_connections_enabled),
        ];
        let p20 = p19 + seq![flag_byte(self.auto_power_off.is_enabled), self.auto_power_off.duration];
        let p21 = p20 + seq![
            flag_byte(self.limit_high_volume.is_enabled),
            self.limit_high_volume.db_limit,
            self.limit_high_volume.refresh_rate,
        ];
        let p22 = p21 + self.spatial_audio.0@;
        let p23 = p22 + seq![flag_byte(self.easy_chat.is_enabled), 0u8];
        let p24 = p23 + seq![flag_byte(self.sound_leak_compensation.is_enabled)];
        let p25 = p24 + seq![0u8, 0u8, 0u8];
        let p26 = p25 + seq![
            self.case_language.0,
            self.easy_chat.wait_time.0,
            flag_byte(self.wearing_detection.is_enabled),
            0u8,
        ];
        assert(whole == p26);
        assert(whole.take(161) =~= p26);
        lemma_peel(whole, p25, seq![
            self.case_language.0,
            self.easy_chat.wait_time.0,
            flag_byte(self.wearing_detection.is_enabled),
            0u8,
        ]);
        lemma_peel(whole, p24, seq![0u8, 0u8, 0u8]);
        lemma_peel(whole, p23, seq![flag_byte(self.sound_leak_compensation.is_enabled)]);
        lemma_peel(whole, p22, seq![flag_byte(self.easy_chat.is_enabled), 0u8]);
        lemma_peel(whole, p21, self.spatial_audio.0@);
        lemma_peel(whole, p20, seq![
            flag_byte(self.limit_high_volume.is_enabled),
            self.limit_high_volume.db_limit,
            self.limit_high_volume.refresh_rate,
        ]);
        lemma_peel(whole, p19, seq![flag_byte(self.auto_power_off.is_enabled), self.auto_power_off.duration]);
        lemma_peel(whole, p18, seq![
            flag_byte(self.low_battery_prompt.is_enabled),
            flag_byte(self.ldac.is_enabled),
            flag_byte(self.dual_connections_enabled),
        ]);
        lemma_peel(whole, p17, seq![0u8, 0u8, 0u8]);
        lemma_peel(whole, p16, self.air_pressure.0@);
        lemma_peel(whole, p15, self.case_features.0@);
        lemma_peel(whole, p14, seq![0u8, 0u8, 0u8]);
        lemma_peel(whole, p13, self.sound_modes.0@);
        lemma_peel(whole, p12, seq![self.ambient_sound_mode_cycle.0]);
        lemma_peel(whole, p11, self.button_configuration.spec_bytes());
        lemma_peel(whole, p10, seq![0u8]);
        lemma_peel(whole, p9, self.hear_id.0@);
        lemma_peel(whole, p8, seq![0u8]);
        lemma_peel(whole, p7, self.equalizer_configuration.spec_bytes());
        lemma_peel(whole, p6, self.case_serial_number.0@);
        lemma_peel(whole, p5, seq![self.case_battery_level.0]);
        lemma_peel(whole, p4, self.case_firmware_version.0.spec_bytes());
        lemma_peel(whole, p3, self.serial_number.0@);
        lemma_peel(whole, p2, self.firmware_version.spec_bytes());
        lemma_peel(whole, p1, self.battery.spec_bytes());
        lemma_peel(whole, Seq::empty(), p1);
    }
}

/// The laws of reading and writing a state update packet.
impl A3954StateUpdatePacket {
    /// Reading the fixed part of a well-formed packet's body gives back every
    /// field of that part.
    proof fn lemma_fixed_roundtrip(self)
        requires
            self.wf(),
        ensures
            self.fixed_parsed_from(self.spec_fixed_body()),
            DualFirmwareVersion::valid_bytes(self.spec_fixed_body().subrange(6, 16)),
            FirmwareVersion::valid_bytes(self.spec_fixed_body().subrange(32, 37)),
    {
        let f = self.spec_fixed_body();
        self.lemma_fixed_layout();
        self.firmware_version.lemma_roundtrip();
        self.case_firmware_version.0.lemma_roundtrip();
        self.equalizer_configuration.lemma_roundtrip();
        self.button_configuration.lemma_roundtrip();
        assert(f[37] == f.subrange(37, 38)[0]);
        assert(f[124] == f.subrange(124, 125)[0]);
        assert(f[140] == f.subrange(140, 143)[0]);
        assert(f[141] == f.subrange(140, 143)[1]);
        assert(f[142] == f.subrange(140, 143)[2]);
        assert(f[143] == f.subrange(143, 145)[0]);
        assert(f[144] == f.subrange(143, 145)[1]);
        assert(f[145] == f.subrange(145, 148)[0]);
        assert(f[146] == f.subrange(145, 148)[1]);
        assert(f[147] == f.subrange(145, 148)[2]);
        assert(f[151] == f.subrange(151, 153)[0]);
        assert(f[153] == f.subrange(153, 154)[0]);
        assert(f[157] == f.subrange(157, 161)[0]);
        assert(f[158] == f.subrange(157, 161)[1]);
        assert(f[159] == f.subrange(157, 161)[2]);
        assert(TwsStatus::spec_parse(f.subrange(0, 2)) == self.tws_status);
        assert(DualBattery::spec_parse(f.subrange(2, 6)) == self.battery);
    }

    /// Round trip: reading the body of a well-formed packet, followed by any
    /// bytes when the packet carries slide buttons, succeeds, gives back the
    /// packet and consumes exactly the body.
    pub proof fn lemma_body_roundtrip(self, extra: Seq<u8>)
        requires
            self.wf(),
            self.slide_button_configuration is None ==> extra.len() == 0,
        ensures
            spec_take_error(self.spec_body() + extra) is None,
            self.parsed_from(self.spec_body() + extra),
            spec_consumed(self.spec_body() + extra) == self.spec_body().len(),
    {
        let f = self.spec_fixed_body();
        let b = self.spec_body() + extra;
        self.lemma_fixed_layout();
        self.lemma_fixed_roundtrip();
        assert(b.take(161) =~= f);
        assert(b.skip(161) =~= self.spec_slide_bytes() + extra);
        match self.slide_button_configuration {
            Some(c) => {
                c.lemma_roundtrip();
                assert((self.spec_slide_bytes() + extra).take(4) =~= c.spec_bytes());
            },
            None => {},
        }
    }

    /// The body is 161 bytes long without slide buttons and 165 with them.
    pub proof fn lemma_body_len(self)
        ensures
            self.spec_body().len() == (if self.slide_button_configuration is Some {
                165int
            } else {
                161int
            }),
    {
        self.lemma_fixed_layout();
    }

    /// A packet read from a body is well formed.
    pub proof fn lemma_parsed_wf(self, s: Seq<u8>)
        requires
            spec_take_error(s) is None,
            self.parsed_from(s),
        ensures
            self.wf(),
    {
        let f = s.take(161);
        DualFirmwareVersion::lemma_parse_exact(f.subrange(6, 16));
        FirmwareVersion::lemma_parse_exact(f.subrange(32, 37));
        self.button_configuration.lemma_parse_exact(f.subrange(116, 124));
        match self.slide_button_configuration {
            Some(c) => c.lemma_parse_exact(s.skip(161).take(4)),
            None => {},
        }
    }

    /// The bytes of a body determine the packet read from them: two packets
    /// read from the same bytes are equal.
    pub proof fn lemma_parse_deterministic(self, other: Self, s: Seq<u8>)
        requires
            s.len() >= 161,
            self.parsed_from(s),
            other.parsed_from(s),
        ensures
            self == other,
    {
        assert(self.serial_number.0 =~= other.serial_number.0);
        assert(self.case_serial_number.0 =~= other.case_serial_number.0);
        assert(self.equalizer_configuration.volume_adjustments
            =~= other.equalizer_configuration.volume_adjustments);
        assert(self.hear_id.0 =~= other.hear_id.0);
        assert(self.button_configuration.0 =~= other.button_configuration.0);
        assert(self.sound_modes.0 =~= other.sound_modes.0);
        assert(self.case_features.0 =~= other.case_features.0);
        assert(self.air_pressure.0 =~= other.air_pressure.0);
        assert(self.spatial_audio.0 =~= other.spatial_audio.0);
        match (self.slide_button_configuration, other.slide_button_configuration) {
            (Some(a), Some(b)) => {
                assert(a.0 =~= b.0);
            },
            _ => {},
        }
    }
}

/// Whether byte `i` of a body is one whose meaning is unknown; such bytes are
/// written as 0.
pub open spec fn is_unknown_position(i: int) -> bool {
    ||| i == 66
    ||| i == 115
    ||| 129 <= i < 132
    ||| 137 <= i < 140
    ||| i == 152
    ||| 154 <= i < 157
    ||| i == 160
}

/// Whether byte `i` of a body is an on/off byte.
pub open spec fn is_flag_position(i: int) -> bool {
    ||| i == 0
    ||| i == 1
    ||| i == 4
    ||| i == 5
    ||| 140 <= i <= 143
    ||| i == 145
    ||| i == 151
    ||| i == 153
    ||| i == 159
}

/// The bytes that writing back a packet read from `s` gives: unknown bytes
/// become 0, on/off bytes become 1 or 0, every other byte stays.
pub open spec fn canonical_body(s: Seq<u8>) -> Seq<u8> {
    Seq::new(
        s.len(),
        |i: int|
            if is_unknown_position(i) {
                0u8
            } else if is_flag_position(i) {
                flag_byte(flag_of(s[i]))
            } else {
                s[i]
            },
    )
}

impl A3954StateUpdatePacket {
    /// Writing back the fixed part of a packet read from `f` gives `f` with
    /// unknown bytes cleared and on/off bytes made 1 or 0.
    #[verifier::spinoff_prover]
    #[verifier::rlimit(60)]
    proof fn lemma_fixed_written_back(self, f: Seq<u8>)
        requires
            f.len() == 161,
            DualFirmwareVersion::valid_bytes(f.subrange(6, 16)),
            FirmwareVersion::valid_bytes(f.subrange(32, 37)),
            self.fixed_parsed_from(f),
        ensures
            self.spec_fixed_body() == canonical_body(f),
    {
        let fixed = self.spec_fixed_body();
        let canon = canonical_body(f);
        self.lemma_fixed_layout();
        DualFirmwareVersion::lemma_parse_exact(f.subrange(6, 16));
        FirmwareVersion::lemma_parse_exact(f.subrange(32, 37));
        self.equalizer_configuration.lemma_parse_exact(f.subrange(44, 66));
        self.button_configuration.lemma_parse_exact(f.subrange(116, 124));
        assert(fixed.subrange(0, 2) =~= canon.subrange(0, 2));
        assert(fixed.subrange(2, 6) =~= canon.subrange(2, 6));
        assert(fixed.subrange(6, 16) =~= canon.subrange(6, 16));
        assert(fixed.subrange(16, 32) =~= canon.subrange(16, 32));
        assert(fixed.subrange(32, 37) =~= canon.subrange(32, 37));
        assert(fixed.subrange(37, 38) =~= canon.subrange(37, 38));
        assert(fixed.subrange(38, 44) =~= canon.subrange(38, 44));
        assert(fixed.subrange(44, 66) =~= canon.subrange(44, 66));
        assert(fixed.subrange(66, 67) =~= canon.subrange(66, 67));
        assert(fixed.subrange(67, 115) =~= canon.subrange(67, 115));
        assert(fixed.subrange(115, 116) =~= canon.subrange(115, 116));
        assert(fixed.subrange(116, 124) =~= canon.subrange(116, 124));
        assert(fixed.subrange(124, 125) =~= canon.subrange(124, 125));
        assert(fixed.subrange(125, 129) =~= canon.subrange(125, 129));
        assert(fixed.subrange(129, 132) =~= canon.subrange(129, 132));
        assert(fixed.subrange(132, 135) =~= canon.subrange(132, 135));
        assert(fixed.subrange(135, 137) =~= canon.subrange(135, 137));
        assert(fixed.subrange(137, 140) =~= canon.subrange(137, 140));
        assert(fixed.subrange(140, 143) =~= canon.subrange(140, 143));
        assert(fixed.subrange(143, 145) =~= canon.subrange(143, 145));
        assert(fixed.subrange(145, 148) =~= canon.subrange(145, 148));
        assert(fixed.subrange(148, 151) =~= canon.subrange(148, 151));
        assert(fixed.subrange(151, 153) =~= canon.subrange(151, 153));
        assert(fixed.subrange(153, 154) =~= canon.subrange(153, 154));
        assert(fixed.subrange(154, 157) =~= canon.subrange(154, 157));
        assert(fixed.subrange(157, 161) =~= canon.subrange(157, 161));
        assert forall|i: int| 0 <= i < 161 implies fixed[i] == canon[i] by {
            if i < 2 {
                assert(fixed.subrange(0, 2)[i - 0] == fixed[i]);
                assert(canon.subrange(0, 2)[i - 0] == canon[i]);
            } else if i < 6 {
                assert(fixed.subrange(2, 6)[i - 2] == fixed[i]);
                assert(canon.subrange(2, 6)[i - 2] == canon[i]);
            } else if i < 16 {
                assert(fixed.subrange(6, 16)[i - 6] == fixed[i]);
                assert(canon.subrange(6, 16)[i - 6] == canon[i]);
            } else if i < 32 {
                assert(fixed.subrange(16, 32)[i - 16] == fixed[i]);
                assert(canon.subrange(16, 32)[i - 16] == canon[i]);
            } else if i < 37 {
                assert(fixed.subrange(32, 37)[i - 32] == fixed[i]);
                assert(canon.subrange(32, 37)[i - 32] == canon[i]);
            } else if i < 38 {
                assert(fixed.subrange(37, 38)[i - 37] == fixed[i]);
                assert(canon.subrange(37, 38)[i - 37] == canon[i]);
            } else if i < 44 {
                assert(fixed.subrange(38, 44)[i - 38] == fixed[i]);
                assert(canon.subrange(38, 44)[i - 38] == canon[i]);
            } else if i < 66 {
                assert(fixed.subrange(44, 66)[i - 44] == fixed[i]);
                assert(canon.subrange(44, 66)[i - 44] == canon[i]);
            } else if i < 67 {
                assert(fixed.subrange(66, 67)[i - 66] == fixed[i]);
                assert(canon.subrange(66, 67)[i - 66] == canon[i]);
            } else if i < 115 {
                assert(fixed.subrange(67, 115)[i - 67] == fixed[i]);
                assert(canon.subrange(67, 115)[i - 67] == canon[i]);
            } else if i < 116 {
                assert(fixed.subrange(115, 116)[i - 115] == fixed[i]);
                assert(canon.subrange(115, 116)[i - 115] == canon[i]);
            } else if i < 124 {
                assert(fixed.subrange(116, 124)[i - 116] == fixed[i]);
                assert(canon.subrange(116, 124)[i - 116] == canon[i]);
            } else if i < 125 {
                assert(fixed.subrange(124, 125)[i - 124] == fixed[i]);
                assert(canon.subrange(124, 125)[i - 124] == canon[i]);
            } else if i < 129 {
                assert(fixed.subrange(125, 129)[i - 125] == fixed[i]);
                assert(canon.subrange(125, 129)[i - 125] == canon[i]);
            } else if i < 132 {
                assert(fixed.subrange(129, 132)[i - 129] == fixed[i]);
                assert(canon.subrange(129, 132)[i - 129] == canon[i]);
            } else if i < 135 {
                assert(fixed.subrange(132, 135)[i - 132] == fixed[i]);
                assert(canon.subrange(132, 135)[i - 132] == canon[i]);
            } else if i < 137 {
                assert(fixed.subrange(135, 137)[i - 135] == fixed[i]);
                assert(canon.subrange(135, 137)[i - 135] == canon[i]);
            } else if i < 140 {
                assert(fixed.subrange(137, 140)[i - 137] == fixed[i]);
                assert(canon.subrange(137, 140)[i - 137] == canon[i]);
            } else if i < 143 {
                assert(fixed.subrange(140, 143)[i - 140] == fixed[i]);
                assert(canon.subrange(140, 143)[i - 140] == canon[i]);
            } else if i < 145 {
                assert(fixed.subrange(143, 145)[i - 143] == fixed[i]);
                assert(canon.subrange(143, 145)[i - 143] == canon[i]);
            } else if i < 148 {
                assert(fixed.subrange(145, 148)[i - 145] == fixed[i]);
                assert(canon.subrange(145, 148)[i - 145] == canon[i]);
            } else if i < 151 {
                assert(fixed.subrange(148, 151)[i - 148] == fixed[i]);
                assert(canon.subrange(148, 151)[i - 148] == canon[i]);
            } else if i < 153 {
                assert(fixed.subrange(151, 153)[i - 151] == fixed[i]);
                assert(canon.subrange(151, 153)[i - 151] == canon[i]);
            } else if i < 154 {
                assert(fixed.subrange(153, 154)[i - 153] == fixed[i]);
                assert(canon.subrange(153, 154)[i - 153] == canon[i]);
            } else if i < 157 {
                assert(fixed.subrange(154, 157)[i - 154] == fixed[i]);
                assert(canon.subrange(154, 157)[i - 154] == canon[i]);
            } else {
                assert(fixed.subrange(157, 161)[i - 157] == fixed[i]);
                assert(canon.subrange(157, 161)[i - 157] == canon[i]);
            }
        }
        assert(fixed =~= canon);
    }

    /// Writing back a packet read from `s` gives the bytes it was read from,
    /// with unknown bytes cleared and on/off bytes made 1 or 0: every other
    /// field goes back to its place.
    pub proof fn lemma_written_back(self, s: Seq<u8>)
        requires
            spec_take_error(s) is None,
            self.parsed_from(s),
        ensures
            self.spec_body() == canonical_body(s.take(spec_consumed(s))),
    {
        let f = s.take(161);
        self.lemma_fixed_written_back(f);
        self.lemma_fixed_layout();
        let whole = s.take(spec_consumed(s));
        match self.slide_button_configuration {
            Some(c) => {
                c.lemma_parse_exact(s.skip(161).take(4));
                assert(whole =~= f + s.skip(161).take(4));
            },
            None => {
                assert(whole =~= f);
            },
        }
        assert(self.spec_body() =~= canonical_body(whole));
    }
}

/// The value of the two ASCII digits `hi` and `lo`.
pub open spec fn two_digit_value(hi: u8, lo: u8) -> int {
    (hi - 48) * 10 + (lo - 48)
}

impl A3954StateUpdatePacket {
    /// What a read takes from each byte of the body, byte by byte: the left
    /// earbud's battery level is byte 2 and the right's byte 3, the left
    /// charging flag byte 4 and the right's byte 5; the left earbud's
    /// firmware version is bytes 6..11 and the right's 11..16, the case's
    /// 32..37; the equalizer preset is bytes 44 and 45 (low byte first) and
    /// band adjustment `i` is byte `46 + i`; button `i` is byte `116 + i`,
    /// slide button `i` byte `161 + i`, each with the action while connected
    /// in the low four bits and the action while apart in the high four.
    pub proof fn lemma_read_byte_by_byte(self, s: Seq<u8>)
        requires
            spec_take_error(s) is None,
            self.parsed_from(s),
        ensures
            self.battery.left.level.0 == s[2],
            self.battery.right.level.0 == s[3],
            self.battery.left.is_charging == (if s[4] == 1 {
                IsCharging::Yes
            } else {
                IsCharging::No
            }),
            self.battery.right.is_charging == (if s[5] == 1 {
                IsCharging::Yes
            } else {
                IsCharging::No
            }),
            self.firmware_version.left.major == two_digit_value(s[6], s[7]),
            self.firmware_version.left.minor == two_digit_value(s[9], s[10]),
            self.firmware_version.right.major == two_digit_value(s[11], s[12]),
            self.firmware_version.right.minor == two_digit_value(s[14], s[15]),
            self.case_firmware_version.0.major == two_digit_value(s[32], s[33]),
            self.case_firmware_version.0.minor == two_digit_value(s[35], s[36]),
            self.equalizer_configuration.preset_id == s[44] + 256 * s[45],
            forall|i: int|
                0 <= i < 20 ==> #[trigger] self.equalizer_configuration.volume_adjustments@[i]
                    == s[46 + i],
            forall|i: int|
                0 <= i < 8 ==> #[trigger] self.button_configuration.0@[i] == (ButtonStatus {
                    enabled: None,
                    action: ActionStatus::Tws {
                        connected: s[116 + i] % 16,
                        disconnected: s[116 + i] / 16,
                    },
                }),
            s.len() == 161 <==> self.slide_button_configuration is None,
            self.slide_button_configuration matches Some(c) ==> forall|i: int|
                0 <= i < 4 ==> #[trigger] c.0@[i] == (ButtonStatus {
                    enabled: None,
                    action: ActionStatus::Tws {
                        connected: s[161 + i] % 16,
                        disconnected: s[161 + i] / 16,
                    },
                }),
    {
        let f = s.take(161);
        let fw = f.subrange(6, 16);
        assert(fw.subrange(0, 5)[0] == s[6] && fw.subrange(0, 5)[1] == s[7]);
        assert(fw.subrange(0, 5)[3] == s[9] && fw.subrange(0, 5)[4] == s[10]);
        assert(fw.subrange(5, 10)[0] == s[11] && fw.subrange(5, 10)[1] == s[12]);
        assert(fw.subrange(5, 10)[3] == s[14] && fw.subrange(5, 10)[4] == s[15]);
        assert(f.subrange(32, 37)[0] == s[32] && f.subrange(32, 37)[1] == s[33]);
        assert(f.subrange(32, 37)[3] == s[35] && f.subrange(32, 37)[4] == s[36]);
        assert(f.subrange(2, 6)[0] == s[2] && f.subrange(2, 6)[1] == s[3]);
        assert(f.subrange(2, 6)[2] == s[4] && f.subrange(2, 6)[3] == s[5]);
        assert(f.subrange(44, 66)[0] == s[44] && f.subrange(44, 66)[1] == s[45]);
        assert forall|i: int| 0 <= i < 20 implies #[trigger] self.equalizer_configuration.volume_adjustments@[i]
            == s[46 + i] by {
            assert(f.subrange(44, 66).subrange(2, 22)[i] == s[46 + i]);
        }
        assert forall|i: int| 0 <= i < 8 implies #[trigger] self.button_configuration.0@[i] == (ButtonStatus {
            enabled: None,
            action: ActionStatus::Tws {
                connected: s[116 + i] % 16,
                disconnected: s[116 + i] / 16,
            },
        }) by {
            assert(f.subrange(116, 124)[i] == s[116 + i]);
        }
        match self.slide_button_configuration {
            Some(c) => {
                assert forall|i: int| 0 <= i < 4 implies #[trigger] c.0@[i] == (ButtonStatus {
                    enabled: None,
                    action: ActionStatus::Tws {
                        connected: s[161 + i] % 16,
                        disconnected: s[161 + i] / 16,
                    },
                }) by {
                    assert(s.skip(161).take(4)[i] == s[161 + i]);
                }
            },
            None => {},
        }
    }
}

impl A3954StateUpdatePacket {
    /// Where a write puts each value, byte by byte: the left earbud's battery
    /// level in byte 2 and the right's in byte 3, the left charging flag in
    /// byte 4 and the right's in byte 5; the left earbud's firmware version as
    /// ASCII `MM.mm` in bytes 6..11, the right's in 11..16, the case's in
    /// 32..37; the equalizer preset in bytes 44 and 45 (low byte first) and
    /// band adjustment `i` in byte `46 + i`; button `i` in byte `116 + i` and
    /// slide button `i` in byte `161 + i`, the action while connected in the
    /// low four bits and the action while apart in the high four.
    pub proof fn lemma_written_byte_by_byte(self)
        ensures
            self.spec_body()[2] == self.battery.left.level.0,
            self.spec_body()[3] == self.battery.right.level.0,
            self.spec_body()[4] == (if self.battery.left.is_charging == IsCharging::Yes {
                1u8
            } else {
                0u8
            }),
            self.spec_body()[5] == (if self.battery.right.is_charging == IsCharging::Yes {
                1u8
            } else {
                0u8
            }),
            self.spec_body()[6] == 48 + self.firmware_version.left.major / 10,
            self.spec_body()[7] == 48 + self.firmware_version.left.major % 10,
            self.spec_body()[8] == 46,
            self.spec_body()[9] == 48 + self.firmware_version.left.minor / 10,
            self.spec_body()[10] == 48 + self.firmware_version.left.minor % 10,
            self.spec_body()[11] == 48 + self.firmware_version.right.major / 10,
            self.spec_body()[12] == 48 + self.firmware_version.right.major % 10,
            self.spec_body()[13] == 46,
            self.spec_body()[14] == 48 + self.firmware_version.right.minor / 10,
            self.spec_body()[15] == 48 + self.firmware_version.right.minor % 10,
            self.spec_body()[32] == 48 + self.case_firmware_version.0.major / 10,
            self.spec_body()[33] == 48 + self.case_firmware_version.0.major % 10,
            self.spec_body()[34] == 46,
            self.spec_body()[35] == 48 + self.case_firmware_version.0.minor / 10,
            self.spec_body()[36] == 48 + self.case_firmware_version.0.minor % 10,
            self.spec_body()[44] == self.equalizer_configuration.preset_id % 256,
            self.spec_body()[45] == self.equalizer_configuration.preset_id / 256,
            forall|i: int|
                0 <= i < 20 ==> #[trigger] self.spec_body()[46 + i]
                    == self.equalizer_configuration.volume_adjustments@[i],
            forall|i: int|
                0 <= i < 8 && (#[trigger] self.button_configuration.0@[i]).wf()
                    ==> self.button_configuration.0@[i].action == (ActionStatus::Tws {
                    connected: self.spec_body()[116 + i] % 16,
                    disconnected: self.spec_body()[116 + i] / 16,
                }),
            self.slide_button_configuration matches Some(c) ==> forall|i: int|
                0 <= i < 4 && (#[trigger] c.0@[i]).wf() ==> c.0@[i].action == (ActionStatus::Tws {
                    connected: self.spec_body()[161 + i] % 16,
                    disconnected: self.spec_body()[161 + i] / 16,
                }),
    {
        let f = self.spec_fixed_body();
        let b = self.spec_body();
        self.lemma_fixed_layout();
        assert(b.take(161) =~= f);
        assert forall|k: int| 0 <= k < 161 implies b[k] == f[k] by {
            assert(b.take(161)[k] == b[k]);
        }
        assert(f[2] == f.subrange(2, 6)[0] && f[3] == f.subrange(2, 6)[1]);
        assert(f[4] == f.subrange(2, 6)[2] && f[5] == f.subrange(2, 6)[3]);
        let fw = self.firmware_version.spec_bytes();
        assert(fw == f.subrange(6, 16));
        assert(fw[0] == f[6] && fw[1] == f[7] && fw[2] == f[8] && fw[3] == f[9] && fw[4] == f[10]);
        assert(fw[5] == f[11] && fw[6] == f[12] && fw[7] == f[13] && fw[8] == f[14] && fw[9]
            == f[15]);
        let cf = f.subrange(32, 37);
        assert(cf[0] == f[32] && cf[1] == f[33] && cf[2] == f[34] && cf[3] == f[35] && cf[4]
            == f[36]);
        assert(f[44] == f.subrange(44, 66)[0] && f[45] == f.subrange(44, 66)[1]);
        assert forall|i: int| 0 <= i < 20 implies #[trigger] b[46 + i]
            == self.equalizer_configuration.volume_adjustments@[i] by {
            assert(f.subrange(44, 66)[2 + i] == f[46 + i]);
        }
        assert forall|i: int|
            0 <= i < 8 && (#[trigger] self.button_configuration.0@[i]).wf() implies self.button_configuration.0@[i].action
            == (ActionStatus::Tws { connected: b[116 + i] % 16, disconnected: b[116 + i] / 16 }) by {
            assert(f.subrange(116, 124)[i] == f[116 + i]);
            self.button_configuration.0@[i].lemma_roundtrip();
        }
        match self.slide_button_configuration {
            Some(c) => {
                assert forall|i: int| 0 <= i < 4 && (#[trigger] c.0@[i]).wf() implies c.0@[i].action
                    == (ActionStatus::Tws {
                    connected: b[161 + i] % 16,
                    disconnected: b[161 + i] / 16,
                }) by {
                    assert(b[161 + i] == c.spec_bytes()[i]);
                    c.0@[i].lemma_roundtrip();
                }
            },
            None => {},
        }
    }
}

impl A3954StateUpdatePacket {
    /// What a read takes from each byte of the body for the remaining
    /// fields: the host side (1 for right) from byte 0 and the earbuds'
    /// connection from byte 1, the serial number from bytes 16..32, the case
    /// battery level from byte 37, the case serial number from 38..44, the
    /// hearing profile from 67..115, the ambient sound mode cycle from 124,
    /// the sound modes from 125..129, the case features from 132..135, the
    /// air pressure from 135..137, the low battery prompt, LDAC and dual
    /// connections flags from 140, 141 and 142, automatic power off from 143
    /// and 144, the volume limit from 145..148, spatial audio from 148..151,
    /// easy chat from 151 and its wait time from 158, sound leak compensation
    /// from 153, the case language from 157 and wearing detection from 159.
    pub proof fn lemma_read_remaining_fields(self, s: Seq<u8>)
        requires
            spec_take_error(s) is None,
            self.parsed_from(s),
        ensures
            self.tws_status.host_device == (if s[0] == 1 {
                DeviceSide::Right
            } else {
                DeviceSide::Left
            }),
            self.tws_status.is_connected == (s[1] == 1),
            self.low_battery_prompt.is_enabled == (s[140] == 1),
            self.ldac.is_enabled == (s[141] == 1),
            self.dual_connections_enabled == (s[142] == 1),
            self.auto_power_off.is_enabled == (s[143] == 1),
            self.limit_high_volume.is_enabled == (s[145] == 1),
            self.easy_chat.is_enabled == (s[151] == 1),
            self.sound_leak_compensation.is_enabled == (s[153] == 1),
            self.wearing_detection.is_enabled == (s[159] == 1),
            self.case_battery_level.0 == s[37],
            self.ambient_sound_mode_cycle.0 == s[124],
            self.auto_power_off.duration == s[144],
            self.limit_high_volume.db_limit == s[146],
            self.limit_high_volume.refresh_rate == s[147],
            self.case_language.0 == s[157],
            self.easy_chat.wait_time.0 == s[158],
            forall|i: int| 0 <= i < 16 ==> #[trigger] self.serial_number.0@[i] == s[16 + i],
            forall|i: int| 0 <= i < 6 ==> #[trigger] self.case_serial_number.0@[i] == s[38 + i],
            forall|i: int| 0 <= i < 48 ==> #[trigger] self.hear_id.0@[i] == s[67 + i],
            forall|i: int| 0 <= i < 4 ==> #[trigger] self.sound_modes.0@[i] == s[125 + i],
            forall|i: int| 0 <= i < 3 ==> #[trigger] self.case_features.0@[i] == s[132 + i],
            forall|i: int| 0 <= i < 2 ==> #[trigger] self.air_pressure.0@[i] == s[135 + i],
            forall|i: int| 0 <= i < 3 ==> #[trigger] self.spatial_audio.0@[i] == s[148 + i],
    {
        let f = s.take(161);
        assert(f.subrange(0, 2)[0] == s[0] && f.subrange(0, 2)[1] == s[1]);
        assert forall|i: int| 0 <= i < 16 implies #[trigger] self.serial_number.0@[i] == s[16 + i] by {
            assert(f.subrange(16, 32)[i] == s[16 + i]);
        }
        assert forall|i: int| 0 <= i < 6 implies #[trigger] self.case_serial_number.0@[i] == s[38 + i] by {
            assert(f.subrange(38, 44)[i] == s[38 + i]);
        }
        assert forall|i: int| 0 <= i < 48 implies #[trigger] self.hear_id.0@[i] == s[67 + i] by {
            assert(f.subrange(67, 115)[i] == s[67 + i]);
        }
        assert forall|i: int| 0 <= i < 4 implies #[trigger] self.sound_modes.0@[i] == s[125 + i] by {
            assert(f.subrange(125, 129)[i] == s[125 + i]);
        }
        assert forall|i: int| 0 <= i < 3 implies #[trigger] self.case_features.0@[i] == s[132 + i] by {
            assert(f.subrange(132, 135)[i] == s[132 + i]);
        }
        assert forall|i: int| 0 <= i < 2 implies #[trigger] self.air_pressure.0@[i] == s[135 + i] by {
            assert(f.subrange(135, 137)[i] == s[135 + i]);
        }
        assert forall|i: int| 0 <= i < 3 implies #[trigger] self.spatial_audio.0@[i] == s[148 + i] by {
            assert(f.subrange(148, 151)[i] == s[148 + i]);
        }
    }

    /// Where a write puts the remaining fields, at the bytes from which a
    /// read takes them.
    #[verifier::spinoff_prover]
    #[verifier::rlimit(60)]
    pub proof fn lemma_written_remaining_fields(self)
        ensures
            self.spec_body()[0] == (if self.tws_status.host_device == DeviceSide::Right {
                1u8
            } else {
                0u8
            }),
            self.spec_body()[1] == (if self.tws_status.is_connected {
                1u8
            } else {
                0u8
            }),
            self.spec_body()[140] == (if self.low_battery_prompt.is_enabled {
                1u8
            } else {
                0u8
            }),
            self.spec_body()[141] == (if self.ldac.is_enabled {
                1u8
            } else {
                0u8
            }),
            self.spec_body()[142] == (if self.dual_connections_enabled {
                1u8
            } else {
                0u8
            }),
            self.spec_body()[143] == (if self.auto_power_off.is_enabled {
                1u8
            } else {
                0u8
            }),
            self.spec_body()[145] == (if self.limit_high_volume.is_enabled {
                1u8
            } else {
                0u8
            }),
            self.spec_body()[151] == (if self.easy_chat.is_enabled {
                1u8
            } else {
                0u8
            }),
            self.spec_body()[153] == (if self.sound_leak_compensation.is_enabled {
                1u8
            } else {
                0u8
            }),
            self.spec_body()[159] == (if self.wearing_detection.is_enabled {
                1u8
            } else {
                0u8
            }),
            self.spec_body()[37] == self.case_battery_level.0,
            self.spec_body()[124] == self.ambient_sound_mode_cycle.0,
            self.spec_body()[144] == self.auto_power_off.duration,
            self.spec_body()[146] == self.limit_high_volume.db_limit,
            self.spec_body()[147] == self.limit_high_volume.refresh_rate,
            self.spec_body()[157] == self.case_language.0,
            self.spec_body()[158] == self.easy_chat.wait_time.0,
            forall|i: int| 0 <= i < 16 ==> #[trigger] self.spec_body()[16 + i] == self.serial_number.0@[i],
            forall|i: int| 0 <= i < 6 ==> #[trigger] self.spec_body()[38 + i] == self.case_serial_number.0@[i],
            forall|i: int| 0 <= i < 48 ==> #[trigger] self.spec_body()[67 + i] == self.hear_id.0@[i],
            forall|i: int| 0 <= i < 4 ==> #[trigger] self.spec_body()[125 + i] == self.sound_modes.0@[i],
            forall|i: int| 0 <= i < 3 ==> #[trigger] self.spec_body()[132 + i] == self.case_features.0@[i],
            forall|i: int| 0 <= i < 2 ==> #[trigger] self.spec_body()[135 + i] == self.air_pressure.0@[i],
            forall|i: int| 0 <= i < 3 ==> #[trigger] self.spec_body()[148 + i] == self.spatial_audio.0@[i],
    {
        let f = self.spec_fixed_body();
        let b = self.spec_body();
        self.lemma_fixed_layout();
        assert(b.take(161) =~= f);
        assert forall|k: int| 0 <= k < 161 implies b[k] == f[k] by {
            assert(b.take(161)[k] == b[k]);
        }
        assert(f[0] == f.subrange(0, 2)[0]);
        assert(f[1] == f.subrange(0, 2)[1]);
        assert(f[37] == f.subrange(37, 38)[0]);
        assert(f[124] == f.subrange(124, 125)[0]);
        assert(f[140] == f.subrange(140, 143)[0]);
        assert(f[141] == f.subrange(140, 143)[1]);
        assert(f[142] == f.subrange(140, 143)[2]);
        assert(f[143] == f.subrange(143, 145)[0]);
        assert(f[144] == f.subrange(143, 145)[1]);
        assert(f[145] == f.subrange(145, 148)[0]);
        assert(f[146] == f.subrange(145, 148)[1]);
        assert(f[147] == f.subrange(145, 148)[2]);
        assert(f[151] == f.subrange(151, 153)[0]);
        assert(f[152] == f.subrange(151, 153)[1]);
        assert(f[153] == f.subrange(153, 154)[0]);
        assert(f[157] == f.subrange(157, 161)[0]);
        assert(f[158] == f.subrange(157, 161)[1]);
        assert(f[159] == f.subrange(157, 161)[2]);
        assert(f[160] == f.subrange(157, 161)[3]);
        assert forall|i: int| 0 <= i < 16 implies #[trigger] b[16 + i] == self.serial_number.0@[i] by {
            assert(f.subrange(16, 32)[i] == f[16 + i]);
            assert(b.take(161)[16 + i] == b[16 + i]);
        }
        assert forall|i: int| 0 <= i < 6 implies #[trigger] b[38 + i] == self.case_serial_number.0@[i] by {
            assert(f.subrange(38, 44)[i] == f[38 + i]);
            assert(b.take(161)[38 + i] == b[38 + i]);
        }
        assert forall|i: int| 0 <= i < 48 implies #[trigger] b[67 + i] == self.hear_id.0@[i] by {
            assert(f.subrange(67, 115)[i] == f[67 + i]);
            assert(b.take(161)[67 + i] == b[67 + i]);
        }
        assert forall|i: int| 0 <= i < 4 implies #[trigger] b[125 + i] == self.sound_modes.0@[i] by {
            assert(f.subrange(125, 129)[i] == f[125 + i]);
            assert(b.take(161)[125 + i] == b[125 + i]);
        }
        assert forall|i: int| 0 <= i < 3 implies #[trigger] b[132 + i] == self.case_features.0@[i] by {
            assert(f.subrange(132, 135)[i] == f[132 + i]);
            assert(b.take(161)[132 + i] == b[132 + i]);
        }
        assert forall|i: int| 0 <= i < 2 implies #[trigger] b[135 + i] == self.air_pressure.0@[i] by {
            assert(f.subrange(135, 137)[i] == f[135 + i]);
            assert(b.take(161)[135 + i] == b[135 + i]);
        }
        assert forall|i: int| 0 <= i < 3 implies #[trigger] b[148 + i] == self.spatial_audio.0@[i] by {
            assert(f.subrange(148, 151)[i] == f[148 + i]);
            assert(b.take(161)[148 + i] == b[148 + i]);
        }
    }
}

/// Whether the firmware version bytes of a body are ASCII digits with dots
/// at bytes 8, 13 and 34.
pub open spec fn version_bytes_are_digits(s: Seq<u8>) -> bool {
    &&& 48 <= s[6] <= 57
    &&& 48 <= s[7] <= 57
    &&& 48 <= s[9] <= 57
    &&& 48 <= s[10] <= 57
    &&& 48 <= s[11] <= 57
    &&& 48 <= s[12] <= 57
    &&& 48 <= s[14] <= 57
    &&& 48 <= s[15] <= 57
    &&& 48 <= s[32] <= 57
    &&& 48 <= s[33] <= 57
    &&& 48 <= s[35] <= 57
    &&& 48 <= s[36] <= 57
    &&& s[8] == 46
    &&& s[13] == 46
    &&& s[34] == 46
}

/// Which inputs a read accepts, stated byte by byte: exactly those of 161
/// bytes or of at least 165 whose version bytes are digits and dots. An
/// input shorter than 161 bytes is cut short; one of at least 161 with a bad
/// version byte has an invalid firmware version; one of 162 to 164 bytes
/// with good versions is cut short in the slide buttons. A read of 161 bytes
/// consumes them all, any longer read consumes 165.
pub proof fn lemma_accepts_exactly(s: Seq<u8>)
    ensures
        spec_take_error(s) is None <==> (s.len() == 161 || s.len() >= 165)
            && version_bytes_are_digits(s),
        s.len() < 161 ==> spec_take_error(s) == Some(ParseError::UnexpectedEnd),
        s.len() >= 161 && !version_bytes_are_digits(s) ==> spec_take_error(s) == Some(
            ParseError::InvalidFirmwareVersion,
        ),
        161 < s.len() < 165 && version_bytes_are_digits(s) ==> spec_take_error(s) == Some(
            ParseError::UnexpectedEnd,
        ),
        spec_take_error(s) is None ==> spec_consumed(s) == (if s.len() == 161 {
            161int
        } else {
            165int
        }),
{
    if s.len() >= 161 {
        let f = s.take(161);
        let fw = f.subrange(6, 16);
        let l = fw.subrange(0, 5);
        let r = fw.subrange(5, 10);
        let c = f.subrange(32, 37);
        assert(l[0] == s[6] && l[1] == s[7] && l[2] == s[8] && l[3] == s[9] && l[4] == s[10]);
        assert(r[0] == s[11] && r[1] == s[12] && r[2] == s[13] && r[3] == s[14] && r[4] == s[15]);
        assert(c[0] == s[32] && c[1] == s[33] && c[2] == s[34] && c[3] == s[35] && c[4] == s[36]);
    }
}

/// When `whole` begins with `prefix + piece`, the piece stands right after the
/// prefix, and `whole` begins with the prefix.
pub proof fn lemma_peel(whole: Seq<u8>, prefix: Seq<u8>, piece: Seq<u8>)
    requires
        (prefix.len() + piece.len()) as int <= whole.len(),
        whole.take((prefix.len() + piece.len()) as int) == prefix + piece,
    ensures
        whole.subrange(prefix.len() as int, (prefix.len() + piece.len()) as int) == piece,
        whole.take(prefix.len() as int) == prefix,
{
    let n: int = (prefix.len() + piece.len()) as int;
    assert(whole.subrange(prefix.len() as int, n) =~= (prefix + piece).subrange(
        prefix.len() as int,
        n,
    ));
    assert((prefix + piece).subrange(prefix.len() as int, n) =~= piece);
    assert(whole.take(prefix.len() as int) =~= (prefix + piece).take(prefix.len() as int));
    assert((prefix + piece).take(prefix.len() as int) =~= prefix);
}

} // verus!
