//! The state update packet of the Soundcore A3954: what the earbuds report
//! about every setting in one message, its layout on the wire, and the
//! verified reading and writing of it.
use crate::button_configuration::{ActionStatus, ButtonStatus, ButtonStatusCollection};
use crate::bytes::{append_bytes, copy_bytes, flag_byte, flag_of, read_flag, write_flag};
use crate::firmware_version::{CaseFirmwareVersion, DualFirmwareVersion, FirmwareVersion};
use crate::structures::{
    AirPressure, AmbientSoundModeCycle, AutoPowerOff, BatteryLevel, CaseBatteryLevel,
    CaseFeatures, CaseLanguage, CaseSerialNumber, CommonEqualizerConfiguration, CustomHearId,
    DeviceSide, DualBattery, EasyChat, EasyChatWaitTime, IsCharging, Ldac, LimitHighVolume,
    LowBatteryPrompt, SerialNumber, SingleBattery, SoundLeakCompensation, SoundModes, SpatialAudio,
    TwsStatus, WearingDetection,
};
use vstd::prelude::*;
use vstd::slice::slice_subrange;

verus! {

/// The length of a packet body without the slide button configuration.
pub const BODY_LEN_WITHOUT_SLIDE_BUTTONS: usize = 161;

/// The length of a packet body with the slide button configuration.
pub const BODY_LEN_WITH_SLIDE_BUTTONS: usize = 165;

/// Why a state update packet could not be read.
#[derive(Clone, Copy, Debug, PartialEq, Eq)]
pub enum ParseError {
    /// The input ends inside the packet: it is shorter than the part every
    /// firmware sends, or it holds only part of the slide button
    /// configuration.
    UnexpectedEnd,
    /// A firmware version is not two digits, a dot and two digits.
    InvalidFirmwareVersion,
}

/// The two bytes that name a packet's kind.
#[derive(Clone, Copy, Debug, PartialEq, Eq)]
pub struct Command(pub [u8; 2]);

/// Everything the earbuds report about their state in one packet.
pub struct A3954StateUpdatePacket {
    pub tws_status: TwsStatus,
    pub battery: DualBattery,
    pub firmware_version: DualFirmwareVersion,
    pub serial_number: SerialNumber,
    pub case_firmware_version: CaseFirmwareVersion,
    pub case_battery_level: CaseBatteryLevel,
    pub case_serial_number: CaseSerialNumber,
    pub equalizer_configuration: CommonEqualizerConfiguration,
    pub hear_id: CustomHearId,
    /// Left single, right single, left double, right double, left triple,
    /// right triple, left long and right long press, in that order.
    pub button_configuration: ButtonStatusCollection<8>,
    /// Left slide up, right slide up, left slide down and right slide down.
    /// Not included in the state update packet by some firmware versions. None means it was not
    /// reported, not that it is disabled.
    pub slide_button_configuration: Option<ButtonStatusCollection<4>>,
    pub ambient_sound_mode_cycle: AmbientSoundModeCycle,
    pub sound_modes: SoundModes,
    pub case_features: CaseFeatures,
    pub air_pressure: AirPressure,
    pub low_battery_prompt: LowBatteryPrompt,
    pub ldac: Ldac,
    pub dual_connections_enabled: bool,
    pub auto_power_off: AutoPowerOff,
    pub limit_high_volume: LimitHighVolume,
    pub spatial_audio: SpatialAudio,
    pub easy_chat: EasyChat,
    pub sound_leak_compensation: SoundLeakCompensation,
    pub case_language: CaseLanguage,
    pub wearing_detection: WearingDetection,
}

/// Whether the firmware versions in a body are readable.
pub open spec fn firmware_versions_valid(s: Seq<u8>) -> bool {
    &&& DualFirmwareVersion::valid_bytes(s.take(161).subrange(6, 16))
    &&& FirmwareVersion::valid_bytes(s.take(161).subrange(32, 37))
}

/// The error that reading a packet from `s` gives, if any: the fixed part is
/// checked first, its firmware versions next, and the slide button
/// configuration last.
pub open spec fn spec_take_error(s: Seq<u8>) -> Option<ParseError> {
    if s.len() < BODY_LEN_WITHOUT_SLIDE_BUTTONS {
        Some(ParseError::UnexpectedEnd)
    } else if !firmware_versions_valid(s) {
        Some(ParseError::InvalidFirmwareVersion)
    } else if BODY_LEN_WITHOUT_SLIDE_BUTTONS < s.len() < BODY_LEN_WITH_SLIDE_BUTTONS {
        Some(ParseError::UnexpectedEnd)
    } else {
        None
    }
}

/// How many bytes a successful read consumes: the slide button
/// configuration is read when any byte follows the fixed part.
pub open spec fn spec_consumed(s: Seq<u8>) -> int {
    if s.len() == BODY_LEN_WITHOUT_SLIDE_BUTTONS {
        BODY_LEN_WITHOUT_SLIDE_BUTTONS as int
    } else {
        BODY_LEN_WITH_SLIDE_BUTTONS as int
    }
}

/// How many bytes the slide button configuration takes from what follows
/// the fixed part.
pub open spec fn spec_slide_consumed(rest: Seq<u8>) -> int {
    if rest.len() == 0 {
        0
    } else {
        4
    }
}

/// Whether the slide button configuration `slide` is what the bytes after the
/// fixed part denote: none when nothing follows, else the next four bytes.
pub open spec fn slide_parsed_from(
    slide: Option<ButtonStatusCollection<4>>,
    rest: Seq<u8>,
) -> bool {
    if rest.len() == 0 {
        slide is None
    } else {
        slide matches Some(c) && c.parsed_from(rest.take(4))
    }
}

impl A3954StateUpdatePacket {
    /// Whether every field of the fixed part is what its bytes in the fixed
    /// part `s` (161 bytes) denote.
    pub open spec fn fixed_parsed_from(self, s: Seq<u8>) -> bool {
        &&& self.tws_status == TwsStatus::spec_parse(s.subrange(0, 2))
        &&& self.battery == DualBattery::spec_parse(s.subrange(2, 6))
        &&& self.firmware_version == DualFirmwareVersion::spec_parse(s.subrange(6, 16))
        &&& self.serial_number.0@ == s.subrange(16, 32)
        &&& self.case_firmware_version.0 == FirmwareVersion::spec_parse(s.subrange(32, 37))
        &&& self.case_battery_level.0 == s[37]
        &&& self.case_serial_number.0@ == s.subrange(38, 44)
        &&& self.equalizer_configuration.parsed_from(s.subrange(44, 66))
        &&& self.hear_id.0@ == s.subrange(67, 115)
        &&& self.button_configuration.parsed_from(s.subrange(116, 124))
        &&& self.ambient_sound_mode_cycle.0 == s[124]
        &&& self.sound_modes.0@ == s.subrange(125, 129)
        &&& self.case_features.0@ == s.subrange(132, 135)
        &&& self.air_pressure.0@ == s.subrange(135, 137)
        &&& self.low_battery_prompt.is_enabled == flag_of(s[140])
        &&& self.ldac.is_enabled == flag_of(s[141])
        &&& self.dual_connections_enabled == flag_of(s[142])
        &&& self.auto_power_off == AutoPowerOff { is_enabled: flag_of(s[143]), duration: s[144] }
        &&& self.limit_high_volume == LimitHighVolume {
            is_enabled: flag_of(s[145]),
            db_limit: s[146],
            refresh_rate: s[147],
        }
        &&& self.spatial_audio.0@ == s.subrange(148, 151)
        &&& self.easy_chat == EasyChat {
            is_enabled: flag_of(s[151]),
            wait_time: EasyChatWaitTime(s[158]),
        }
        &&& self.sound_leak_compensation.is_enabled == flag_of(s[153])
        &&& self.case_language.0 == s[157]
        &&& self.wearing_detection.is_enabled == flag_of(s[159])
    }

    /// Whether every field is what its bytes in the body `s` denote.
    pub open spec fn parsed_from(self, s: Seq<u8>) -> bool {
        &&& self.fixed_parsed_from(s.take(161))
        &&& slide_parsed_from(self.slide_button_configuration, s.skip(161))
    }

    /// Whether every field has a byte form that reads back as itself.
    pub open spec fn wf(self) -> bool {
        &&& self.firmware_version.wf()
        &&& self.case_firmware_version.0.wf()
        &&& self.button_configuration.wf()
        &&& self.slide_button_configuration matches Some(c) ==> c.wf()
    }

    /// The part of the body that every firmware sends; unknown bytes are
    /// written as 0.
    pub open spec fn spec_fixed_body(self) -> Seq<u8> {
        self.tws_status.spec_bytes() + self.battery.spec_bytes()
            + self.firmware_version.spec_bytes() + self.serial_number.0@
            + self.case_firmware_version.0.spec_bytes() + seq![self.case_battery_level.0]
            + self.case_serial_number.0@ + self.equalizer_configuration.spec_bytes() + seq![0u8]
            + self.hear_id.0@ + seq![0u8] + self.button_configuration.spec_bytes() + seq![
            self.ambient_sound_mode_cycle.0,
        ] + self.sound_modes.0@ + seq![0u8, 0u8, 0u8] + self.case_features.0@
            + self.air_pressure.0@ + seq![0u8, 0u8, 0u8] + seq![
            flag_byte(self.low_battery_prompt.is_enabled),
            flag_byte(self.ldac.is_enabled),
            flag_byte(self.dual_connections_enabled),
        ] + seq![flag_byte(self.auto_power_off.is_enabled), self.auto_power_off.duration]
            + seq![
            flag_byte(self.limit_high_volume.is_enabled),
            self.limit_high_volume.db_limit,
            self.limit_high_volume.refresh_rate,
        ] + self.spatial_audio.0@ + seq![flag_byte(self.easy_chat.is_enabled), 0u8] + seq![
            flag_byte(self.sound_leak_compensation.is_enabled),
        ] + seq![0u8, 0u8, 0u8] + seq![
            self.case_language.0,
            self.easy_chat.wait_time.0,
            flag_byte(self.wearing_detection.is_enabled),
            0u8,
        ]
    }

    /// The bytes of the slide button configuration, none when it is absent.
    pub open spec fn spec_slide_bytes(self) -> Seq<u8> {
        match self.slide_button_configuration {
            Some(c) => c.spec_bytes(),
            None => Seq::empty(),
        }
    }

    /// The whole packet body.
    pub open spec fn spec_body(self) -> Seq<u8> {
        self.spec_fixed_body() + self.spec_slide_bytes()
    }
}

/// Reads the slide button configuration from what follows the fixed part.
/// Older firmware versions end the packet before it: when nothing follows, it
/// was not reported. When something follows, all four bytes must be there,
/// since a partial configuration is a truncated packet rather than an older
/// format.
fn take_slide_button_configuration(input: &[u8]) -> (res: Result<
    (&[u8], Option<ButtonStatusCollection<4>>),
    ParseError,
>)
    ensures
        match res {
            Ok((rest, slide)) => {
                &&& !(0 < input@.len() < 4)
                &&& slide_parsed_from(slide, input@)
                &&& rest@ == input@.skip(spec_slide_consumed(input@))
            },
            Err(e) => 0 < input@.len() < 4 && e == ParseError::UnexpectedEnd,
        },
{
    if input.len() == 0 {
        assert(input@.skip(0) =~= input@);
        return Ok((input, None));
    }
    if input.len() < 4 {
        return Err(ParseError::UnexpectedEnd);
    }
    let buttons = ButtonStatusCollection::<4>::parse(slice_subrange(input, 0, 4));
    Ok((slice_subrange(input, 4, input.len()), Some(buttons)))
}

impl A3954StateUpdatePacket {
    /// Reads a state update packet from the start of `input` and returns the
    /// bytes after it with the packet. Fails when the input is cut short or a
    /// firmware version is unreadable (see `spec_take_error`).
    pub fn take(input: &[u8]) -> (res: Result<(&[u8], A3954StateUpdatePacket), ParseError>)
        ensures
            match res {
                Ok((rest, p)) => {
                    &&& spec_take_error(input@) is None
                    &&& p.parsed_from(input@)
                    &&& rest@ == input@.skip(spec_consumed(input@))
                },
                Err(e) => spec_take_error(input@) == Some(e),
            },
    {
        if input.len() < BODY_LEN_WITHOUT_SLIDE_BUTTONS {
            return Err(ParseError::UnexpectedEnd);
        }
        let fixed = slice_subrange(input, 0, 161);
        assert(fixed@ == input@.take(161));
        let firmware_version = match DualFirmwareVersion::parse(slice_subrange(fixed, 6, 16)) {
            Some(v) => v,
            None => return Err(ParseError::InvalidFirmwareVersion),
        };
        let case_firmware_version = match FirmwareVersion::parse(slice_subrange(fixed, 32, 37)) {
            Some(v) => v,
            None => return Err(ParseError::InvalidFirmwareVersion),
        };
        let tail = slice_subrange(input, 161, input.len());
        assert(tail@ == input@.skip(161));
        let (rest, slide_button_configuration) = match take_slide_button_configuration(tail) {
            Ok(r) => r,
            Err(e) => return Err(e),
        };
        assert(rest@ =~= input@.skip(spec_consumed(input@)));
        let packet = A3954StateUpdatePacket {
            tws_status: TwsStatus::parse(slice_subrange(fixed, 0, 2)),
            battery: DualBattery::parse(slice_subrange(fixed, 2, 6)),
            firmware_version,
            serial_number: SerialNumber(copy_bytes::<16>(fixed, 16)),
            case_firmware_version: CaseFirmwareVersion(case_firmware_version),
            case_battery_level: CaseBatteryLevel(fixed[37]),
            case_serial_number: CaseSerialNumber(copy_bytes::<6>(fixed, 38)),
            equalizer_configuration: CommonEqualizerConfiguration::parse(
                slice_subrange(fixed, 44, 66),
            ),
            hear_id: CustomHearId(copy_bytes::<48>(fixed, 67)),
            button_configuration: ButtonStatusCollection::<8>::parse(
                slice_subrange(fixed, 116, 124),
            ),
            slide_button_configuration,
            ambient_sound_mode_cycle: AmbientSoundModeCycle(fixed[124]),
            sound_modes: SoundModes(copy_bytes::<4>(fixed, 125)),
            case_features: CaseFeatures(copy_bytes::<3>(fixed, 132)),
            air_pressure: AirPressure(copy_bytes::<2>(fixed, 135)),
            low_battery_prompt: LowBatteryPrompt { is_enabled: read_flag(fixed[140]) },
            ldac: Ldac { is_enabled: read_flag(fixed[141]) },
            dual_connections_enabled: read_flag(fixed[142]),
            auto_power_off: AutoPowerOff { is_enabled: read_flag(fixed[143]), duration: fixed[144] },
            limit_high_volume: LimitHighVolume {
                is_enabled: read_flag(fixed[145]),
                db_limit: fixed[146],
                refresh_rate: fixed[147],
            },
            spatial_audio: SpatialAudio(copy_bytes::<3>(fixed, 148)),
            easy_chat: EasyChat {
                is_enabled: read_flag(fixed[151]),
                wait_time: EasyChatWaitTime(fixed[158]),
            },
            sound_leak_compensation: SoundLeakCompensation { is_enabled: read_flag(fixed[153]) },
            case_language: CaseLanguage(fixed[157]),
            wearing_detection: WearingDetection { is_enabled: read_flag(fixed[159]) },
        };
        Ok((rest, packet))
    }

    /// The packet body: the fixed part, unknown bytes written as 0, then the
    /// slide button configuration when it is present.
    pub fn body(&self) -> (out: Vec<u8>)
        ensures
            out@ == self.spec_body(),
    {
        let mut out: Vec<u8> = Vec::new();
        append_bytes(&mut out, &self.tws_status.bytes());
        assert(out@ =~= self.tws_status.spec_bytes());
        append_bytes(&mut out, &self.battery.bytes());
        append_bytes(&mut out, &self.firmware_version.bytes());
        append_bytes(&mut out, &self.serial_number.0);
        append_bytes(&mut out, &self.case_firmware_version.0.bytes());
        {
            let piece = [self.case_battery_level.0];
            assert(piece@ =~= seq![self.case_battery_level.0]);
            append_bytes(&mut out, &piece);
        }
        append_bytes(&mut out, &self.case_serial_number.0);
        append_bytes(&mut out, &self.equalizer_configuration.bytes());
        {
            let piece = [0u8];
            assert(piece@ =~= seq![0u8]);
            append_bytes(&mut out, &piece);
        }
        append_bytes(&mut out, &self.hear_id.0);
        {
            let piece = [0u8];
            assert(piece@ =~= seq![0u8]);
            append_bytes(&mut out, &piece);
        }
        append_bytes(&mut out, &self.button_configuration.bytes());
        {
            let piece = [self.ambient_sound_mode_cycle.0];
            assert(piece@ =~= seq![self.ambient_sound_mode_cycle.0]);
            append_bytes(&mut out, &piece);
        }
        append_bytes(&mut out, &self.sound_modes.0);
        {
            let piece = [0u8, 0u8, 0u8];
            assert(piece@ =~= seq![0u8, 0u8, 0u8]);
            append_bytes(&mut out, &piece);
        }
        append_bytes(&mut out, &self.case_features.0);
        append_bytes(&mut out, &self.air_pressure.0);
        {
            let piece = [0u8, 0u8, 0u8];
            assert(piece@ =~= seq![0u8, 0u8, 0u8]);
            append_bytes(&mut out, &piece);
        }
        {
            let piece = [write_flag(self.low_battery_prompt.is_enabled),
                write_flag(self.ldac.is_enabled),
                write_flag(self.dual_connections_enabled)];
            assert(piece@ =~= seq![flag_byte(self.low_battery_prompt.is_enabled),
                flag_byte(self.ldac.is_enabled),
                flag_byte(self.dual_connections_enabled)]);
            append_bytes(&mut out, &piece);
        }
        {
            let piece = [write_flag(self.auto_power_off.is_enabled), self.auto_power_off.duration];
            assert(piece@ =~= seq![flag_byte(self.auto_power_off.is_enabled), self.auto_power_off.duration]);
            append_bytes(&mut out, &piece);
        }
        {
            let piece = [write_flag(self.limit_high_volume.is_enabled),
                self.limit_high_volume.db_limit,
                self.limit_high_volume.refresh_rate];
            assert(piece@ =~= seq![flag_byte(self.limit_high_volume.is_enabled),
                self.limit_high_volume.db_limit,
                self.limit_high_volume.refresh_rate]);
            append_bytes(&mut out, &piece);
        }
        append_bytes(&mut out, &self.spatial_audio.0);
        {
            let piece = [write_flag(self.easy_chat.is_enabled), 0u8];
            assert(piece@ =~= seq![flag_byte(self.easy_chat.is_enabled), 0u8]);
            append_bytes(&mut out, &piece);
        }
        {
            let piece = [write_flag(self.sound_leak_compensation.is_enabled)];
            assert(piece@ =~= seq![flag_byte(self.sound_leak_compensation.is_enabled)]);
            append_bytes(&mut out, &piece);
        }
        {
            let piece = [0u8, 0u8, 0u8];
            assert(piece@ =~= seq![0u8, 0u8, 0u8]);
            append_bytes(&mut out, &piece);
        }
        {
            let piece = [self.case_language.0,
                self.easy_chat.wait_time.0,
                write_flag(self.wearing_detection.is_enabled),
                0u8];
            assert(piece@ =~= seq![self.case_language.0,
                self.easy_chat.wait_time.0,
                flag_byte(self.wearing_detection.is_enabled),
                0u8]);
            append_bytes(&mut out, &piece);
        }
        assert(out@ == self.spec_fixed_body());
        match &self.slide_button_configuration {
            Some(c) => append_bytes(&mut out, &c.bytes()),
            None => {},
        }
        assert(out@ =~= self.spec_body());
        out
    }

    /// The command under which the earbuds send this packet.
    pub fn command(&self) -> (c: Command)
        ensures
            c.0@ == seq![1u8, 1u8],
    {
        let c = Command([1u8, 1u8]);
        assert(c.0@ =~= seq![1u8, 1u8]);
        c
    }
}

impl A3954StateUpdatePacket {
    /// The packet of a device in its initial state: every level, flag and
    /// byte 0, both sides' firmware `00.00`, the left earbud as host, and
    /// both button configurations (slide buttons included) at their defaults.
    pub open spec fn is_default(self) -> bool {
        &&& self.tws_status == TwsStatus { host_device: DeviceSide::Left, is_connected: false }
        &&& self.battery == DualBattery {
            left: SingleBattery { is_charging: IsCharging::No, level: BatteryLevel(0) },
            right: SingleBattery { is_charging: IsCharging::No, level: BatteryLevel(0) },
        }
        &&& self.firmware_version == DualFirmwareVersion {
            left: FirmwareVersion { major: 0, minor: 0 },
            right: FirmwareVersion { major: 0, minor: 0 },
        }
        &&& self.serial_number.0@ == Seq::new(16, |i: int| 0u8)
        &&& self.case_firmware_version.0 == FirmwareVersion { major: 0, minor: 0 }
        &&& self.case_battery_level.0 == 0
        &&& self.case_serial_number.0@ == Seq::new(6, |i: int| 0u8)
        &&& self.equalizer_configuration.preset_id == 0
        &&& self.equalizer_configuration.volume_adjustments@ == Seq::new(20, |i: int| 0u8)
        &&& self.hear_id.0@ == Seq::new(48, |i: int| 0u8)
        &&& self.button_configuration.0@ == Seq::new(8, |i: int| default_button_status())
        &&& self.slide_button_configuration matches Some(c) && c.0@ == Seq::new(
            4,
            |i: int| default_button_status(),
        )
        &&& self.ambient_sound_mode_cycle.0 == 0
        &&& self.sound_modes.0@ == Seq::new(4, |i: int| 0u8)
        &&& self.case_features.0@ == Seq::new(3, |i: int| 0u8)
        &&& self.air_pressure.0@ == Seq::new(2, |i: int| 0u8)
        &&& !self.low_battery_prompt.is_enabled
        &&& !self.ldac.is_enabled
        &&& !self.dual_connections_enabled
        &&& self.auto_power_off == AutoPowerOff { is_enabled: false, duration: 0 }
        &&& self.limit_high_volume == LimitHighVolume {
            is_enabled: false,
            db_limit: 0,
            refresh_rate: 0,
        }
        &&& self.spatial_audio.0@ == Seq::new(3, |i: int| 0u8)
        &&& self.easy_chat == EasyChat { is_enabled: false, wait_time: EasyChatWaitTime(0) }
        &&& !self.sound_leak_compensation.is_enabled
        &&& self.case_language.0 == 0
        &&& !self.wearing_detection.is_enabled
    }
}

/// The default status of a button: no enabled flag, action 0 both ways.
pub open spec fn default_button_status() -> ButtonStatus {
    ButtonStatus { enabled: None, action: ActionStatus::Tws { connected: 0, disconnected: 0 } }
}

impl Default for A3954StateUpdatePacket {
    fn default() -> (p: Self)
        ensures
            p.is_default(),
            p.wf(),
    {
        let p = A3954StateUpdatePacket {
            tws_status: TwsStatus { host_device: DeviceSide::Left, is_connected: false },
            battery: DualBattery {
                left: SingleBattery { is_charging: IsCharging::No, level: BatteryLevel(0) },
                right: SingleBattery { is_charging: IsCharging::No, level: BatteryLevel(0) },
            },
            firmware_version: DualFirmwareVersion {
                left: FirmwareVersion::new(0, 0),
                right: FirmwareVersion::new(0, 0),
            },
            serial_number: SerialNumber([0u8; 16]),
            case_firmware_version: CaseFirmwareVersion(FirmwareVersion::new(0, 0)),
            case_serial_number: CaseSerialNumber([0u8; 6]),
            equalizer_configuration: CommonEqualizerConfiguration {
                preset_id: 0,
                volume_adjustments: [0u8; 20],
            },
            hear_id: CustomHearId([0u8; 48]),
            button_configuration: ButtonStatusCollection::<8>::default_status_collection(),
            slide_button_configuration: Some(
                ButtonStatusCollection::<4>::default_status_collection(),
            ),
            ambient_sound_mode_cycle: AmbientSoundModeCycle(0),
            sound_modes: SoundModes([0u8; 4]),
            case_features: CaseFeatures([0u8; 3]),
            air_pressure: AirPressure([0u8; 2]),
            low_battery_prompt: LowBatteryPrompt { is_enabled: false },
            ldac: Ldac { is_enabled: false },
            dual_connections_enabled: false,
            auto_power_off: AutoPowerOff { is_enabled: false, duration: 0 },
            limit_high_volume: LimitHighVolume { is_enabled: false, db_limit: 0, refresh_rate: 0 },
            spatial_audio: SpatialAudio([0u8; 3]),
            easy_chat: EasyChat { is_enabled: false, wait_time: EasyChatWaitTime(0) },
            sound_leak_compensation: SoundLeakCompensation { is_enabled: false },
            case_language: CaseLanguage(0),
            wearing_detection: WearingDetection { is_enabled: false },
            case_battery_level: CaseBatteryLevel(0),
        };
        assert(p.serial_number.0@ =~= Seq::new(16, |i: int| 0u8));
        assert(p.case_serial_number.0@ =~= Seq::new(6, |i: int| 0u8));
        assert(p.equalizer_configuration.volume_adjustments@ =~= Seq::new(20, |i: int| 0u8));
        assert(p.hear_id.0@ =~= Seq::new(48, |i: int| 0u8));
        assert(p.button_configuration.0@ =~= Seq::new(8, |i: int| default_button_status()));
        assert(p.sound_modes.0@ =~= Seq::new(4, |i: int| 0u8));
        assert(p.case_features.0@ =~= Seq::new(3, |i: int| 0u8));
        assert(p.air_pressure.0@ =~= Seq::new(2, |i: int| 0u8));
        assert(p.spatial_audio.0@ =~= Seq::new(3, |i: int| 0u8));
        match p.slide_button_configuration {
            Some(c) => {
                assert(c.0@ =~= Seq::new(4, |i: int| default_button_status()));
            },
            None => {},
        }
        p
    }
}

} // verus!
