//! The fields of the state update packet, each with its byte form.
//!
//! On/off bytes read as "on" exactly when they hold 1 and are written as 1 or
//! 0. Fields whose inner meaning this packet does not need are carried as the
//! bytes the device sent.
use crate::bytes::{flag_byte, flag_of, read_flag, write_flag};
use vstd::prelude::*;

verus! {

/// Which earbud acts as the host.
#[derive(Clone, Copy, Debug, PartialEq, Eq)]
pub enum DeviceSide {
    Left,
    Right,
}

/// The pairing state of the two earbuds: two bytes, the host side (1 for
/// right) and whether the earbuds are connected to each other.
#[derive(Clone, Copy, Debug, PartialEq, Eq)]
pub struct TwsStatus {
    pub host_device: DeviceSide,
    pub is_connected: bool,
}

impl TwsStatus {
    pub open spec fn spec_parse(b: Seq<u8>) -> TwsStatus {
        TwsStatus {
            host_device: if flag_of(b[0]) {
                DeviceSide::Right
            } else {
                DeviceSide::Left
            },
            is_connected: flag_of(b[1]),
        }
    }

    pub open spec fn spec_bytes(self) -> Seq<u8> {
        seq![flag_byte(self.host_device == DeviceSide::Right), flag_byte(self.is_connected)]
    }

    pub fn parse(b: &[u8]) -> (t: TwsStatus)
        requires
            b@.len() == 2,
        ensures
            t == Self::spec_parse(b@),
    {
        TwsStatus {
            host_device: if read_flag(b[0]) {
                DeviceSide::Right
            } else {
                DeviceSide::Left
            },
            is_connected: read_flag(b[1]),
        }
    }

    pub fn bytes(&self) -> (out: [u8; 2])
        ensures
            out@ == self.spec_bytes(),
    {
        let right = match self.host_device {
            DeviceSide::Right => true,
            DeviceSide::Left => false,
        };
        let out = [write_flag(right), write_flag(self.is_connected)];
        assert(out@ =~= self.spec_bytes());
        out
    }
}

/// A battery level as the device reports it.
#[derive(Clone, Copy, Debug, PartialEq, Eq)]
pub struct BatteryLevel(pub u8);

/// Whether a battery is charging.
#[derive(Clone, Copy, Debug, PartialEq, Eq)]
pub enum IsCharging {
    No,
    Yes,
}

/// One earbud's battery.
#[derive(Clone, Copy, Debug, PartialEq, Eq)]
pub struct SingleBattery {
    pub is_charging: IsCharging,
    pub level: BatteryLevel,
}

/// Both earbuds' batteries: four bytes, the left and right levels and then
/// the left and right charging flags.
#[derive(Clone, Copy, Debug, PartialEq, Eq)]
pub struct DualBattery {
    pub left: SingleBattery,
    pub right: SingleBattery,
}

pub open spec fn charging_of(b: u8) -> IsCharging {
    if flag_of(b) {
        IsCharging::Yes
    } else {
        IsCharging::No
    }
}

pub open spec fn charging_byte(c: IsCharging) -> u8 {
    flag_byte(c == IsCharging::Yes)
}

fn read_charging(b: u8) -> (c: IsCharging)
    ensures
        c == charging_of(b),
{
    if read_flag(b) {
        IsCharging::Yes
    } else {
        IsCharging::No
    }
}

fn write_charging(c: IsCharging) -> (b: u8)
    ensures
        b == charging_byte(c),
{
    match c {
        IsCharging::Yes => write_flag(true),
        IsCharging::No => write_flag(false),
    }
}

impl DualBattery {
    pub open spec fn spec_parse(b: Seq<u8>) -> DualBattery {
        DualBattery {
            left: SingleBattery { is_charging: charging_of(b[2]), level: BatteryLevel(b[0]) },
            right: SingleBattery { is_charging: charging_of(b[3]), level: BatteryLevel(b[1]) },
        }
    }

    pub open spec fn spec_bytes(self) -> Seq<u8> {
        seq![
            self.left.level.0,
            self.right.level.0,
            charging_byte(self.left.is_charging),
            charging_byte(self.right.is_charging),
        ]
    }

    /// Byte 2 is the left earbud's charging flag and byte 3 the right's;
    /// byte 0 is the left level and byte 1 the right, both ways.
    pub proof fn lemma_sides(self, b: Seq<u8>)
        ensures
            Self::spec_parse(b).left.level.0 == b[0],
            Self::spec_parse(b).right.level.0 == b[1],
            Self::spec_parse(b).left.is_charging == (if b[2] == 1 {
                IsCharging::Yes
            } else {
                IsCharging::No
            }),
            Self::spec_parse(b).right.is_charging == (if b[3] == 1 {
                IsCharging::Yes
            } else {
                IsCharging::No
            }),
            self.spec_bytes()[0] == self.left.level.0,
            self.spec_bytes()[1] == self.right.level.0,
            self.spec_bytes()[2] == (if self.left.is_charging == IsCharging::Yes {
                1u8
            } else {
                0u8
            }),
            self.spec_bytes()[3] == (if self.right.is_charging == IsCharging::Yes {
                1u8
            } else {
                0u8
            }),
    {
    }

    pub fn parse(b: &[u8]) -> (d: DualBattery)
        requires
            b@.len() == 4,
        ensures
            d == Self::spec_parse(b@),
    {
        DualBattery {
            left: SingleBattery { is_charging: read_charging(b[2]), level: BatteryLevel(b[0]) },
            right: SingleBattery { is_charging: read_charging(b[3]), level: BatteryLevel(b[1]) },
        }
    }

    pub fn bytes(&self) -> (out: [u8; 4])
        ensures
            out@ == self.spec_bytes(),
    {
        let out = [
            self.left.level.0,
            self.right.level.0,
            write_charging(self.left.is_charging),
            write_charging(self.right.is_charging),
        ];
        assert(out@ =~= self.spec_bytes());
        out
    }
}

/// The earbuds' serial number: sixteen ASCII bytes.
#[derive(Clone, Copy, Debug, PartialEq, Eq)]
pub struct SerialNumber(pub [u8; 16]);

/// The charging case's serial number: six bytes.
#[derive(Clone, Copy, Debug, PartialEq, Eq)]
pub struct CaseSerialNumber(pub [u8; 6]);

/// The charging case's battery level: one byte.
#[derive(Clone, Copy, Debug, PartialEq, Eq)]
pub struct CaseBatteryLevel(pub u8);

/// The equalizer: a preset id (two bytes, little endian) and then the volume
/// adjustments of two channels of ten bands each, left channel first.
#[derive(Clone, Copy, Debug, PartialEq, Eq)]
pub struct CommonEqualizerConfiguration {
    pub preset_id: u16,
    pub volume_adjustments: [u8; 20],
}

impl CommonEqualizerConfiguration {
    pub open spec fn parsed_from(self, b: Seq<u8>) -> bool {
        &&& self.preset_id == b[0] + 256 * b[1]
        &&& self.volume_adjustments@ == b.subrange(2, 22)
    }

    pub open spec fn spec_bytes(self) -> Seq<u8> {
        seq![(self.preset_id % 256) as u8, (self.preset_id / 256) as u8]
            + self.volume_adjustments@
    }

    pub fn parse(b: &[u8]) -> (e: CommonEqualizerConfiguration)
        requires
            b@.len() == 22,
        ensures
            e.parsed_from(b@),
    {
        CommonEqualizerConfiguration {
            preset_id: b[0] as u16 + 256 * (b[1] as u16),
            volume_adjustments: crate::bytes::copy_bytes::<20>(b, 2),
        }
    }

    pub fn bytes(&self) -> (out: [u8; 22])
        ensures
            out@ == self.spec_bytes(),
    {
        let mut out = [0u8; 22];
        out[0] = (self.preset_id % 256) as u8;
        out[1] = (self.preset_id / 256) as u8;
        let mut i: usize = 0;
        while i < 20
            invariant
                i <= 20,
                out@.len() == 22,
                out@[0] == (self.preset_id % 256) as u8,
                out@[1] == (self.preset_id / 256) as u8,
                forall|j: int| 0 <= j < i ==> out@[2 + j] == self.volume_adjustments@[j],
            decreases 20 - i,
        {
            out[2 + i] = self.volume_adjustments[i];
            i = i + 1;
        }
        assert(out@ =~= self.spec_bytes());
        out
    }

    /// The preset is bytes 0 and 1, low byte first, and band adjustment `i`
    /// is byte `2 + i`, both ways.
    pub proof fn lemma_positions(self, b: Seq<u8>)
        requires
            b.len() == 22,
            self.parsed_from(b),
        ensures
            self.preset_id == b[0] + 256 * b[1],
            forall|i: int| 0 <= i < 20 ==> #[trigger] self.volume_adjustments@[i] == b[2 + i],
            self.spec_bytes()[0] == self.preset_id % 256,
            self.spec_bytes()[1] == self.preset_id / 256,
            forall|i: int|
                0 <= i < 20 ==> #[trigger] self.spec_bytes()[2 + i] == self.volume_adjustments@[i],
    {
        assert forall|i: int| 0 <= i < 20 implies #[trigger] self.volume_adjustments@[i] == b[2 + i] by {
            assert(b.subrange(2, 22)[i] == b[2 + i]);
        }
    }

    /// Reading the bytes of an equalizer gives it back.
    pub proof fn lemma_roundtrip(self)
        ensures
            self.parsed_from(self.spec_bytes()),
    {
        assert(self.spec_bytes().subrange(2, 22) =~= self.volume_adjustments@);
    }

    /// An equalizer read from bytes writes the same bytes.
    pub proof fn lemma_parse_exact(self, b: Seq<u8>)
        requires
            b.len() == 22,
            self.parsed_from(b),
        ensures
            self.spec_bytes() == b,
    {
        assert(self.spec_bytes() =~= b);
    }
}

/// The custom hearing profile: forty-eight bytes, carried as sent.
#[derive(Clone, Copy, Debug, PartialEq, Eq)]
pub struct CustomHearId(pub [u8; 48]);

/// Which ambient sound modes the mode button cycles through: one byte.
#[derive(Clone, Copy, Debug, PartialEq, Eq)]
pub struct AmbientSoundModeCycle(pub u8);

/// The current ambient sound modes: four bytes.
#[derive(Clone, Copy, Debug, PartialEq, Eq)]
pub struct SoundModes(pub [u8; 4]);

/// The charging case's features: three bytes.
#[derive(Clone, Copy, Debug, PartialEq, Eq)]
pub struct CaseFeatures(pub [u8; 3]);

/// The air pressure setting and reading: two bytes.
#[derive(Clone, Copy, Debug, PartialEq, Eq)]
pub struct AirPressure(pub [u8; 2]);

/// Whether the low battery prompt is on: one on/off byte.
#[derive(Clone, Copy, Debug, PartialEq, Eq)]
pub struct LowBatteryPrompt {
    pub is_enabled: bool,
}

/// Whether LDAC is on: one on/off byte.
#[derive(Clone, Copy, Debug, PartialEq, Eq)]
pub struct Ldac {
    pub is_enabled: bool,
}

/// Automatic power off: an on/off byte and the index of the duration.
#[derive(Clone, Copy, Debug, PartialEq, Eq)]
pub struct AutoPowerOff {
    pub is_enabled: bool,
    pub duration: u8,
}

/// The volume limit: an on/off byte, the limit in decibels and the refresh
/// rate.
#[derive(Clone, Copy, Debug, PartialEq, Eq)]
pub struct LimitHighVolume {
    pub is_enabled: bool,
    pub db_limit: u8,
    pub refresh_rate: u8,
}

/// The spatial audio settings: three bytes.
#[derive(Clone, Copy, Debug, PartialEq, Eq)]
pub struct SpatialAudio(pub [u8; 3]);

/// How long easy chat waits: one byte.
#[derive(Clone, Copy, Debug, PartialEq, Eq)]
pub struct EasyChatWaitTime(pub u8);

/// Easy chat: whether it is on and how long it waits. The two values stand
/// apart in the packet.
#[derive(Clone, Copy, Debug, PartialEq, Eq)]
pub struct EasyChat {
    pub is_enabled: bool,
    pub wait_time: EasyChatWaitTime,
}

/// Whether sound leak compensation is on: one on/off byte.
#[derive(Clone, Copy, Debug, PartialEq, Eq)]
pub struct SoundLeakCompensation {
    pub is_enabled: bool,
}

/// The charging case's display language: one byte.
#[derive(Clone, Copy, Debug, PartialEq, Eq)]
pub struct CaseLanguage(pub u8);

/// Whether wearing detection is on: one on/off byte.
#[derive(Clone, Copy, Debug, PartialEq, Eq)]
pub struct WearingDetection {
    pub is_enabled: bool,
}

} // verus!
