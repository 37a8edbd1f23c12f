//! Byte-level MIDI message decoding into typed events.
//!
//! A 1-3 byte buffer maps, by its status nibble, to one message kind; a
//! note-on with velocity zero is decoded as a note-off, and an unrecognized
//! controller number drops the whole message rather than raising an error.

use vstd::prelude::*;

verus! {

/// The seven channel-voice message kinds.
///
/// `PitchWheel::value` ranges over `0..=16383` with center `8192`.
#[derive(Debug, Clone, Copy, PartialEq, Eq, Structural)]
pub enum MessageKind {
    NoteOff { note: u8, velocity: u8 },
    NoteOn { note: u8, velocity: u8 },
    PolyphonicAftertouch { note: u8, pressure: u8 },
    ControlChange { kind: ControlChangeKind, value: u8 },
    ProgramChange { program: u8 },
    ChannelAftertouch { pressure: u8 },
    PitchWheel { value: u16 },
}

impl MessageKind {
    /// The status byte of this kind (channel bits zero).
    pub open spec fn spec_as_number(&self) -> u8 {
        match *self {
            MessageKind::NoteOff { .. } => 0x80,
            MessageKind::NoteOn { .. } => 0x90,
            MessageKind::PolyphonicAftertouch { .. } => 0xA0,
            MessageKind::ControlChange { .. } => 0xB0,
            MessageKind::ProgramChange { .. } => 0xC0,
            MessageKind::ChannelAftertouch { .. } => 0xD0,
            MessageKind::PitchWheel { .. } => 0xE0,
        }
    }

    pub fn as_number(&self) -> (n: u8)
        ensures
            n == self.spec_as_number(),
    {
        match *self {
            MessageKind::NoteOff { .. } => 0x80,
            MessageKind::NoteOn { .. } => 0x90,
            MessageKind::PolyphonicAftertouch { .. } => 0xA0,
            MessageKind::ControlChange { .. } => 0xB0,
            MessageKind::ProgramChange { .. } => 0xC0,
            MessageKind::ChannelAftertouch { .. } => 0xD0,
            MessageKind::PitchWheel { .. } => 0xE0,
        }
    }
}

/// The 128 MIDI controller numbers, one variant per number.
#[derive(Debug, Clone, Copy, PartialEq, Eq, Structural)]
pub enum ControlChangeKind {
    BankSelectMsb,
    ModulationWheelMsb,
    BreathControllerMsb,
    Undefined0Msb,
    FootControllerMsb,
    PortamentoTimeMsb,
    DataEntryMsb,
    ChannelVolumeMsb,
    BalanceMsb,
    Undefined1Msb,
    PanMsb,
    ExpressionControllerMsb,
    EffectControl1Msb,
    EffectControl2Msb,
    Undefined2Msb,
    Undefined3Msb,
    GeneralPurposeController1Msb,
    GeneralPurposeController2Msb,
    GeneralPurposeController3Msb,
    GeneralPurposeController4Msb,
    Undefined4Msb,
    Undefined5Msb,
    Undefined6Msb,
    Undefined7Msb,
    Undefined8Msb,
    Undefined9Msb,
    Undefined10Msb,
    Undefined11Msb,
    Undefined12Msb,
    Undefined13Msb,
    Undefined14Msb,
    Undefined15Msb,
    BankSelectLsb,
    ModulationWheelLsb,
    BreathControllerLsb,
    Undefined0Lsb,
    FootControllerLsb,
    PortamentoTimeLsb,
    DataEntryLsb,
    ChannelVolumeLsb,
    BalanceLsb,
    Undefined1Lsb,
    PanLsb,
    ExpressionControllerLsb,
    EffectControl1Lsb,
    EffectControl2Lsb,
    Undefined2Lsb,
    Undefined3Lsb,
    GeneralPurposeController1Lsb,
    GeneralPurposeController2Lsb,
    GeneralPurposeController3Lsb,
    GeneralPurposeController4Lsb,
    Undefined4Lsb,
    Undefined5Lsb,
    Undefined6Lsb,
    Undefined7Lsb,
    Undefined8Lsb,
    Undefined9Lsb,
    Undefined10Lsb,
    Undefined11Lsb,
    Undefined12Lsb,
    Undefined13Lsb,
    Undefined14Lsb,
    Undefined15Lsb,
    DamperPedal,
    Portamento,
    Sostenuto,
    SoftPedal,
    LegatoFootswitch,
    Hold2,
    SoundController1,
    SoundController2,
    SoundController3,
    SoundController4,
    SoundController5,
    SoundController6,
    SoundController7,
    SoundController8,
    SoundController9,
    SoundController10,
    GeneralPurposeController5,
    GeneralPurposeController6,
    GeneralPurposeController7,
    GeneralPurposeController8,
    PortamentoControl,
    Undefined16,
    Undefined17,
    Undefined18,
    HighResolutionVelocityPrefix,
    Undefined19,
    Undefined20,
    Effects1Depth,
    Effects2Depth,
    Effects3Depth,
    Effects4Depth,
    Effects5Depth,
    DataIncrement,
    DataDecrement,
    NonRegisteredParameterNumberLsb,
    NonRegisteredParameterNumberMsb,
    RegisteredParameterNumberLsb,
    RegisteredParameterNumberMsb,
    Undefined21,
    Undefined22,
    Undefined23,
    Undefined24,
    Undefined25,
    Undefined26,
    Undefined27,
    Undefined28,
    Undefined29,
    Undefined30,
    Undefined31,
    Undefined32,
    Undefined33,
    Undefined34,
    Undefined35,
    Undefined36,
    Undefined37,
    Undefined38,
    AllSoundsOff,
    ResetAllControllers,
    LocalControl,
    AllNotesOff,
    OmniModeOff,
    OmniModeOn,
    MonoModeOn,
    PolyModeOn,
}

/// The controller kind a number `0..=127` names; `None` for `128..`.
pub open spec fn spec_cc_from_number(n: u8) -> Option<ControlChangeKind> {
    match n {
        0 => Some(ControlChangeKind::BankSelectMsb),
        1 => Some(ControlChangeKind::ModulationWheelMsb),
        2 => Some(ControlChangeKind::BreathControllerMsb),
        3 => Some(ControlChangeKind::Undefined0Msb),
        4 => Some(ControlChangeKind::FootControllerMsb),
        5 => Some(ControlChangeKind::PortamentoTimeMsb),
        6 => Some(ControlChangeKind::DataEntryMsb),
        7 => Some(ControlChangeKind::ChannelVolumeMsb),
        8 => Some(ControlChangeKind::BalanceMsb),
        9 => Some(ControlChangeKind::Undefined1Msb),
        10 => Some(ControlChangeKind::PanMsb),
        11 => Some(ControlChangeKind::ExpressionControllerMsb),
        12 => Some(ControlChangeKind::EffectControl1Msb),
        13 => Some(ControlChangeKind::EffectControl2Msb),
        14 => Some(ControlChangeKind::Undefined2Msb),
        15 => Some(ControlChangeKind::Undefined3Msb),
        16 => Some(ControlChangeKind::GeneralPurposeController1Msb),
        17 => Some(ControlChangeKind::GeneralPurposeController2Msb),
        18 => Some(ControlChangeKind::GeneralPurposeController3Msb),
        19 => Some(ControlChangeKind::GeneralPurposeController4Msb),
        20 => Some(ControlChangeKind::Undefined4Msb),
        21 => Some(ControlChangeKind::Undefined5Msb),
        22 => Some(ControlChangeKind::Undefined6Msb),
        23 => Some(ControlChangeKind::Undefined7Msb),
        24 => Some(ControlChangeKind::Undefined8Msb),
        25 => Some(ControlChangeKind::Undefined9Msb),
        26 => Some(ControlChangeKind::Undefined10Msb),
        27 => Some(ControlChangeKind::Undefined11Msb),
        28 => Some(ControlChangeKind::Undefined12Msb),
        29 => Some(ControlChangeKind::Undefined13Msb),
        30 => Some(ControlChangeKind::Undefined14Msb),
        31 => Some(ControlChangeKind::Undefined15Msb),
        32 => Some(ControlChangeKind::BankSelectLsb),
        33 => Some(ControlChangeKind::ModulationWheelLsb),
        34 => Some(ControlChangeKind::BreathControllerLsb),
        35 => Some(ControlChangeKind::Undefined0Lsb),
        36 => Some(ControlChangeKind::FootControllerLsb),
        37 => Some(ControlChangeKind::PortamentoTimeLsb),
        38 => Some(ControlChangeKind::DataEntryLsb),
        39 => Some(ControlChangeKind::ChannelVolumeLsb),
        40 => Some(ControlChangeKind::BalanceLsb),
        41 => Some(ControlChangeKind::Undefined1Lsb),
        42 => Some(ControlChangeKind::PanLsb),
        43 => Some(ControlChangeKind::ExpressionControllerLsb),
        44 => Some(ControlChangeKind::EffectControl1Lsb),
        45 => Some(ControlChangeKind::EffectControl2Lsb),
        46 => Some(ControlChangeKind::Undefined2Lsb),
        47 => Some(ControlChangeKind::Undefined3Lsb),
        48 => Some(ControlChangeKind::GeneralPurposeController1Lsb),
        49 => Some(ControlChangeKind::GeneralPurposeController2Lsb),
        50 => Some(ControlChangeKind::GeneralPurposeController3Lsb),
        51 => Some(ControlChangeKind::GeneralPurposeController4Lsb),
        52 => Some(ControlChangeKind::Undefined4Lsb),
        53 => Some(ControlChangeKind::Undefined5Lsb),
        54 => Some(ControlChangeKind::Undefined6Lsb),
        55 => Some(ControlChangeKind::Undefined7Lsb),
        56 => Some(ControlChangeKind::Undefined8Lsb),
        57 => Some(ControlChangeKind::Undefined9Lsb),
        58 => Some(ControlChangeKind::Undefined10Lsb),
        59 => Some(ControlChangeKind::Undefined11Lsb),
        60 => Some(ControlChangeKind::Undefined12Lsb),
        61 => Some(ControlChangeKind::Undefined13Lsb),
        62 => Some(ControlChangeKind::Undefined14Lsb),
        63 => Some(ControlChangeKind::Undefined15Lsb),
        64 => Some(ControlChangeKind::DamperPedal),
        65 => Some(ControlChangeKind::Portamento),
        66 => Some(ControlChangeKind::Sostenuto),
        67 => Some(ControlChangeKind::SoftPedal),
        68 => Some(ControlChangeKind::LegatoFootswitch),
        69 => Some(ControlChangeKind::Hold2),
        70 => Some(ControlChangeKind::SoundController1),
        71 => Some(ControlChangeKind::SoundController2),
        72 => Some(ControlChangeKind::SoundController3),
        73 => Some(ControlChangeKind::SoundController4),
        74 => Some(ControlChangeKind::SoundController5),
        75 => Some(ControlChangeKind::SoundController6),
        76 => Some(ControlChangeKind::SoundController7),
        77 => Some(ControlChangeKind::SoundController8),
        78 => Some(ControlChangeKind::SoundController9),
        79 => Some(ControlChangeKind::SoundController10),
        80 => Some(ControlChangeKind::GeneralPurposeController5),
        81 => Some(ControlChangeKind::GeneralPurposeController6),
        82 => Some(ControlChangeKind::GeneralPurposeController7),
        83 => Some(ControlChangeKind::GeneralPurposeController8),
        84 => Some(ControlChangeKind::PortamentoControl),
        85 => Some(ControlChangeKind::Undefined16),
        86 => Some(ControlChangeKind::Undefined17),
        87 => Some(ControlChangeKind::Undefined18),
        88 => Some(ControlChangeKind::HighResolutionVelocityPrefix),
        89 => Some(ControlChangeKind::Undefined19),
        90 => Some(ControlChangeKind::Undefined20),
        91 => Some(ControlChangeKind::Effects1Depth),
        92 => Some(ControlChangeKind::Effects2Depth),
        93 => Some(ControlChangeKind::Effects3Depth),
        94 => Some(ControlChangeKind::Effects4Depth),
        95 => Some(ControlChangeKind::Effects5Depth),
        96 => Some(ControlChangeKind::DataIncrement),
        97 => Some(ControlChangeKind::DataDecrement),
        98 => Some(ControlChangeKind::NonRegisteredParameterNumberLsb),
        99 => Some(ControlChangeKind::NonRegisteredParameterNumberMsb),
        100 => Some(ControlChangeKind::RegisteredParameterNumberLsb),
        101 => Some(ControlChangeKind::RegisteredParameterNumberMsb),
        102 => Some(ControlChangeKind::Undefined21),
        103 => Some(ControlChangeKind::Undefined22),
        104 => Some(ControlChangeKind::Undefined23),
        105 => Some(ControlChangeKind::Undefined24),
        106 => Some(ControlChangeKind::Undefined25),
        107 => Some(ControlChangeKind::Undefined26),
        108 => Some(ControlChangeKind::Undefined27),
        109 => Some(ControlChangeKind::Undefined28),
        110 => Some(ControlChangeKind::Undefined29),
        111 => Some(ControlChangeKind::Undefined30),
        112 => Some(ControlChangeKind::Undefined31),
        113 => Some(ControlChangeKind::Undefined32),
        114 => Some(ControlChangeKind::Undefined33),
        115 => Some(ControlChangeKind::Undefined34),
        116 => Some(ControlChangeKind::Undefined35),
        117 => Some(ControlChangeKind::Undefined36),
        118 => Some(ControlChangeKind::Undefined37),
        119 => Some(ControlChangeKind::Undefined38),
        120 => Some(ControlChangeKind::AllSoundsOff),
        121 => Some(ControlChangeKind::ResetAllControllers),
        122 => Some(ControlChangeKind::LocalControl),
        123 => Some(ControlChangeKind::AllNotesOff),
        124 => Some(ControlChangeKind::OmniModeOff),
        125 => Some(ControlChangeKind::OmniModeOn),
        126 => Some(ControlChangeKind::MonoModeOn),
        127 => Some(ControlChangeKind::PolyModeOn),
        _ => None,
    }
}

impl ControlChangeKind {
    /// The controller number of this kind.
    pub open spec fn spec_as_number(&self) -> u8 {
        match *self {
            ControlChangeKind::BankSelectMsb => 0,
            ControlChangeKind::ModulationWheelMsb => 1,
            ControlChangeKind::BreathControllerMsb => 2,
            ControlChangeKind::Undefined0Msb => 3,
            ControlChangeKind::FootControllerMsb => 4,
            ControlChangeKind::PortamentoTimeMsb => 5,
            ControlChangeKind::DataEntryMsb => 6,
            ControlChangeKind::ChannelVolumeMsb => 7,
            ControlChangeKind::BalanceMsb => 8,
            ControlChangeKind::Undefined1Msb => 9,
            ControlChangeKind::PanMsb => 10,
            ControlChangeKind::ExpressionControllerMsb => 11,
            ControlChangeKind::EffectControl1Msb => 12,
            ControlChangeKind::EffectControl2Msb => 13,
            ControlChangeKind::Undefined2Msb => 14,
            ControlChangeKind::Undefined3Msb => 15,
            ControlChangeKind::GeneralPurposeController1Msb => 16,
            ControlChangeKind::GeneralPurposeController2Msb => 17,
            ControlChangeKind::GeneralPurposeController3Msb => 18,
            ControlChangeKind::GeneralPurposeController4Msb => 19,
            ControlChangeKind::Undefined4Msb => 20,
            ControlChangeKind::Undefined5Msb => 21,
            ControlChangeKind::Undefined6Msb => 22,
            ControlChangeKind::Undefined7Msb => 23,
            ControlChangeKind::Undefined8Msb => 24,
            ControlChangeKind::Undefined9Msb => 25,
            ControlChangeKind::Undefined10Msb => 26,
            ControlChangeKind::Undefined11Msb => 27,
            ControlChangeKind::Undefined12Msb => 28,
            ControlChangeKind::Undefined13Msb => 29,
            ControlChangeKind::Undefined14Msb => 30,
            ControlChangeKind::Undefined15Msb => 31,
            ControlChangeKind::BankSelectLsb => 32,
            ControlChangeKind::ModulationWheelLsb => 33,
            ControlChangeKind::BreathControllerLsb => 34,
            ControlChangeKind::Undefined0Lsb => 35,
            ControlChangeKind::FootControllerLsb => 36,
            ControlChangeKind::PortamentoTimeLsb => 37,
            ControlChangeKind::DataEntryLsb => 38,
            ControlChangeKind::ChannelVolumeLsb => 39,
            ControlChangeKind::BalanceLsb => 40,
            ControlChangeKind::Undefined1Lsb => 41,
            ControlChangeKind::PanLsb => 42,
            ControlChangeKind::ExpressionControllerLsb => 43,
            ControlChangeKind::EffectControl1Lsb => 44,
            ControlChangeKind::EffectControl2Lsb => 45,
            ControlChangeKind::Undefined2Lsb => 46,
            ControlChangeKind::Undefined3Lsb => 47,
            ControlChangeKind::GeneralPurposeController1Lsb => 48,
            ControlChangeKind::GeneralPurposeController2Lsb => 49,
            ControlChangeKind::GeneralPurposeController3Lsb => 50,
            ControlChangeKind::GeneralPurposeController4Lsb => 51,
            ControlChangeKind::Undefined4Lsb => 52,
            ControlChangeKind::Undefined5Lsb => 53,
            ControlChangeKind::Undefined6Lsb => 54,
            ControlChangeKind::Undefined7Lsb => 55,
            ControlChangeKind::Undefined8Lsb => 56,
            ControlChangeKind::Undefined9Lsb => 57,
            ControlChangeKind::Undefined10Lsb => 58,
            ControlChangeKind::Undefined11Lsb => 59,
            ControlChangeKind::Undefined12Lsb => 60,
            ControlChangeKind::Undefined13Lsb => 61,
            ControlChangeKind::Undefined14Lsb => 62,
            ControlChangeKind::Undefined15Lsb => 63,
            ControlChangeKind::DamperPedal => 64,
            ControlChangeKind::Portamento => 65,
            ControlChangeKind::Sostenuto => 66,
            ControlChangeKind::SoftPedal => 67,
            ControlChangeKind::LegatoFootswitch => 68,
            ControlChangeKind::Hold2 => 69,
            ControlChangeKind::SoundController1 => 70,
            ControlChangeKind::SoundController2 => 71,
            ControlChangeKind::SoundController3 => 72,
            ControlChangeKind::SoundController4 => 73,
            ControlChangeKind::SoundController5 => 74,
            ControlChangeKind::SoundController6 => 75,
            ControlChangeKind::SoundController7 => 76,
            ControlChangeKind::SoundController8 => 77,
            ControlChangeKind::SoundController9 => 78,
            ControlChangeKind::SoundController10 => 79,
            ControlChangeKind::GeneralPurposeController5 => 80,
            ControlChangeKind::GeneralPurposeController6 => 81,
            ControlChangeKind::GeneralPurposeController7 => 82,
            ControlChangeKind::GeneralPurposeController8 => 83,
            ControlChangeKind::PortamentoControl => 84,
            ControlChangeKind::Undefined16 => 85,
            ControlChangeKind::Undefined17 => 86,
            ControlChangeKind::Undefined18 => 87,
            ControlChangeKind::HighResolutionVelocityPrefix => 88,
            ControlChangeKind::Undefined19 => 89,
            ControlChangeKind::Undefined20 => 90,
            ControlChangeKind::Effects1Depth => 91,
            ControlChangeKind::Effects2Depth => 92,
            ControlChangeKind::Effects3Depth => 93,
            ControlChangeKind::Effects4Depth => 94,
            ControlChangeKind::Effects5Depth => 95,
            ControlChangeKind::DataIncrement => 96,
            ControlChangeKind::DataDecrement => 97,
            ControlChangeKind::NonRegisteredParameterNumberLsb => 98,
            ControlChangeKind::NonRegisteredParameterNumberMsb => 99,
            ControlChangeKind::RegisteredParameterNumberLsb => 100,
            ControlChangeKind::RegisteredParameterNumberMsb => 101,
            ControlChangeKind::Undefined21 => 102,
            ControlChangeKind::Undefined22 => 103,
            ControlChangeKind::Undefined23 => 104,
            ControlChangeKind::Undefined24 => 105,
            ControlChangeKind::Undefined25 => 106,
            ControlChangeKind::Undefined26 => 107,
            ControlChangeKind::Undefined27 => 108,
            ControlChangeKind::Undefined28 => 109,
            ControlChangeKind::Undefined29 => 110,
            ControlChangeKind::Undefined30 => 111,
            ControlChangeKind::Undefined31 => 112,
            ControlChangeKind::Undefined32 => 113,
            ControlChangeKind::Undefined33 => 114,
            ControlChangeKind::Undefined34 => 115,
            ControlChangeKind::Undefined35 => 116,
            ControlChangeKind::Undefined36 => 117,
            ControlChangeKind::Undefined37 => 118,
            ControlChangeKind::Undefined38 => 119,
            ControlChangeKind::AllSoundsOff => 120,
            ControlChangeKind::ResetAllControllers => 121,
            ControlChangeKind::LocalControl => 122,
            ControlChangeKind::AllNotesOff => 123,
            ControlChangeKind::OmniModeOff => 124,
            ControlChangeKind::OmniModeOn => 125,
            ControlChangeKind::MonoModeOn => 126,
            ControlChangeKind::PolyModeOn => 127,
        }
    }

    #[verifier::rlimit(30)]
    pub fn from_number(number: u8) -> (r: Option<ControlChangeKind>)
        ensures
            r == spec_cc_from_number(number),
    {
        match number {
            0 => Some(ControlChangeKind::BankSelectMsb),
            1 => Some(ControlChangeKind::ModulationWheelMsb),
            2 => Some(ControlChangeKind::BreathControllerMsb),
            3 => Some(ControlChangeKind::Undefined0Msb),
            4 => Some(ControlChangeKind::FootControllerMsb),
            5 => Some(ControlChangeKind::PortamentoTimeMsb),
            6 => Some(ControlChangeKind::DataEntryMsb),
            7 => Some(ControlChangeKind::ChannelVolumeMsb),
            8 => Some(ControlChangeKind::BalanceMsb),
            9 => Some(ControlChangeKind::Undefined1Msb),
            10 => Some(ControlChangeKind::PanMsb),
            11 => Some(ControlChangeKind::ExpressionControllerMsb),
            12 => Some(ControlChangeKind::EffectControl1Msb),
            13 => Some(ControlChangeKind::EffectControl2Msb),
            14 => Some(ControlChangeKind::Undefined2Msb),
            15 => Some(ControlChangeKind::Undefined3Msb),
            16 => Some(ControlChangeKind::GeneralPurposeController1Msb),
            17 => Some(ControlChangeKind::GeneralPurposeController2Msb),
            18 => Some(ControlChangeKind::GeneralPurposeController3Msb),
            19 => Some(ControlChangeKind::GeneralPurposeController4Msb),
            20 => Some(ControlChangeKind::Undefined4Msb),
            21 => Some(ControlChangeKind::Undefined5Msb),
            22 => Some(ControlChangeKind::Undefined6Msb),
            23 => Some(ControlChangeKind::Undefined7Msb),
            24 => Some(ControlChangeKind::Undefined8Msb),
            25 => Some(ControlChangeKind::Undefined9Msb),
            26 => Some(ControlChangeKind::Undefined10Msb),
            27 => Some(ControlChangeKind::Undefined11Msb),
            28 => Some(ControlChangeKind::Undefined12Msb),
            29 => Some(ControlChangeKind::Undefined13Msb),
            30 => Some(ControlChangeKind::Undefined14Msb),
            31 => Some(ControlChangeKind::Undefined15Msb),
            32 => Some(ControlChangeKind::BankSelectLsb),
            33 => Some(ControlChangeKind::ModulationWheelLsb),
            34 => Some(ControlChangeKind::BreathControllerLsb),
            35 => Some(ControlChangeKind::Undefined0Lsb),
            36 => Some(ControlChangeKind::FootControllerLsb),
            37 => Some(ControlChangeKind::PortamentoTimeLsb),
            38 => Some(ControlChangeKind::DataEntryLsb),
            39 => Some(ControlChangeKind::ChannelVolumeLsb),
            40 => Some(ControlChangeKind::BalanceLsb),
            41 => Some(ControlChangeKind::Undefined1Lsb),
            42 => Some(ControlChangeKind::PanLsb),
            43 => Some(ControlChangeKind::ExpressionControllerLsb),
            44 => Some(ControlChangeKind::EffectControl1Lsb),
            45 => Some(ControlChangeKind::EffectControl2Lsb),
            46 => Some(ControlChangeKind::Undefined2Lsb),
            47 => Some(ControlChangeKind::Undefined3Lsb),
            48 => Some(ControlChangeKind::GeneralPurposeController1Lsb),
            49 => Some(ControlChangeKind::GeneralPurposeController2Lsb),
            50 => Some(ControlChangeKind::GeneralPurposeController3Lsb),
            51 => Some(ControlChangeKind::GeneralPurposeController4Lsb),
            52 => Some(ControlChangeKind::Undefined4Lsb),
            53 => Some(ControlChangeKind::Undefined5Lsb),
            54 => Some(ControlChangeKind::Undefined6Lsb),
            55 => Some(ControlChangeKind::Undefined7Lsb),
            56 => Some(ControlChangeKind::Undefined8Lsb),
            57 => Some(ControlChangeKind::Undefined9Lsb),
            58 => Some(ControlChangeKind::Undefined10Lsb),
            59 => Some(ControlChangeKind::Undefined11Lsb),
            60 => Some(ControlChangeKind::Undefined12Lsb),
            61 => Some(ControlChangeKind::Undefined13Lsb),
            62 => Some(ControlChangeKind::Undefined14Lsb),
            63 => Some(ControlChangeKind::Undefined15Lsb),
            64 => Some(ControlChangeKind::DamperPedal),
            65 => Some(ControlChangeKind::Portamento),
            66 => Some(ControlChangeKind::Sostenuto),
            67 => Some(ControlChangeKind::SoftPedal),
            68 => Some(ControlChangeKind::LegatoFootswitch),
            69 => Some(ControlChangeKind::Hold2),
            70 => Some(ControlChangeKind::SoundController1),
            71 => Some(ControlChangeKind::SoundController2),
            72 => Some(ControlChangeKind::SoundController3),
            73 => Some(ControlChangeKind::SoundController4),
            74 => Some(ControlChangeKind::SoundController5),
            75 => Some(ControlChangeKind::SoundController6),
            76 => Some(ControlChangeKind::SoundController7),
            77 => Some(ControlChangeKind::SoundController8),
            78 => Some(ControlChangeKind::SoundController9),
            79 => Some(ControlChangeKind::SoundController10),
            80 => Some(ControlChangeKind::GeneralPurposeController5),
            81 => Some(ControlChangeKind::GeneralPurposeController6),
            82 => Some(ControlChangeKind::GeneralPurposeController7),
            83 => Some(ControlChangeKind::GeneralPurposeController8),
            84 => Some(ControlChangeKind::PortamentoControl),
            85 => Some(ControlChangeKind::Undefined16),
            86 => Some(ControlChangeKind::Undefined17),
            87 => Some(ControlChangeKind::Undefined18),
            88 => Some(ControlChangeKind::HighResolutionVelocityPrefix),
            89 => Some(ControlChangeKind::Undefined19),
            90 => Some(ControlChangeKind::Undefined20),
            91 => Some(ControlChangeKind::Effects1Depth),
            92 => Some(ControlChangeKind::Effects2Depth),
            93 => Some(ControlChangeKind::Effects3Depth),
            94 => Some(ControlChangeKind::Effects4Depth),
            95 => Some(ControlChangeKind::Effects5Depth),
            96 => Some(ControlChangeKind::DataIncrement),
            97 => Some(ControlChangeKind::DataDecrement),
            98 => Some(ControlChangeKind::NonRegisteredParameterNumberLsb),
            99 => Some(ControlChangeKind::NonRegisteredParameterNumberMsb),
            100 => Some(ControlChangeKind::RegisteredParameterNumberLsb),
            101 => Some(ControlChangeKind::RegisteredParameterNumberMsb),
            102 => Some(ControlChangeKind::Undefined21),
            103 => Some(ControlChangeKind::Undefined22),
            104 => Some(ControlChangeKind::Undefined23),
            105 => Some(ControlChangeKind::Undefined24),
            106 => Some(ControlChangeKind::Undefined25),
            107 => Some(ControlChangeKind::Undefined26),
            108 => Some(ControlChangeKind::Undefined27),
            109 => Some(ControlChangeKind::Undefined28),
            110 => Some(ControlChangeKind::Undefined29),
            111 => Some(ControlChangeKind::Undefined30),
            112 => Some(ControlChangeKind::Undefined31),
            113 => Some(ControlChangeKind::Undefined32),
            114 => Some(ControlChangeKind::Undefined33),
            115 => Some(ControlChangeKind::Undefined34),
            116 => Some(ControlChangeKind::Undefined35),
            117 => Some(ControlChangeKind::Undefined36),
            118 => Some(ControlChangeKind::Undefined37),
            119 => Some(ControlChangeKind::Undefined38),
            120 => Some(ControlChangeKind::AllSoundsOff),
            121 => Some(ControlChangeKind::ResetAllControllers),
            122 => Some(ControlChangeKind::LocalControl),
            123 => Some(ControlChangeKind::AllNotesOff),
            124 => Some(ControlChangeKind::OmniModeOff),
            125 => Some(ControlChangeKind::OmniModeOn),
            126 => Some(ControlChangeKind::MonoModeOn),
            127 => Some(ControlChangeKind::PolyModeOn),
            _ => None,
        }
    }

    #[verifier::rlimit(30)]
    pub fn as_number(&self) -> (n: u8)
        ensures
            n == self.spec_as_number(),
    {
        match *self {
        ControlChangeKind::BankSelectMsb => 0,
        ControlChangeKind::ModulationWheelMsb => 1,
        ControlChangeKind::BreathControllerMsb => 2,
        ControlChangeKind::Undefined0Msb => 3,
        ControlChangeKind::FootControllerMsb => 4,
        ControlChangeKind::PortamentoTimeMsb => 5,
        ControlChangeKind::DataEntryMsb => 6,
        ControlChangeKind::ChannelVolumeMsb => 7,
        ControlChangeKind::BalanceMsb => 8,
        ControlChangeKind::Undefined1Msb => 9,
        ControlChangeKind::PanMsb => 10,
        ControlChangeKind::ExpressionControllerMsb => 11,
        ControlChangeKind::EffectControl1Msb => 12,
        ControlChangeKind::EffectControl2Msb => 13,
        ControlChangeKind::Undefined2Msb => 14,
        ControlChangeKind::Undefined3Msb => 15,
        ControlChangeKind::GeneralPurposeController1Msb => 16,
        ControlChangeKind::GeneralPurposeController2Msb => 17,
        ControlChangeKind::GeneralPurposeController3Msb => 18,
        ControlChangeKind::GeneralPurposeController4Msb => 19,
        ControlChangeKind::Undefined4Msb => 20,
        ControlChangeKind::Undefined5Msb => 21,
        ControlChangeKind::Undefined6Msb => 22,
        ControlChangeKind::Undefined7Msb => 23,
        ControlChangeKind::Undefined8Msb => 24,
        ControlChangeKind::Undefined9Msb => 25,
        ControlChangeKind::Undefined10Msb => 26,
        ControlChangeKind::Undefined11Msb => 27,
        ControlChangeKind::Undefined12Msb => 28,
        ControlChangeKind::Undefined13Msb => 29,
        ControlChangeKind::Undefined14Msb => 30,
        ControlChangeKind::Undefined15Msb => 31,
        ControlChangeKind::BankSelectLsb => 32,
        ControlChangeKind::ModulationWheelLsb => 33,
        ControlChangeKind::BreathControllerLsb => 34,
        ControlChangeKind::Undefined0Lsb => 35,
        ControlChangeKind::FootControllerLsb => 36,
        ControlChangeKind::PortamentoTimeLsb => 37,
        ControlChangeKind::DataEntryLsb => 38,
        ControlChangeKind::ChannelVolumeLsb => 39,
        ControlChangeKind::BalanceLsb => 40,
        ControlChangeKind::Undefined1Lsb => 41,
        ControlChangeKind::PanLsb => 42,
        ControlChangeKind::ExpressionControllerLsb => 43,
        ControlChangeKind::EffectControl1Lsb => 44,
        ControlChangeKind::EffectControl2Lsb => 45,
        ControlChangeKind::Undefined2Lsb => 46,
        ControlChangeKind::Undefined3Lsb => 47,
        ControlChangeKind::GeneralPurposeController1Lsb => 48,
        ControlChangeKind::GeneralPurposeController2Lsb => 49,
        ControlChangeKind::GeneralPurposeController3Lsb => 50,
        ControlChangeKind::GeneralPurposeController4Lsb => 51,
        ControlChangeKind::Undefined4Lsb => 52,
        ControlChangeKind::Undefined5Lsb => 53,
        ControlChangeKind::Undefined6Lsb => 54,
        ControlChangeKind::Undefined7Lsb => 55,
        ControlChangeKind::Undefined8Lsb => 56,
        ControlChangeKind::Undefined9Lsb => 57,
        ControlChangeKind::Undefined10Lsb => 58,
        ControlChangeKind::Undefined11Lsb => 59,
        ControlChangeKind::Undefined12Lsb => 60,
        ControlChangeKind::Undefined13Lsb => 61,
        ControlChangeKind::Undefined14Lsb => 62,
        ControlChangeKind::Undefined15Lsb => 63,
        ControlChangeKind::DamperPedal => 64,
        ControlChangeKind::Portamento => 65,
        ControlChangeKind::Sostenuto => 66,
        ControlChangeKind::SoftPedal => 67,
        ControlChangeKind::LegatoFootswitch => 68,
        ControlChangeKind::Hold2 => 69,
        ControlChangeKind::SoundController1 => 70,
        ControlChangeKind::SoundController2 => 71,
        ControlChangeKind::SoundController3 => 72,
        ControlChangeKind::SoundController4 => 73,
        ControlChangeKind::SoundController5 => 74,
        ControlChangeKind::SoundController6 => 75,
        ControlChangeKind::SoundController7 => 76,
        ControlChangeKind::SoundController8 => 77,
        ControlChangeKind::SoundController9 => 78,
        ControlChangeKind::SoundController10 => 79,
        ControlChangeKind::GeneralPurposeController5 => 80,
        ControlChangeKind::GeneralPurposeController6 => 81,
        ControlChangeKind::GeneralPurposeController7 => 82,
        ControlChangeKind::GeneralPurposeController8 => 83,
        ControlChangeKind::PortamentoControl => 84,
        ControlChangeKind::Undefined16 => 85,
        ControlChangeKind::Undefined17 => 86,
        ControlChangeKind::Undefined18 => 87,
        ControlChangeKind::HighResolutionVelocityPrefix => 88,
        ControlChangeKind::Undefined19 => 89,
        ControlChangeKind::Undefined20 => 90,
        ControlChangeKind::Effects1Depth => 91,
        ControlChangeKind::Effects2Depth => 92,
        ControlChangeKind::Effects3Depth => 93,
        ControlChangeKind::Effects4Depth => 94,
        ControlChangeKind::Effects5Depth => 95,
        ControlChangeKind::DataIncrement => 96,
        ControlChangeKind::DataDecrement => 97,
        ControlChangeKind::NonRegisteredParameterNumberLsb => 98,
        ControlChangeKind::NonRegisteredParameterNumberMsb => 99,
        ControlChangeKind::RegisteredParameterNumberLsb => 100,
        ControlChangeKind::RegisteredParameterNumberMsb => 101,
        ControlChangeKind::Undefined21 => 102,
        ControlChangeKind::Undefined22 => 103,
        ControlChangeKind::Undefined23 => 104,
        ControlChangeKind::Undefined24 => 105,
        ControlChangeKind::Undefined25 => 106,
        ControlChangeKind::Undefined26 => 107,
        ControlChangeKind::Undefined27 => 108,
        ControlChangeKind::Undefined28 => 109,
        ControlChangeKind::Undefined29 => 110,
        ControlChangeKind::Undefined30 => 111,
        ControlChangeKind::Undefined31 => 112,
        ControlChangeKind::Undefined32 => 113,
        ControlChangeKind::Undefined33 => 114,
        ControlChangeKind::Undefined34 => 115,
        ControlChangeKind::Undefined35 => 116,
        ControlChangeKind::Undefined36 => 117,
        ControlChangeKind::Undefined37 => 118,
        ControlChangeKind::Undefined38 => 119,
        ControlChangeKind::AllSoundsOff => 120,
        ControlChangeKind::ResetAllControllers => 121,
        ControlChangeKind::LocalControl => 122,
        ControlChangeKind::AllNotesOff => 123,
        ControlChangeKind::OmniModeOff => 124,
        ControlChangeKind::OmniModeOn => 125,
        ControlChangeKind::MonoModeOn => 126,
        ControlChangeKind::PolyModeOn => 127,
        }
    }
}

/// One decoded channel-voice message.
#[derive(Debug, Clone, Copy, PartialEq, Eq, Structural)]
pub struct Message {
    pub kind: MessageKind,
    pub channel: u8,
}

pub open spec fn spec_parse_note_on(bytes: Seq<u8>) -> Option<MessageKind> {
    if bytes.len() < 3 {
        None
    } else if bytes[2] == 0 {
        Some(MessageKind::NoteOff { note: bytes[1], velocity: 0 })
    } else {
        Some(MessageKind::NoteOn { note: bytes[1], velocity: bytes[2] })
    }
}

pub open spec fn spec_parse_note_off(bytes: Seq<u8>) -> Option<MessageKind> {
    if bytes.len() < 3 {
        None
    } else {
        Some(MessageKind::NoteOff { note: bytes[1], velocity: bytes[2] })
    }
}

pub open spec fn spec_parse_polyphonic_aftertouch(bytes: Seq<u8>) -> Option<MessageKind> {
    if bytes.len() < 3 {
        None
    } else {
        Some(MessageKind::PolyphonicAftertouch { note: bytes[1], pressure: bytes[2] })
    }
}

pub open spec fn spec_parse_control_change(bytes: Seq<u8>) -> Option<MessageKind> {
    if bytes.len() < 3 {
        None
    } else {
        match spec_cc_from_number(bytes[1]) {
            Some(kind) => Some(MessageKind::ControlChange { kind, value: bytes[2] }),
            None => None,
        }
    }
}

pub open spec fn spec_parse_program_change(bytes: Seq<u8>) -> Option<MessageKind> {
    if bytes.len() < 2 {
        None
    } else {
        Some(MessageKind::ProgramChange { program: bytes[1] })
    }
}

pub open spec fn spec_parse_channel_aftertouch(bytes: Seq<u8>) -> Option<MessageKind> {
    if bytes.len() < 2 {
        None
    } else {
        Some(MessageKind::ChannelAftertouch { pressure: bytes[1] })
    }
}

pub open spec fn spec_parse_pitch_wheel(bytes: Seq<u8>) -> Option<MessageKind> {
    if bytes.len() < 3 {
        None
    } else {
        Some(
            MessageKind::PitchWheel {
                value: (((bytes[1] as u16) & 0x7F) | (((bytes[2] as u16) & 0x7F) << 7)) as u16,
            },
        )
    }
}

/// The kind a nonempty buffer decodes to, by the status nibble of its first
/// byte; `None` where the status is unknown or the buffer is too short.
pub open spec fn spec_decode_kind(bytes: Seq<u8>) -> Option<MessageKind> {
    let cmd = bytes[0] & 0xF0;
    if cmd == 0x80 {
        spec_parse_note_off(bytes)
    } else if cmd == 0x90 {
        spec_parse_note_on(bytes)
    } else if cmd == 0xA0 {
        spec_parse_polyphonic_aftertouch(bytes)
    } else if cmd == 0xB0 {
        spec_parse_control_change(bytes)
    } else if cmd == 0xC0 {
        spec_parse_program_change(bytes)
    } else if cmd == 0xD0 {
        spec_parse_channel_aftertouch(bytes)
    } else if cmd == 0xE0 {
        spec_parse_pitch_wheel(bytes)
    } else {
        None
    }
}

/// The message a byte buffer decodes to, or `None` where it holds no valid
/// channel-voice message.
pub open spec fn spec_decode(bytes: Seq<u8>) -> Option<Message> {
    if bytes.len() == 0 {
        None
    } else {
        match spec_decode_kind(bytes) {
            Some(kind) => Some(Message { kind, channel: bytes[0] & 0x0F }),
            None => None,
        }
    }
}

/// The message's channel is a nibble and every data field is in its MIDI
/// range: notes, velocities, pressures, controller values and programs
/// below `128`, the pitch-wheel value within fourteen bits.
pub open spec fn spec_message_valid(m: Message) -> bool {
    &&& m.channel < 16
    &&& match m.kind {
        MessageKind::NoteOff { note, velocity } => note < 128 && velocity < 128,
        MessageKind::NoteOn { note, velocity } => note < 128 && velocity < 128,
        MessageKind::PolyphonicAftertouch { note, pressure } => note < 128 && pressure < 128,
        MessageKind::ControlChange { kind, value } => value < 128,
        MessageKind::ProgramChange { program } => program < 128,
        MessageKind::ChannelAftertouch { pressure } => pressure < 128,
        MessageKind::PitchWheel { value } => value <= 16383,
    }
}

impl Message {
    /// Whether every field of the message is within its MIDI range. The
    /// decoder masks the channel but passes data bytes through, so a
    /// malformed source can produce an out-of-range value; routing rejects
    /// such a message rather than indexing out of bounds with it.
    pub fn is_valid(&self) -> (r: bool)
        ensures
            r == spec_message_valid(*self),
    {
        self.channel < 16 && match self.kind {
            MessageKind::NoteOff { note, velocity } => note < 128 && velocity < 128,
            MessageKind::NoteOn { note, velocity } => note < 128 && velocity < 128,
            MessageKind::PolyphonicAftertouch { note, pressure } => note < 128 && pressure < 128,
            MessageKind::ControlChange { kind: _, value } => value < 128,
            MessageKind::ProgramChange { program } => program < 128,
            MessageKind::ChannelAftertouch { pressure } => pressure < 128,
            MessageKind::PitchWheel { value } => value <= 16383,
        }
    }

    /// Decode a raw byte buffer; malformed input yields `None`, never an error.
    pub fn decode(bytes: &[u8]) -> (r: Option<Message>)
        ensures
            r == spec_decode(bytes@),
    {
        if bytes.len() == 0 {
            None
        } else {
            decode_non_empty_message(bytes)
        }
    }

    /// The pitch-wheel deflection relative to its center value `8192`.
    pub fn get_pitch_wheel_signed(value: u16) -> (r: i16)
        requires
            value <= 16383,
        ensures
            r == value - 8192,
    {
        (value as i16) - 8192
    }
}

pub fn decode_non_empty_message(bytes: &[u8]) -> (r: Option<Message>)
    requires
        bytes@.len() >= 1,
    ensures
        r == spec_decode(bytes@),
{
    let cmd = bytes[0] & 0xF0;
    let channel = bytes[0] & 0x0F;
    let kind = if cmd == 0x80 {
        parse_note_off(bytes)
    } else if cmd == 0x90 {
        parse_note_on(bytes)
    } else if cmd == 0xA0 {
        parse_polyphonic_aftertouch(bytes)
    } else if cmd == 0xB0 {
        parse_control_change(bytes)
    } else if cmd == 0xC0 {
        parse_program_change(bytes)
    } else if cmd == 0xD0 {
        parse_channel_aftertouch(bytes)
    } else if cmd == 0xE0 {
        parse_pitch_wheel(bytes)
    } else {
        None
    };
    match kind {
        Some(kind) => Some(Message { kind, channel }),
        None => None,
    }
}

pub fn parse_note_on(bytes: &[u8]) -> (r: Option<MessageKind>)
    ensures
        r == spec_parse_note_on(bytes@),
{
    if bytes.len() < 3 {
        None
    } else {
        let velocity = bytes[2];
        if velocity == 0 {
            Some(MessageKind::NoteOff { note: bytes[1], velocity })
        } else {
            Some(MessageKind::NoteOn { note: bytes[1], velocity })
        }
    }
}

pub fn parse_note_off(bytes: &[u8]) -> (r: Option<MessageKind>)
    ensures
        r == spec_parse_note_off(bytes@),
{
    if bytes.len() < 3 {
        None
    } else {
        Some(MessageKind::NoteOff { note: bytes[1], velocity: bytes[2] })
    }
}

pub fn parse_polyphonic_aftertouch(bytes: &[u8]) -> (r: Option<MessageKind>)
    ensures
        r == spec_parse_polyphonic_aftertouch(bytes@),
{
    if bytes.len() < 3 {
        None
    } else {
        Some(MessageKind::PolyphonicAftertouch { note: bytes[1], pressure: bytes[2] })
    }
}

pub fn parse_control_change(bytes: &[u8]) -> (r: Option<MessageKind>)
    ensures
        r == spec_parse_control_change(bytes@),
{
    if bytes.len() < 3 {
        None
    } else {
        match ControlChangeKind::from_number(bytes[1]) {
            Some(kind) => Some(MessageKind::ControlChange { kind, value: bytes[2] }),
            None => None,
        }
    }
}

pub fn parse_program_change(bytes: &[u8]) -> (r: Option<MessageKind>)
    ensures
        r == spec_parse_program_change(bytes@),
{
    if bytes.len() < 2 {
        None
    } else {
        Some(MessageKind::ProgramChange { program: bytes[1] })
    }
}

pub fn parse_channel_aftertouch(bytes: &[u8]) -> (r: Option<MessageKind>)
    ensures
        r == spec_parse_channel_aftertouch(bytes@),
{
    if bytes.len() < 2 {
        None
    } else {
        Some(MessageKind::ChannelAftertouch { pressure: bytes[1] })
    }
}

pub fn parse_pitch_wheel(bytes: &[u8]) -> (r: Option<MessageKind>)
    ensures
        r == spec_parse_pitch_wheel(bytes@),
{
    if bytes.len() < 3 {
        None
    } else {
        let value = ((bytes[1] as u16) & 0x7F) | (((bytes[2] as u16) & 0x7F) << 7);
        Some(MessageKind::PitchWheel { value })
    }
}

} // verus!
