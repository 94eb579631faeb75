//! Control change messages for continuous controllers.

use vstd::prelude::*;

verus! {

/// A control change message for continuous controllers
#[derive(Debug, Clone, Copy, PartialEq, Eq)]
pub enum Control {
    /// Bank select/change 0-127
    Bank(i8),
    /// Modulation by Wheel
    Wheel(i8),
    /// Modulation by Breath
    Breath(i8),
    /// Modulation by Pedal
    Pedal(i8),
    /// Control rate of portamento slide between two notes.
    PortamentoTime(i8),
    /// Control value for NRPN, RPN parameters.
    DataEntry(i8),
    /// Control volume
    Volume(i8),
    /// Control stereo patch left-right balance (64 is center)
    Balance(i8),
    /// Control mono patch left-right balance (64 is center)
    Pan(i8),
    /// Control partial volume adjustment
    Expression(i8),
    /// Synth/Workstation effect parameter controller A
    EffectA(i8),
    /// Synth/Workstation effect parameter controller B
    EffectB(i8),
    /// General-Purpose A
    UserA(i8),
    /// General-Purpose B
    UserB(i8),
    /// General-Purpose C
    UserC(i8),
    /// General-Purpose D
    UserD(i8),
    /// Least-significant-byte refinement of an earlier coarse controller
    Lsb {
        /// Which coarse controller (0-31) is refined
        which: i8,
        /// The value associated with the LSB
        value: i8,
    },
    /// Damper Pedal (Sustain all notes On/Off Switch)
    Damper(bool),
    /// Bend Pedal (Portamento On/Off Switch)
    Bend(bool),
    /// Sostenuto Pedal (Sustain only notes when first pressed)
    Sostenuto(bool),
    /// Soft Pedal
    Soft(bool),
    /// Legato Pedal,
    Legato(bool),
    /// Hold Pedal (Sustain notes but fade out based on release parameter,
    /// instead of when the pedal is released)
    Hold(bool),
    /// Change the way the sound is produced
    Variation(i8),
    /// Shape the Voltage-Controlled-Filter (VCF), change timbre, harmonics
    Resonance(i8),
    /// Shape the Voltage-Controlled-Amplifier (VCA), change release time
    ReleaseTime(i8),
    /// Shape the Voltage-Controlled-Amplifier (VCA), change attack time
    AttackTime(i8),
    /// Shape the Voltage-Controlled-Filter (VCF), change filter cutoff
    /// frequency
    CutoffFrequency(i8),
    /// Custom Sound Shaping A
    ShaperA(i8),
    /// Custom Sound Shaping B
    ShaperB(i8),
    /// Custom Sound Shaping C
    ShaperC(i8),
    /// Custom Sound Shaping D
    ShaperD(i8),
    /// Custom Sound Shaping E
    ShaperE(i8),
    /// Decay On/Off Switch
    Decay(bool),
    /// Hi-Pass Filter On/Off Switch
    HiPassFilter(bool),
    /// Generic On/Off Switch A
    SwitchA(bool),
    /// Generic On/Off Switch B
    SwitchB(bool),
    /// Control the amount of portamento
    Portamento(i8),
    /// High-Resolution Velocity Prefix
    Velocity(i8),
    /// Change Reverb Send Amount
    Reverb(i8),
    /// Change Tremelo Amount
    Tremelo(i8),
    /// Change Chorus Amount
    Chorus(i8),
    /// Change Detune Amount
    Detune(i8),
    /// Change Phaser Amount
    Phaser(i8),
    /// Increment data for RPN & NRPN messages
    DataIncrement,
    /// Decrement data for RPN & NRPN messages
    DataDecrement,
    /// Non-Registered Parameter Number LSB
    NrpnLsbSelect(i8),
    /// Non-Registered Parameter Number MSB
    NrpnMsbSelect(i8),
    /// Registered Parameter Number LSB
    RpnLsbSelect(i8),
    /// Registered Parameter Number MSB
    RpnMsbSelect(i8),
    /// Mute all audio immediately
    Mute,
    /// Reset all controllers
    Reset,
    /// Internal connection On/Off
    Local(bool),
    /// Stop all audio (play with release parameters, unlike `Mute`).
    Stop,
    /// Turn off omni mode
    OmniOff,
    /// Turn on omni mode
    OmniOn,
    /// Set device to monophonic mode; carries the requested channel count,
    /// or nothing when that count is zero.
    Monophonic(Option<i8>),
    /// Set device to polyphonic mode
    Polyphonic,
    /// Undefined CC
    Undefined {
        /// Which undefined CC was used
        which: i8,
        /// The value associated with the undefined CC
        value: i8,
    },
}

/// The controller named by a 7-bit controller number together with its 7-bit
/// value.  Every controller number maps to exactly one row of this table;
/// numbers the protocol leaves unassigned map to `Undefined`.  Switch
/// controllers are on exactly when the value is 64 or more.
pub open spec fn spec_control(which: i8, value: i8) -> Control {
    if which == 0 {
        Control::Bank(value)
    } else if which == 1 {
        Control::Wheel(value)
    } else if which == 2 {
        Control::Breath(value)
    } else if which == 4 {
        Control::Pedal(value)
    } else if which == 5 {
        Control::PortamentoTime(value)
    } else if which == 6 {
        Control::DataEntry(value)
    } else if which == 7 {
        Control::Volume(value)
    } else if which == 8 {
        Control::Balance(value)
    } else if which == 10 {
        Control::Pan(value)
    } else if which == 11 {
        Control::Expression(value)
    } else if which == 12 {
        Control::EffectA(value)
    } else if which == 13 {
        Control::EffectB(value)
    } else if which == 16 {
        Control::UserA(value)
    } else if which == 17 {
        Control::UserB(value)
    } else if which == 18 {
        Control::UserC(value)
    } else if which == 19 {
        Control::UserD(value)
    } else if 32 <= which <= 63 {
        Control::Lsb { which: (which - 32) as i8, value }
    } else if which == 64 {
        Control::Damper(value >= 64)
    } else if which == 65 {
        Control::Bend(value >= 64)
    } else if which == 66 {
        Control::Sostenuto(value >= 64)
    } else if which == 67 {
        Control::Soft(value >= 64)
    } else if which == 68 {
        Control::Legato(value >= 64)
    } else if which == 69 {
        Control::Hold(value >= 64)
    } else if which == 70 {
        Control::Variation(value)
    } else if which == 71 {
        Control::Resonance(value)
    } else if which == 72 {
        Control::ReleaseTime(value)
    } else if which == 73 {
        Control::AttackTime(value)
    } else if which == 74 {
        Control::CutoffFrequency(value)
    } else if which == 75 {
        Control::ShaperA(value)
    } else if which == 76 {
        Control::ShaperB(value)
    } else if which == 77 {
        Control::ShaperC(value)
    } else if which == 78 {
        Control::ShaperD(value)
    } else if which == 79 {
        Control::ShaperE(value)
    } else if which == 80 {
        Control::Decay(value >= 64)
    } else if which == 81 {
        Control::HiPassFilter(value >= 64)
    } else if which == 82 {
        Control::SwitchA(value >= 64)
    } else if which == 83 {
        Control::SwitchB(value >= 64)
    } else if which == 84 {
        Control::Portamento(value)
    } else if which == 88 {
        Control::Velocity(value)
    } else if which == 91 {
        Control::Reverb(value)
    } else if which == 92 {
        Control::Tremelo(value)
    } else if which == 93 {
        Control::Chorus(value)
    } else if which == 94 {
        Control::Detune(value)
    } else if which == 95 {
        Control::Phaser(value)
    } else if which == 96 {
        Control::DataIncrement
    } else if which == 97 {
        Control::DataDecrement
    } else if which == 98 {
        Control::NrpnLsbSelect(value)
    } else if which == 99 {
        Control::NrpnMsbSelect(value)
    } else if which == 100 {
        Control::RpnLsbSelect(value)
    } else if which == 101 {
        Control::RpnMsbSelect(value)
    } else if which == 120 {
        Control::Mute
    } else if which == 121 {
        Control::Reset
    } else if which == 122 {
        Control::Local(value >= 64)
    } else if which == 123 {
        Control::Stop
    } else if which == 124 {
        Control::OmniOff
    } else if which == 125 {
        Control::OmniOn
    } else if which == 126 {
        Control::Monophonic(if value == 0 { None } else { Some(value) })
    } else if which == 127 {
        Control::Polyphonic
    } else {
        Control::Undefined { which, value }
    }
}

impl Control {
    /// Decode a control change: a total function over controller number and
    /// value, following the fixed controller table.
    pub fn new(which: i8, value: i8) -> (r: Self)
        ensures
            r == spec_control(which, value),
    {
        match which {
            0 => Control::Bank(value),
            1 => Control::Wheel(value),
            // 3 undefined
            2 => Control::Breath(value),
            4 => Control::Pedal(value),
            5 => Control::PortamentoTime(value),
            6 => Control::DataEntry(value),
            7 => Control::Volume(value),
            8 => Control::Balance(value),
            // 9 undefined
            10 => Control::Pan(value),
            11 => Control::Expression(value),
            12 => Control::EffectA(value),
            13 => Control::EffectB(value),
            // 14..=15 undefined
            16 => Control::UserA(value),
            17 => Control::UserB(value),
            18 => Control::UserC(value),
            19 => Control::UserD(value),
            // 20..=31 undefined
            32..=63 => {
                proof {
                    assert(which & 0x1F == (which - 32) as i8) by (bit_vector)
                        requires
                            32 <= which <= 63,
                    ;
                }
                Control::Lsb { which: which & 0x1F, value }
            },
            64 => Control::Damper(value >= 64),
            65 => Control::Bend(value >= 64),
            66 => Control::Sostenuto(value >= 64),
            67 => Control::Soft(value >= 64),
            68 => Control::Legato(value >= 64),
            69 => Control::Hold(value >= 64),
            70 => Control::Variation(value),
            71 => Control::Resonance(value),
            72 => Control::ReleaseTime(value),
            73 => Control::AttackTime(value),
            74 => Control::CutoffFrequency(value),
            75 => Control::ShaperA(value),
            76 => Control::ShaperB(value),
            77 => Control::ShaperC(value),
            78 => Control::ShaperD(value),
            79 => Control::ShaperE(value),
            80 => Control::Decay(value >= 64),
            81 => Control::HiPassFilter(value >= 64),
            82 => Control::SwitchA(value >= 64),
            83 => Control::SwitchB(value >= 64),
            84 => Control::Portamento(value),
            // 85..=87 Undefined
            88 => Control::Velocity(value),
            // 89..=90 Undefined
            91 => Control::Reverb(value),
            92 => Control::Tremelo(value),
            93 => Control::Chorus(value),
            94 => Control::Detune(value),
            95 => Control::Phaser(value),
            96 => Control::DataIncrement,
            97 => Control::DataDecrement,
            98 => Control::NrpnLsbSelect(value),
            99 => Control::NrpnMsbSelect(value),
            100 => Control::RpnLsbSelect(value),
            101 => Control::RpnMsbSelect(value),
            // 102..=119 Undefined
            120 => Control::Mute,
            121 => Control::Reset,
            122 => Control::Local(value >= 64),
            123 => Control::Stop,
            124 => Control::OmniOff,
            125 => Control::OmniOn,
            126 => Control::Monophonic(if value == 0 { None } else { Some(value) }),
            127 => Control::Polyphonic,
            which => Control::Undefined { which, value },
        }
    }
}

} // verus!
