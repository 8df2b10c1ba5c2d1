//! Per-earbud property values carried inside protocol messages, with the
//! byte encodings the device firmware uses.

use vstd::prelude::*;

verus! {

/// The side of an earbud.
#[derive(Debug, Clone, Copy, PartialEq, Eq, Structural)]
pub enum Side {
    Left,
    Right,
}

/// Where an earbud is currently placed, as reported by the device.
#[derive(Debug, Clone, Copy, PartialEq, Eq, Structural)]
pub enum Placement {
    InOpenCase,
    Outside,
    Ear,
    InCloseCase,
    Undetected,
}

/// The action assigned to holding an earbud's touchpad.
#[derive(Debug, Clone, Copy, PartialEq, Eq, Structural)]
pub enum TouchpadOption {
    NoiseCanceling,
    VoiceCommand,
    Volume,
    Spotify,
    Undetected,
    Disconnect,
    Custom,
}

/// The equalizer preset selected on the device.
#[derive(Debug, Clone, Copy, PartialEq, Eq, Structural)]
pub enum EqualizerType {
    Normal,
    BassBoost,
    Soft,
    Dynamic,
    Clear,
    TrebleBoost,
    Undetected,
}

impl Placement {
    pub open spec fn spec_decode(val: u8) -> Placement {
        match val {
            1u8 => Placement::Ear,
            2u8 => Placement::Outside,
            3u8 => Placement::InOpenCase,
            4u8 => Placement::InCloseCase,
            _ => Placement::Undetected,
        }
    }

    pub open spec fn spec_encode(self) -> u8 {
        match self {
            Placement::Ear => 1u8,
            Placement::Outside => 2u8,
            Placement::InOpenCase => 3u8,
            Placement::InCloseCase => 4u8,
            Placement::Undetected => 0u8,
        }
    }

    pub fn decode(val: u8) -> (r: Placement)
        ensures
            r == Placement::spec_decode(val),
    {
        match val {
            1 => Placement::Ear,
            2 => Placement::Outside,
            3 => Placement::InOpenCase,
            4 => Placement::InCloseCase,
            _ => Placement::Undetected,
        }
    }

    pub fn encode(&self) -> (r: u8)
        ensures
            r == self.spec_encode(),
    {
        match *self {
            Placement::Ear => 1,
            Placement::Outside => 2,
            Placement::InOpenCase => 3,
            Placement::InCloseCase => 4,
            Placement::Undetected => 0,
        }
    }
}

impl TouchpadOption {
    pub open spec fn spec_decode(val: u8) -> TouchpadOption {
        match val {
            1u8 => TouchpadOption::VoiceCommand,
            2u8 => TouchpadOption::NoiseCanceling,
            3u8 => TouchpadOption::Volume,
            4u8 => TouchpadOption::Spotify,
            5u8 => TouchpadOption::Custom,
            6u8 => TouchpadOption::Disconnect,
            _ => TouchpadOption::Undetected,
        }
    }

    pub open spec fn spec_encode(self) -> u8 {
        match self {
            TouchpadOption::VoiceCommand => 1u8,
            TouchpadOption::NoiseCanceling => 2u8,
            TouchpadOption::Volume => 3u8,
            TouchpadOption::Spotify => 4u8,
            TouchpadOption::Custom => 5u8,
            TouchpadOption::Disconnect => 6u8,
            TouchpadOption::Undetected => 0u8,
        }
    }

    pub fn decode(val: u8) -> (r: TouchpadOption)
        ensures
            r == TouchpadOption::spec_decode(val),
    {
        match val {
            1 => TouchpadOption::VoiceCommand,
            2 => TouchpadOption::NoiseCanceling,
            3 => TouchpadOption::Volume,
            4 => TouchpadOption::Spotify,
            5 => TouchpadOption::Custom,
            6 => TouchpadOption::Disconnect,
            _ => TouchpadOption::Undetected,
        }
    }

    pub fn encode(&self) -> (r: u8)
        ensures
            r == self.spec_encode(),
    {
        match *self {
            TouchpadOption::VoiceCommand => 1,
            TouchpadOption::NoiseCanceling => 2,
            TouchpadOption::Volume => 3,
            TouchpadOption::Spotify => 4,
            TouchpadOption::Custom => 5,
            TouchpadOption::Disconnect => 6,
            TouchpadOption::Undetected => 0,
        }
    }
}

impl EqualizerType {
    pub open spec fn spec_decode(val: u8) -> EqualizerType {
        match val {
            0u8 => EqualizerType::Normal,
            1u8 => EqualizerType::BassBoost,
            2u8 => EqualizerType::Soft,
            3u8 => EqualizerType::Dynamic,
            4u8 => EqualizerType::Clear,
            5u8 => EqualizerType::TrebleBoost,
            _ => EqualizerType::Undetected,
        }
    }

    pub open spec fn spec_encode(self) -> u8 {
        match self {
            EqualizerType::Normal => 0u8,
            EqualizerType::BassBoost => 1u8,
            EqualizerType::Soft => 2u8,
            EqualizerType::Dynamic => 3u8,
            EqualizerType::Clear => 4u8,
            EqualizerType::TrebleBoost => 5u8,
            EqualizerType::Undetected => 10u8,
        }
    }

    pub fn decode(val: u8) -> (r: EqualizerType)
        ensures
            r == EqualizerType::spec_decode(val),
    {
        match val {
            0 => EqualizerType::Normal,
            1 => EqualizerType::BassBoost,
            2 => EqualizerType::Soft,
            3 => EqualizerType::Dynamic,
            4 => EqualizerType::Clear,
            5 => EqualizerType::TrebleBoost,
            _ => EqualizerType::Undetected,
        }
    }

    pub fn encode(&self) -> (r: u8)
        ensures
            r == self.spec_encode(),
    {
        match *self {
            EqualizerType::Normal => 0,
            EqualizerType::BassBoost => 1,
            EqualizerType::Soft => 2,
            EqualizerType::Dynamic => 3,
            EqualizerType::Clear => 4,
            EqualizerType::TrebleBoost => 5,
            EqualizerType::Undetected => 10,
        }
    }
}

/// The value a property byte carries for the left earbud: its high nibble.
pub fn value_of_left(b: u8) -> (r: u8)
    ensures
        r == (b & 0xF0) >> 4u8,
{
    (b & 0xF0) >> 4
}

/// The value a property byte carries for the right earbud: its low nibble.
pub fn value_of_right(b: u8) -> (r: u8)
    ensures
        r == b & 0x0F,
{
    b & 0x0F
}

} // verus!
