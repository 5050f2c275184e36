//! LoRa and ranging mode parameters.

use vstd::prelude::*;

verus! {

/// LoRa mode configuration: the three modulation parameters.
#[derive(Clone, Copy, PartialEq, Debug)]
pub struct LoRa {
    pub spreading_factor: LoRaSpreadingFactor,
    pub bandwidth: LoRaBandwidth,
    pub coding_rate: LoRaCodingRate,
}

impl Default for LoRa {
    fn default() -> (r: Self)
        ensures
            r == (LoRa {
                spreading_factor: LoRaSpreadingFactor::Sf7,
                bandwidth: LoRaBandwidth::Bw0400,
                coding_rate: LoRaCodingRate::Cr4_5,
            }),
    {
        LoRa {
            spreading_factor: LoRaSpreadingFactor::Sf7,
            bandwidth: LoRaBandwidth::Bw0400,
            coding_rate: LoRaCodingRate::Cr4_5,
        }
    }
}

/// Spreading factor for LoRa mode
#[derive(Clone, Copy, PartialEq, Debug)]
pub enum LoRaSpreadingFactor {
    Sf5,
    Sf6,
    Sf7,
    Sf8,
    Sf9,
    Sf10,
    Sf11,
    Sf12,
}

impl LoRaSpreadingFactor {
    /// The byte the chip knows this spreading factor by.
    pub open spec fn code(self) -> u8 {
        match self {
            LoRaSpreadingFactor::Sf5 => 0x50,
            LoRaSpreadingFactor::Sf6 => 0x60,
            LoRaSpreadingFactor::Sf7 => 0x70,
            LoRaSpreadingFactor::Sf8 => 0x80,
            LoRaSpreadingFactor::Sf9 => 0x90,
            LoRaSpreadingFactor::Sf10 => 0xA0,
            LoRaSpreadingFactor::Sf11 => 0xB0,
            LoRaSpreadingFactor::Sf12 => 0xC0,
        }
    }

    pub fn to_byte(self) -> (b: u8)
        ensures
            b == self.code(),
    {
        match self {
            LoRaSpreadingFactor::Sf5 => 0x50,
            LoRaSpreadingFactor::Sf6 => 0x60,
            LoRaSpreadingFactor::Sf7 => 0x70,
            LoRaSpreadingFactor::Sf8 => 0x80,
            LoRaSpreadingFactor::Sf9 => 0x90,
            LoRaSpreadingFactor::Sf10 => 0xA0,
            LoRaSpreadingFactor::Sf11 => 0xB0,
            LoRaSpreadingFactor::Sf12 => 0xC0,
        }
    }
}

/// Bandwidth for LoRa mode
#[derive(Clone, Copy, PartialEq, Debug)]
pub enum LoRaBandwidth {
    Bw0200,
    Bw0400,
    Bw0800,
    Bw1600,
}

impl LoRaBandwidth {
    /// The byte the chip knows this bandwidth by.
    pub open spec fn code(self) -> u8 {
        match self {
            LoRaBandwidth::Bw0200 => 0x34,
            LoRaBandwidth::Bw0400 => 0x26,
            LoRaBandwidth::Bw0800 => 0x18,
            LoRaBandwidth::Bw1600 => 0x0A,
        }
    }

    pub fn to_byte(self) -> (b: u8)
        ensures
            b == self.code(),
    {
        match self {
            LoRaBandwidth::Bw0200 => 0x34,
            LoRaBandwidth::Bw0400 => 0x26,
            LoRaBandwidth::Bw0800 => 0x18,
            LoRaBandwidth::Bw1600 => 0x0A,
        }
    }
}

/// Coding rates for LoRa mode
#[allow(non_camel_case_types)]
#[derive(Clone, Copy, PartialEq, Debug)]
pub enum LoRaCodingRate {
    Cr4_5,
    Cr4_6,
    Cr4_7,
    Cr4_8,
    CrLI_4_5,
    CrLI_4_6,
    CrLI_4_7,
}

impl LoRaCodingRate {
    /// The byte the chip knows this coding rate by.
    pub open spec fn code(self) -> u8 {
        match self {
            LoRaCodingRate::Cr4_5 => 0x01,
            LoRaCodingRate::Cr4_6 => 0x02,
            LoRaCodingRate::Cr4_7 => 0x03,
            LoRaCodingRate::Cr4_8 => 0x04,
            LoRaCodingRate::CrLI_4_5 => 0x05,
            LoRaCodingRate::CrLI_4_6 => 0x06,
            LoRaCodingRate::CrLI_4_7 => 0x07,
        }
    }

    pub fn to_byte(self) -> (b: u8)
        ensures
            b == self.code(),
    {
        match self {
            LoRaCodingRate::Cr4_5 => 0x01,
            LoRaCodingRate::Cr4_6 => 0x02,
            LoRaCodingRate::Cr4_7 => 0x03,
            LoRaCodingRate::Cr4_8 => 0x04,
            LoRaCodingRate::CrLI_4_5 => 0x05,
            LoRaCodingRate::CrLI_4_6 => 0x06,
            LoRaCodingRate::CrLI_4_7 => 0x07,
        }
    }
}

/// CRC mode for LoRa packet types
#[derive(Clone, Copy, PartialEq, Debug)]
pub enum LoRaCrc {
    On,
    Off,
}

impl LoRaCrc {
    /// The byte the chip knows this CRC mode by.
    pub open spec fn code(self) -> u8 {
        match self {
            LoRaCrc::On => 0x20,
            LoRaCrc::Off => 0x00,
        }
    }

    pub fn to_byte(self) -> (b: u8)
        ensures
            b == self.code(),
    {
        match self {
            LoRaCrc::On => 0x20,
            LoRaCrc::Off => 0x00,
        }
    }
}

/// IQ mode for LoRa packet types
#[derive(Clone, Copy, PartialEq, Debug)]
pub enum LoRaIq {
    Normal,
    Inverted,
}

impl LoRaIq {
    /// The byte the chip knows this IQ mode by.
    pub open spec fn code(self) -> u8 {
        match self {
            LoRaIq::Normal => 0x40,
            LoRaIq::Inverted => 0x00,
        }
    }

    pub fn to_byte(self) -> (b: u8)
        ensures
            b == self.code(),
    {
        match self {
            LoRaIq::Normal => 0x40,
            LoRaIq::Inverted => 0x00,
        }
    }
}

/// Header mode for LoRa packet types: with an explicit header the packet
/// carries its own length, with an implicit one both ends agree on it beforehand.
#[derive(Clone, Copy, PartialEq, Eq, Structural, Debug)]
pub enum LoRaHeader {
    Explicit,
    Implicit,
}

impl LoRaHeader {
    /// The byte the chip knows this header mode by.
    pub open spec fn code(self) -> u8 {
        match self {
            LoRaHeader::Explicit => 0x00,
            LoRaHeader::Implicit => 0x80,
        }
    }

    pub fn to_byte(self) -> (b: u8)
        ensures
            b == self.code(),
    {
        match self {
            LoRaHeader::Explicit => 0x00,
            LoRaHeader::Implicit => 0x80,
        }
    }
}

/// Packet framing for LoRa and ranging modes
#[derive(Clone, Copy, PartialEq, Debug)]
pub struct LoRaConfig {
    /// Preamble length in symbols
    pub preamble_length: u8,
    pub header_type: LoRaHeader,
    /// Payload length in bytes
    pub payload_length: u8,
    pub crc_mode: LoRaCrc,
    pub invert_iq: LoRaIq,
}

impl Default for LoRaConfig {
    fn default() -> (r: Self)
        ensures
            r == (LoRaConfig {
                preamble_length: 8,
                header_type: LoRaHeader::Explicit,
                payload_length: 0x40,
                crc_mode: LoRaCrc::On,
                invert_iq: LoRaIq::Inverted,
            }),
    {
        LoRaConfig {
            preamble_length: 8,
            header_type: LoRaHeader::Explicit,
            payload_length: 0x40,
            crc_mode: LoRaCrc::On,
            invert_iq: LoRaIq::Inverted,
        }
    }
}

/// Operating channel for LoRa and ranging modes
#[derive(Clone, Copy, PartialEq, Debug)]
pub struct LoRaChannel {
    /// Operating frequency in Hz
    pub freq: u32,
    /// Modulation parameters
    pub mode: LoRa,
}

impl Default for LoRaChannel {
    fn default() -> (r: Self)
        ensures
            r == (LoRaChannel {
                freq: 2_400_000_000,
                mode: LoRa {
                    spreading_factor: LoRaSpreadingFactor::Sf7,
                    bandwidth: LoRaBandwidth::Bw0400,
                    coding_rate: LoRaCodingRate::Cr4_5,
                },
            }),
    {
        LoRaChannel { freq: 2_400_000_000, mode: LoRa::default() }
    }
}

} // verus!
