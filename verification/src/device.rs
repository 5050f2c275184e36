//! Configuration model and the chip's command, register and flag vocabulary.

use vstd::prelude::*;

pub mod ble;
pub mod common;
pub mod flags;
pub mod flrc;
pub mod gfsk;
pub mod lora;

use crate::device::ble::{BleChannel, BleConfig};
use crate::device::flrc::{FlrcChannel, FlrcConfig};
use crate::device::gfsk::{GfskChannel, GfskConfig};
use crate::device::lora::{
    LoRa, LoRaBandwidth, LoRaChannel, LoRaCodingRate, LoRaConfig, LoRaCrc, LoRaHeader, LoRaIq,
    LoRaSpreadingFactor,
};

verus! {

/// Lowest transmit power the chip accepts, in dBm.
pub const POWER_MIN: i8 = -18;

/// Highest transmit power the chip accepts, in dBm.
pub const POWER_MAX: i8 = 13;

/// Microseconds the chip takes off an automatic transmit delay by itself.
pub const AUTO_RX_TX_OFFSET: u16 = 33;

/// Radio configuration
#[derive(Clone, Copy, PartialEq, Debug)]
pub struct Config {
    /// Regulator mode
    pub regulator_mode: RegulatorMode,
    /// Power amplifier settings
    pub pa_config: PaConfig,
    /// Packet framing; of the same packet family as `channel`
    pub modem: Modem,
    /// Frequency and modulation; of the same packet family as `modem`
    pub channel: Channel,
    /// Timeout applied to transmit and receive operations
    pub rf_timeout: Timeout,
    /// Accept a chip that reports an unknown firmware version
    pub skip_version_check: bool,
}

impl Config {
    /// The configuration a driver holds before it has been given one.
    pub open spec fn initial() -> Config {
        Config {
            regulator_mode: RegulatorMode::Dcdc,
            pa_config: PaConfig { power: 10, ramp_time: RampTime::Ramp20Us },
            modem: Modem::LoRa(
                LoRaConfig {
                    preamble_length: 8,
                    header_type: LoRaHeader::Explicit,
                    payload_length: 0x40,
                    crc_mode: LoRaCrc::On,
                    invert_iq: LoRaIq::Inverted,
                },
            ),
            channel: Channel::LoRa(
                LoRaChannel {
                    freq: 2_400_000_000,
                    mode: LoRa {
                        spreading_factor: LoRaSpreadingFactor::Sf7,
                        bandwidth: LoRaBandwidth::Bw0400,
                        coding_rate: LoRaCodingRate::Cr4_5,
                    },
                },
            ),
            rf_timeout: Timeout::Configurable { step: TickSize::TickSize1000us, count: 1000 },
            skip_version_check: false,
        }
    }

    /// Channel and modem belong to the same packet family.
    pub open spec fn families_match(self) -> bool {
        self.modem.packet_type() == self.channel.packet_type()
    }

    /// Whether channel and modem belong to the same packet family.
    pub fn check_families(&self) -> (b: bool)
        ensures
            b == self.families_match(),
    {
        match (&self.modem, &self.channel) {
            (Modem::Gfsk(_), Channel::Gfsk(_)) => true,
            (Modem::LoRa(_), Channel::LoRa(_)) => true,
            (Modem::Flrc(_), Channel::Flrc(_)) => true,
            (Modem::Ble(_), Channel::Ble(_)) => true,
            (Modem::Ranging(_), Channel::Ranging(_)) => true,
            _ => false,
        }
    }
}

impl Default for Config {
    fn default() -> (r: Self)
        ensures
            r == Config::initial(),
    {
        Config {
            regulator_mode: RegulatorMode::Dcdc,
            pa_config: PaConfig { power: 10, ramp_time: RampTime::Ramp20Us },
            modem: Modem::LoRa(LoRaConfig::default()),
            channel: Channel::LoRa(LoRaChannel::default()),
            rf_timeout: Timeout::Configurable { step: TickSize::TickSize1000us, count: 1000 },
            skip_version_check: false,
        }
    }
}

/// Power amplifier settings
#[derive(Clone, Copy, PartialEq, Debug)]
pub struct PaConfig {
    /// Transmit power in dBm, from -18 to 13
    pub power: i8,
    /// Power amplifier ramp time
    pub ramp_time: RampTime,
}

/// Packet family the chip operates in
#[derive(Clone, Copy, PartialEq, Eq, Structural, Debug)]
pub enum PacketType {
    Gfsk,
    LoRa,
    Ranging,
    Flrc,
    Ble,
    /// No packet family has been selected yet
    Unselected,
}

impl PacketType {
    /// The byte the chip knows this packet type by.
    pub open spec fn code(self) -> u8 {
        match self {
            PacketType::Gfsk => 0x00,
            PacketType::LoRa => 0x01,
            PacketType::Ranging => 0x02,
            PacketType::Flrc => 0x03,
            PacketType::Ble => 0x04,
            PacketType::Unselected => 0x0F,
        }
    }

    pub fn to_byte(self) -> (b: u8)
        ensures
            b == self.code(),
    {
        match self {
            PacketType::Gfsk => 0x00,
            PacketType::LoRa => 0x01,
            PacketType::Ranging => 0x02,
            PacketType::Flrc => 0x03,
            PacketType::Ble => 0x04,
            PacketType::Unselected => 0x0F,
        }
    }
}

/// Packet framing parameters, one variant per packet family
#[derive(Clone, Copy, PartialEq, Debug)]
pub enum Modem {
    Gfsk(GfskConfig),
    LoRa(LoRaConfig),
    Flrc(FlrcConfig),
    Ble(BleConfig),
    Ranging(LoRaConfig),
}

impl Modem {
    /// The packet family of these parameters.
    pub open spec fn packet_type(self) -> PacketType {
        match self {
            Modem::Gfsk(_) => PacketType::Gfsk,
            Modem::LoRa(_) => PacketType::LoRa,
            Modem::Flrc(_) => PacketType::Flrc,
            Modem::Ble(_) => PacketType::Ble,
            Modem::Ranging(_) => PacketType::Ranging,
        }
    }

    /// The packet family of these parameters.
    pub fn get_packet_type(&self) -> (t: PacketType)
        ensures
            t == self.packet_type(),
    {
        match self {
            Modem::Gfsk(_) => PacketType::Gfsk,
            Modem::LoRa(_) => PacketType::LoRa,
            Modem::Flrc(_) => PacketType::Flrc,
            Modem::Ble(_) => PacketType::Ble,
            Modem::Ranging(_) => PacketType::Ranging,
        }
    }

    /// These parameters with the payload length replaced. BLE framing holds
    /// no payload length and stays as it is.
    pub open spec fn with_payload_len(self, len: u8) -> Modem {
        match self {
            Modem::Gfsk(c) => Modem::Gfsk(GfskConfig { payload_length: len, ..c }),
            Modem::LoRa(c) => Modem::LoRa(LoRaConfig { payload_length: len, ..c }),
            Modem::Flrc(c) => Modem::Flrc(FlrcConfig { payload_length: len, ..c }),
            Modem::Ble(c) => Modem::Ble(c),
            Modem::Ranging(c) => Modem::Ranging(LoRaConfig { payload_length: len, ..c }),
        }
    }

    /// Sets the payload length, where the packet family has one.
    pub fn set_payload_len(&mut self, len: u8)
        ensures
            *final(self) == old(self).with_payload_len(len),
    {
        let next = match *self {
            Modem::Gfsk(c) => Modem::Gfsk(GfskConfig { payload_length: len, ..c }),
            Modem::LoRa(c) => Modem::LoRa(LoRaConfig { payload_length: len, ..c }),
            Modem::Flrc(c) => Modem::Flrc(FlrcConfig { payload_length: len, ..c }),
            Modem::Ble(c) => Modem::Ble(c),
            Modem::Ranging(c) => Modem::Ranging(LoRaConfig { payload_length: len, ..c }),
        };
        *self = next;
    }
}

/// Operating channel: a frequency and the modulation parameters of one packet family
#[derive(Clone, Copy, PartialEq, Debug)]
pub enum Channel {
    Gfsk(GfskChannel),
    LoRa(LoRaChannel),
    Flrc(FlrcChannel),
    Ble(BleChannel),
    Ranging(LoRaChannel),
}

impl Channel {
    /// The packet family of this channel.
    pub open spec fn packet_type(self) -> PacketType {
        match self {
            Channel::Gfsk(_) => PacketType::Gfsk,
            Channel::LoRa(_) => PacketType::LoRa,
            Channel::Flrc(_) => PacketType::Flrc,
            Channel::Ble(_) => PacketType::Ble,
            Channel::Ranging(_) => PacketType::Ranging,
        }
    }

    /// The packet family of this channel.
    pub fn get_packet_type(&self) -> (t: PacketType)
        ensures
            t == self.packet_type(),
    {
        match self {
            Channel::Gfsk(_) => PacketType::Gfsk,
            Channel::LoRa(_) => PacketType::LoRa,
            Channel::Flrc(_) => PacketType::Flrc,
            Channel::Ble(_) => PacketType::Ble,
            Channel::Ranging(_) => PacketType::Ranging,
        }
    }

    /// Operating frequency in Hz.
    pub open spec fn freq(self) -> u32 {
        match self {
            Channel::Gfsk(c) => c.freq,
            Channel::LoRa(c) => c.freq,
            Channel::Flrc(c) => c.freq,
            Channel::Ble(c) => c.freq,
            Channel::Ranging(c) => c.freq,
        }
    }

    /// Operating frequency in Hz.
    pub fn frequency(&self) -> (f: u32)
        ensures
            f == self.freq(),
    {
        match self {
            Channel::Gfsk(c) => c.freq,
            Channel::LoRa(c) => c.freq,
            Channel::Flrc(c) => c.freq,
            Channel::Ble(c) => c.freq,
            Channel::Ranging(c) => c.freq,
        }
    }
}

/// Operating state of the chip
#[derive(Clone, Copy, PartialEq, Eq, Structural, Debug)]
pub enum State {
    Sleep,
    StandbyRc,
    StandbyXosc,
    Fs,
    Rx,
    Tx,
}

impl State {
    /// The state that the chip reports as circuit mode `mode`, if it is one.
    pub open spec fn of_mode(mode: u8) -> Option<State> {
        if mode == 0x00 {
            Some(State::Sleep)
        } else if mode == 0x02 {
            Some(State::StandbyRc)
        } else if mode == 0x03 {
            Some(State::StandbyXosc)
        } else if mode == 0x04 {
            Some(State::Fs)
        } else if mode == 0x05 {
            Some(State::Rx)
        } else if mode == 0x06 {
            Some(State::Tx)
        } else {
            None
        }
    }

    /// Reads a circuit mode as reported by the chip.
    pub fn from_mode(mode: u8) -> (s: Option<State>)
        ensures
            s == State::of_mode(mode),
    {
        match mode {
            0x00 => Some(State::Sleep),
            0x02 => Some(State::StandbyRc),
            0x03 => Some(State::StandbyXosc),
            0x04 => Some(State::Fs),
            0x05 => Some(State::Rx),
            0x06 => Some(State::Tx),
            _ => None,
        }
    }

    /// The command that requests this state.
    pub open spec fn command(self) -> Commands {
        match self {
            State::Tx => Commands::SetTx,
            State::Rx => Commands::SetRx,
            State::Fs => Commands::SetFs,
            State::StandbyRc => Commands::SetStandby,
            State::StandbyXosc => Commands::SetStandby,
            State::Sleep => Commands::SetSleep,
        }
    }

    /// The command that requests this state.
    pub fn to_command(self) -> (c: Commands)
        ensures
            c == self.command(),
    {
        match self {
            State::Tx => Commands::SetTx,
            State::Rx => Commands::SetRx,
            State::Fs => Commands::SetFs,
            State::StandbyRc => Commands::SetStandby,
            State::StandbyXosc => Commands::SetStandby,
            State::Sleep => Commands::SetSleep,
        }
    }
}

/// What the chip reports of the last command it was given
#[derive(Clone, Copy, PartialEq, Eq, Structural, Debug)]
pub enum CommandStatus {
    Reserved,
    Success,
    DataAvailable,
    Timeout,
    ProcessingError,
    ExecutionFailure,
    TxDone,
}

impl CommandStatus {
    /// The command status that the chip reports as `status`, if it is one.
    pub open spec fn of_status(status: u8) -> Option<CommandStatus> {
        if status == 0x00 {
            Some(CommandStatus::Reserved)
        } else if status == 0x01 {
            Some(CommandStatus::Success)
        } else if status == 0x02 {
            Some(CommandStatus::DataAvailable)
        } else if status == 0x03 {
            Some(CommandStatus::Timeout)
        } else if status == 0x04 {
            Some(CommandStatus::ProcessingError)
        } else if status == 0x05 {
            Some(CommandStatus::ExecutionFailure)
        } else if status == 0x06 {
            Some(CommandStatus::TxDone)
        } else {
            None
        }
    }

    /// Reads a command status as reported by the chip.
    pub fn from_status(status: u8) -> (s: Option<CommandStatus>)
        ensures
            s == CommandStatus::of_status(status),
    {
        match status {
            0x00 => Some(CommandStatus::Reserved),
            0x01 => Some(CommandStatus::Success),
            0x02 => Some(CommandStatus::DataAvailable),
            0x03 => Some(CommandStatus::Timeout),
            0x04 => Some(CommandStatus::ProcessingError),
            0x05 => Some(CommandStatus::ExecutionFailure),
            0x06 => Some(CommandStatus::TxDone),
            _ => None,
        }
    }
}

/// Regulator mode
#[derive(Clone, Copy, PartialEq, Debug)]
pub enum RegulatorMode {
    Ldo,
    Dcdc,
}

impl RegulatorMode {
    /// The byte the chip knows this regulator mode by.
    pub open spec fn code(self) -> u8 {
        match self {
            RegulatorMode::Ldo => 0x00,
            RegulatorMode::Dcdc => 0x01,
        }
    }

    pub fn to_byte(self) -> (b: u8)
        ensures
            b == self.code(),
    {
        match self {
            RegulatorMode::Ldo => 0x00,
            RegulatorMode::Dcdc => 0x01,
        }
    }
}

/// Power amplifier ramp time
#[derive(Clone, Copy, PartialEq, Debug)]
pub enum RampTime {
    Ramp02Us,
    Ramp04Us,
    Ramp06Us,
    Ramp08Us,
    Ramp10Us,
    Ramp12Us,
    Ramp16Us,
    Ramp20Us,
}

impl RampTime {
    /// The byte the chip knows this ramp time by.
    pub open spec fn code(self) -> u8 {
        match self {
            RampTime::Ramp02Us => 0x00,
            RampTime::Ramp04Us => 0x20,
            RampTime::Ramp06Us => 0x40,
            RampTime::Ramp08Us => 0x60,
            RampTime::Ramp10Us => 0x80,
            RampTime::Ramp12Us => 0xA0,
            RampTime::Ramp16Us => 0xC0,
            RampTime::Ramp20Us => 0xE0,
        }
    }

    pub fn to_byte(self) -> (b: u8)
        ensures
            b == self.code(),
    {
        match self {
            RampTime::Ramp02Us => 0x00,
            RampTime::Ramp04Us => 0x20,
            RampTime::Ramp06Us => 0x40,
            RampTime::Ramp08Us => 0x60,
            RampTime::Ramp10Us => 0x80,
            RampTime::Ramp12Us => 0xA0,
            RampTime::Ramp16Us => 0xC0,
            RampTime::Ramp20Us => 0xE0,
        }
    }
}

/// Unit in which the chip counts a timeout
#[derive(Clone, Copy, PartialEq, Debug)]
pub enum TickSize {
    /// 15.625 us
    TickSize0015us,
    /// 62.5 us
    TickSize0062us,
    /// 1 ms
    TickSize1000us,
    /// 4 ms
    TickSize4000us,
}

impl TickSize {
    /// The byte the chip knows this tick size by.
    pub open spec fn code(self) -> u8 {
        match self {
            TickSize::TickSize0015us => 0x00,
            TickSize::TickSize0062us => 0x01,
            TickSize::TickSize1000us => 0x02,
            TickSize::TickSize4000us => 0x03,
        }
    }

    pub fn to_byte(self) -> (b: u8)
        ensures
            b == self.code(),
    {
        match self {
            TickSize::TickSize0015us => 0x00,
            TickSize::TickSize0062us => 0x01,
            TickSize::TickSize1000us => 0x02,
            TickSize::TickSize4000us => 0x03,
        }
    }
}

/// Timeout policy for transmit and receive operations
#[derive(Clone, Copy, PartialEq, Debug)]
pub enum Timeout {
    /// No timeout: the operation ends when one packet was sent or received
    Single,
    /// Time out after `count` ticks of `step`
    Configurable { step: TickSize, count: u16 },
    /// No timeout: the chip stays in the mode
    Continuous,
}

impl Timeout {
    /// The tick size that goes to the chip.
    pub open spec fn tick(self) -> TickSize {
        match self {
            Timeout::Configurable { step, count } => step,
            _ => TickSize::TickSize0015us,
        }
    }

    /// The tick size that goes to the chip.
    pub fn step(&self) -> (t: TickSize)
        ensures
            t == self.tick(),
    {
        match self {
            Timeout::Configurable { step, count: _ } => *step,
            _ => TickSize::TickSize0015us,
        }
    }

    /// The tick count that goes to the chip.
    pub open spec fn ticks(self) -> u16 {
        match self {
            Timeout::Single => 0x0000,
            Timeout::Configurable { step, count } => count,
            Timeout::Continuous => 0xFFFF,
        }
    }

    /// The tick count that goes to the chip.
    pub fn count(&self) -> (n: u16)
        ensures
            n == self.ticks(),
    {
        match self {
            Timeout::Single => 0x0000,
            Timeout::Configurable { step: _, count } => *count,
            Timeout::Continuous => 0xFFFF,
        }
    }
}

/// Automatic transmission after a reception
#[derive(Clone, Copy, PartialEq, Debug)]
pub enum AutoTx {
    /// Transmit this many microseconds after a packet was received
    Enabled(u16),
    Disabled,
}

/// Role in a ranging exchange
#[derive(Clone, Copy, PartialEq, Debug)]
pub enum RangingRole {
    Responder,
    Initiator,
}

impl RangingRole {
    /// The byte the chip knows this role by.
    pub open spec fn code(self) -> u8 {
        match self {
            RangingRole::Responder => 0x00,
            RangingRole::Initiator => 0x01,
        }
    }

    pub fn to_byte(self) -> (b: u8)
        ensures
            b == self.code(),
    {
        match self {
            RangingRole::Responder => 0x00,
            RangingRole::Initiator => 0x01,
        }
    }
}

/// Commands of the chip
#[derive(Clone, Copy, PartialEq, Debug)]
pub enum Commands {
    GetStatus,
    WriteRegister,
    ReadRegister,
    WriteBuffer,
    ReadBuffer,
    SetSleep,
    SetStandby,
    SetFs,
    SetTx,
    SetRx,
    SetRxDutyCycle,
    SetCad,
    SetTxContinuousWave,
    SetTxContinuousPreamble,
    SetPacketType,
    GetPacketType,
    SetRfFrequency,
    SetTxParams,
    SetCadParams,
    SetBufferBaseAddress,
    SetModulationParams,
    SetPacketParams,
    GetRxBufferStatus,
    GetPacketStatus,
    GetRssiInst,
    SetDioIrqParams,
    GetIrqStatus,
    ClearIrqStatus,
    Calibrate,
    SetRegulatorMode,
    SetSaveContext,
    SetAutoTx,
    SetAutoFs,
    SetLongPreamble,
    SetUartSpeed,
    SetRangingRole,
}

impl Commands {
    /// The opcode of this command.
    pub open spec fn code(self) -> u8 {
        match self {
            Commands::GetStatus => 0xC0,
            Commands::WriteRegister => 0x18,
            Commands::ReadRegister => 0x19,
            Commands::WriteBuffer => 0x1A,
            Commands::ReadBuffer => 0x1B,
            Commands::SetSleep => 0x84,
            Commands::SetStandby => 0x80,
            Commands::SetFs => 0xC1,
            Commands::SetTx => 0x83,
            Commands::SetRx => 0x82,
            Commands::SetRxDutyCycle => 0x94,
            Commands::SetCad => 0xC5,
            Commands::SetTxContinuousWave => 0xD1,
            Commands::SetTxContinuousPreamble => 0xD2,
            Commands::SetPacketType => 0x8A,
            Commands::GetPacketType => 0x03,
            Commands::SetRfFrequency => 0x86,
            Commands::SetTxParams => 0x8E,
            Commands::SetCadParams => 0x88,
            Commands::SetBufferBaseAddress => 0x8F,
            Commands::SetModulationParams => 0x8B,
            Commands::SetPacketParams => 0x8C,
            Commands::GetRxBufferStatus => 0x17,
            Commands::GetPacketStatus => 0x1D,
            Commands::GetRssiInst => 0x1F,
            Commands::SetDioIrqParams => 0x8D,
            Commands::GetIrqStatus => 0x15,
            Commands::ClearIrqStatus => 0x97,
            Commands::Calibrate => 0x89,
            Commands::SetRegulatorMode => 0x96,
            Commands::SetSaveContext => 0xD5,
            Commands::SetAutoTx => 0x98,
            Commands::SetAutoFs => 0x9E,
            Commands::SetLongPreamble => 0x9B,
            Commands::SetUartSpeed => 0x9D,
            Commands::SetRangingRole => 0xA3,
        }
    }

    pub fn to_byte(self) -> (b: u8)
        ensures
            b == self.code(),
    {
        match self {
            Commands::GetStatus => 0xC0,
            Commands::WriteRegister => 0x18,
            Commands::ReadRegister => 0x19,
            Commands::WriteBuffer => 0x1A,
            Commands::ReadBuffer => 0x1B,
            Commands::SetSleep => 0x84,
            Commands::SetStandby => 0x80,
            Commands::SetFs => 0xC1,
            Commands::SetTx => 0x83,
            Commands::SetRx => 0x82,
            Commands::SetRxDutyCycle => 0x94,
            Commands::SetCad => 0xC5,
            Commands::SetTxContinuousWave => 0xD1,
            Commands::SetTxContinuousPreamble => 0xD2,
            Commands::SetPacketType => 0x8A,
            Commands::GetPacketType => 0x03,
            Commands::SetRfFrequency => 0x86,
            Commands::SetTxParams => 0x8E,
            Commands::SetCadParams => 0x88,
            Commands::SetBufferBaseAddress => 0x8F,
            Commands::SetModulationParams => 0x8B,
            Commands::SetPacketParams => 0x8C,
            Commands::GetRxBufferStatus => 0x17,
            Commands::GetPacketStatus => 0x1D,
            Commands::GetRssiInst => 0x1F,
            Commands::SetDioIrqParams => 0x8D,
            Commands::GetIrqStatus => 0x15,
            Commands::ClearIrqStatus => 0x97,
            Commands::Calibrate => 0x89,
            Commands::SetRegulatorMode => 0x96,
            Commands::SetSaveContext => 0xD5,
            Commands::SetAutoTx => 0x98,
            Commands::SetAutoFs => 0x9E,
            Commands::SetLongPreamble => 0x9B,
            Commands::SetUartSpeed => 0x9D,
            Commands::SetRangingRole => 0xA3,
        }
    }
}

/// Registers of the chip
#[derive(Clone, Copy, PartialEq, Debug)]
pub enum Registers {
    LrFirmwareVersionMsb,
    LrCrcSeedBaseAddr,
    LrCrcPolyBaseAddr,
    LrWhitSeedBaseAddr,
    LrRangingIdCheckLength,
    LrDeviceRangingAddr,
    LrRequestRangingAddr,
    LrRangingResultConfig,
    LrRangingResultBaseAddr,
    LrRangingResultsFreeze,
    LrRangingReRxTxDelayCal,
    LrRangingFilterWindowSize,
    LrRangingResultClearReg,
    RangingRssi,
    LrPacketParams,
    LrPayloadLength,
    LrSyncWordBaseAddress1,
    LrSyncWordBaseAddress2,
    LrSyncWordBaseAddress3,
    LrEstimatedFrequencyErrorMsb,
    LrSyncWordTolerance,
}

impl Registers {
    /// The address of this register.
    pub open spec fn address(self) -> u16 {
        match self {
            Registers::LrFirmwareVersionMsb => 0x0153,
            Registers::LrCrcSeedBaseAddr => 0x09C8,
            Registers::LrCrcPolyBaseAddr => 0x09C6,
            Registers::LrWhitSeedBaseAddr => 0x09C5,
            Registers::LrRangingIdCheckLength => 0x0931,
            Registers::LrDeviceRangingAddr => 0x0916,
            Registers::LrRequestRangingAddr => 0x0912,
            Registers::LrRangingResultConfig => 0x0924,
            Registers::LrRangingResultBaseAddr => 0x0961,
            Registers::LrRangingResultsFreeze => 0x097F,
            Registers::LrRangingReRxTxDelayCal => 0x092C,
            Registers::LrRangingFilterWindowSize => 0x091E,
            Registers::LrRangingResultClearReg => 0x0923,
            Registers::RangingRssi => 0x0964,
            Registers::LrPacketParams => 0x0903,
            Registers::LrPayloadLength => 0x0901,
            Registers::LrSyncWordBaseAddress1 => 0x09CE,
            Registers::LrSyncWordBaseAddress2 => 0x09D3,
            Registers::LrSyncWordBaseAddress3 => 0x09D8,
            Registers::LrEstimatedFrequencyErrorMsb => 0x0954,
            Registers::LrSyncWordTolerance => 0x09CD,
        }
    }

    pub fn addr(self) -> (a: u16)
        ensures
            a == self.address(),
    {
        match self {
            Registers::LrFirmwareVersionMsb => 0x0153,
            Registers::LrCrcSeedBaseAddr => 0x09C8,
            Registers::LrCrcPolyBaseAddr => 0x09C6,
            Registers::LrWhitSeedBaseAddr => 0x09C5,
            Registers::LrRangingIdCheckLength => 0x0931,
            Registers::LrDeviceRangingAddr => 0x0916,
            Registers::LrRequestRangingAddr => 0x0912,
            Registers::LrRangingResultConfig => 0x0924,
            Registers::LrRangingResultBaseAddr => 0x0961,
            Registers::LrRangingResultsFreeze => 0x097F,
            Registers::LrRangingReRxTxDelayCal => 0x092C,
            Registers::LrRangingFilterWindowSize => 0x091E,
            Registers::LrRangingResultClearReg => 0x0923,
            Registers::RangingRssi => 0x0964,
            Registers::LrPacketParams => 0x0903,
            Registers::LrPayloadLength => 0x0901,
            Registers::LrSyncWordBaseAddress1 => 0x09CE,
            Registers::LrSyncWordBaseAddress2 => 0x09D3,
            Registers::LrSyncWordBaseAddress3 => 0x09D8,
            Registers::LrEstimatedFrequencyErrorMsb => 0x0954,
            Registers::LrSyncWordTolerance => 0x09CD,
        }
    }
}

} // verus!
