//! Driver for the SX128x family of 2.4 GHz radio transceivers.
//!
//! The driver turns a radio configuration into the commands and register
//! accesses that the chip understands, keeps track of what the chip has been
//! told, starts transmissions and receptions and polls for their completion,
//! and decodes what the chip reports.
//!
//! - [`device`] holds the configuration model and the chip's vocabulary of
//!   commands, registers and flags.
//! - [`codec`] holds the numeric encodings, as functions on plain values.
//! - [`base`] holds the bus that the driver talks over, [`Hal`], which an
//!   application implements for its hardware, and the words of the contracts.
//! - [`mock`] holds a simulated bus.
//! - [`script`] says, operation by operation, what the driver asks of the bus.
//!
//! The driver holds its bus in a [`Recorder`], which keeps a record of every
//! exchange made on the bus, for the sake of contracts only, and lets nobody
//! add to the record but by asking the bus. Each operation states which
//! requests it added to the record, in which order, and what it returns for
//! each way the chip and the bus may answer.

use vstd::prelude::*;

pub mod base;
pub mod codec;
pub mod device;
pub mod mock;
pub mod script;

use crate::base::{
    answer, carried, follows, lemma_follows_len, lemma_start, lemma_step, outcome, ran, since,
    Exchange, Hal, Recorder, Request, Step,
};
use crate::codec::{
    check_firmware_version, check_receive_flags, check_transmit_flags, clamp_power,
    decode_packet_info, decode_rssi, decode_status, decode_word, encode_auto_tx, encode_frequency,
    encode_modulation_params, encode_packet_params, encode_power, encode_timeout, encode_word,
    frequency_to_steps, limit_power, modulation_params, packet_info, reads_length_register,
    rssi_of, rx_length, sync_word_location, timeout_bytes, word_of,
};
use crate::device::flags::{CalibrationParams, Irq, PacketInfo};
use crate::device::{
    AutoTx, Channel, Commands, Config, Modem, PaConfig, PacketType, RampTime, RangingRole,
    Registers, RegulatorMode, State, AUTO_RX_TX_OFFSET,
};
use crate::script::{
    auto_tx_request, buffer_base_request, buffer_status_script, calibrate_request, channel_script,
    check_receive_script, check_receive_verdict, check_transmit_script, check_transmit_verdict,
    configure_script, configure_verdict, configured, configured_packet_type, fetch_script,
    firmware_version_request, flags_read, framing_script, frequency_in_range, frequency_script,
    frequency_verdict, interrupts_script, irq_mask_request, lemma_configure_parts,
    lemma_receive_parts, lemma_scripts_start_plain, lemma_transmit_parts, longest_packet,
    modem_script, packet_status_request, power_request, ranging_script, receive_script,
    received_len, received_offset, received_script, regulator_request, rssi_request, settled,
    started, startup_config, startup_packet_type, startup_script, startup_verdict, state_request,
    state_verdict, status_request, switched, sync_word_fits, sync_word_script, sync_word_verdict,
    transmit_framing, transmit_script, type_switch,
};

verus! {

/// Lowest operating frequency in Hz
pub const FREQ_MIN: u32 = 2_400_000_000;

/// Highest operating frequency in Hz
pub const FREQ_MAX: u32 = 2_500_000_000;

/// Firmware version that this driver was written against
pub const FIRMWARE_VERSION: u16 = 0xA9B5;

/// Sx128x error type
#[derive(Debug, Clone, PartialEq)]
pub enum Error<CommsError, PinError> {
    /// Communications (SPI or UART) error
    Comms(CommsError),
    /// Pin control error
    Pin(PinError),
    /// Transaction aborted
    Aborted,
    /// Timeout by device
    Timeout,
    /// Timeout awaiting busy pin de-assert
    BusyTimeout,
    /// CRC error on received message
    InvalidCrc,
    /// Invalid message length
    InvalidLength,
    /// Invalid sync word
    InvalidSync,
    /// Device in another state than expected (expected, actual)
    InvalidState(State, State),
    /// Radio returned an invalid device firmware version
    InvalidDevice(u16),
    /// Radio returned an invalid response
    InvalidResponse(u8),
    /// Invalid configuration option provided
    InvalidConfiguration,
    /// Frequency out of range
    InvalidFrequency,
    /// No SPI communication detected
    NoComms,
}

/// Sx128x device object
pub struct Sx128x<Base, CommsError, PinError> {
    config: Config,
    packet_type: PacketType,
    line: Recorder<Base, CommsError, PinError>,
}

/// What a driver stands for in contracts.
pub struct Snapshot<CommsError, PinError> {
    /// The configuration that the driver holds the chip to have: each part is
    /// taken over once the chip has acknowledged the write that carries it
    pub config: Config,
    /// The packet type that the driver holds the chip to be in
    pub packet_type: PacketType,
    /// Every exchange that the driver has made on its bus, oldest first,
    /// whether the bus carried it out or failed it
    pub history: Seq<Exchange<CommsError, PinError>>,
}

impl<Base, CommsError, PinError> View for Sx128x<Base, CommsError, PinError> where
    Base: Hal<CommsError, PinError>,
 {
    type V = Snapshot<CommsError, PinError>;

    closed spec fn view(&self) -> Snapshot<CommsError, PinError> {
        Snapshot {
            config: self.config,
            packet_type: self.packet_type,
            history: self.line.history(),
        }
    }
}

impl<Base, CommsError, PinError> Sx128x<Base, CommsError, PinError> where
    Base: Hal<CommsError, PinError>,
 {
    /// The bus that the driver talks over.
    pub closed spec fn bus(&self) -> Base {
        self.line.bus()
    }

    /// Makes a driver over `hal` without touching the chip.
    pub fn build(hal: Base) -> (radio: Self)
        ensures
            radio.bus() == hal,
            radio@.config == Config::initial(),
            radio@.packet_type == PacketType::Unselected,
            radio@.history == Seq::<Exchange<CommsError, PinError>>::empty(),
    {
        Sx128x {
            config: Config::default(),
            packet_type: PacketType::Unselected,
            line: Recorder::new(hal),
        }
    }

    /// The configuration that the driver holds the chip to have.
    pub fn config(&self) -> (config: &Config)
        ensures
            *config == self@.config,
    {
        &self.config
    }

    /// The packet type that the driver holds the chip to be in.
    pub fn packet_type(&self) -> (packet_type: PacketType)
        ensures
            packet_type == self@.packet_type,
    {
        self.packet_type
    }

    /// The bus that the driver talks over.
    pub fn hal(&self) -> (hal: &Base)
        ensures
            *hal == self.bus(),
    {
        self.line.hal()
    }

    /// Resets the chip.
    pub fn reset(&mut self) -> (r: Result<(), Error<CommsError, PinError>>)
        ensures
            final(self)@.config == old(self)@.config,
            final(self)@.packet_type == old(self)@.packet_type,
            ran(old(self)@.history, final(self)@.history, seq![Step::Ask(Request::Reset)], Ok(()), r),
    {
        proof {
            reveal(follows);
        }
        self.line.reset()?;
        Ok(())
    }

    /// Waits for `ms` milliseconds.
    pub fn delay_ms(&mut self, ms: u32)
        ensures
            final(self)@.config == old(self)@.config,
            final(self)@.packet_type == old(self)@.packet_type,
            final(self)@.history == old(self)@.history.push(
                Exchange { request: Request::Delay(ms), reply: Ok(Seq::empty()) },
            ),
    {
        self.line.delay_ms(ms);
    }

    /// Reads the firmware version of the chip: two registers, most
    /// significant byte first.
    pub fn firmware_version(&mut self) -> (r: Result<u16, Error<CommsError, PinError>>)
        ensures
            final(self)@.config == old(self)@.config,
            final(self)@.packet_type == old(self)@.packet_type,
            ran(
                old(self)@.history,
                final(self)@.history,
                seq![firmware_version_request()],
                Ok(word_of(answer(since(old(self)@.history, final(self)@.history), 0))),
                r,
            ),
    {
        proof {
            reveal(follows);
        }
        let mut d: [u8; 2] = [0u8; 2];
        self.line.read_regs(Registers::LrFirmwareVersionMsb.addr(), &mut d)?;
        Ok(decode_word(&d))
    }

    /// Tunes the chip to `f` Hz. A frequency out of range is refused before
    /// anything goes over the bus.
    pub fn set_frequency(&mut self, f: u32) -> (r: Result<(), Error<CommsError, PinError>>)
        ensures
            final(self)@.config == old(self)@.config,
            final(self)@.packet_type == old(self)@.packet_type,
            ran(
                old(self)@.history,
                final(self)@.history,
                frequency_script(f),
                frequency_verdict(f),
                r,
            ),
            !frequency_in_range(f) ==> {
                &&& r == Err::<(), Error<CommsError, PinError>>(Error::InvalidFrequency)
                &&& final(self)@.history == old(self)@.history
            },
    {
        proof {
            reveal(follows);
        }
        if f < FREQ_MIN || f > FREQ_MAX {
            return Err(Error::InvalidFrequency);
        }
        let steps = frequency_to_steps(f);
        let data = encode_frequency(steps);
        self.line.write_cmd(Commands::SetRfFrequency.to_byte(), &data)?;
        Ok(())
    }

    /// Sets the transmit power in dBm and the ramp time of the power
    /// amplifier. A power out of range is brought to the nearest that the
    /// chip accepts. The driver takes the setting over once the chip has
    /// acknowledged it.
    pub fn set_power_ramp(&mut self, power: i8, ramp: RampTime) -> (r: Result<
        (),
        Error<CommsError, PinError>,
    >)
        ensures
            final(self)@.packet_type == old(self)@.packet_type,
            ran(
                old(self)@.history,
                final(self)@.history,
                seq![power_request(power, ramp)],
                Ok(()),
                r,
            ),
            final(self)@.config == (if r is Ok {
                Config {
                    pa_config: PaConfig { power: clamp_power(power), ramp_time: ramp },
                    ..old(self)@.config
                }
            } else {
                old(self)@.config
            }),
    {
        proof {
            reveal(follows);
        }
        let (power_reg, ramp_reg) = encode_power(power, ramp);
        let data: [u8; 2] = [power_reg, ramp_reg];
        assert(data@ =~= seq![power_reg, ramp_reg]);
        self.line.write_cmd(Commands::SetTxParams.to_byte(), &data)?;
        self.config.pa_config = PaConfig { power: limit_power(power), ramp_time: ramp };
        Ok(())
    }

    /// Sets the transmit power in dBm, with the ramp time as it is.
    pub fn set_power(&mut self, power: i8) -> (r: Result<(), Error<CommsError, PinError>>)
        ensures
            final(self)@.packet_type == old(self)@.packet_type,
            ran(
                old(self)@.history,
                final(self)@.history,
                seq![power_request(power, old(self)@.config.pa_config.ramp_time)],
                Ok(()),
                r,
            ),
            final(self)@.config == (if r is Ok {
                Config {
                    pa_config: PaConfig {
                        power: clamp_power(power),
                        ramp_time: old(self)@.config.pa_config.ramp_time,
                    },
                    ..old(self)@.config
                }
            } else {
                old(self)@.config
            }),
    {
        let ramp_time = self.config.pa_config.ramp_time;
        self.set_power_ramp(power, ramp_time)
    }

    /// Arms the interrupts of `irq`, and no others.
    pub fn set_irq_mask(&mut self, irq: Irq) -> (r: Result<(), Error<CommsError, PinError>>)
        ensures
            final(self)@.config == old(self)@.config,
            final(self)@.packet_type == old(self)@.packet_type,
            ran(old(self)@.history, final(self)@.history, seq![irq_mask_request(irq)], Ok(()), r),
    {
        proof {
            reveal(follows);
        }
        let data = encode_word(irq.bits());
        self.line.write_cmd(Commands::SetDioIrqParams.to_byte(), &data)?;
        Ok(())
    }

    /// Has the chip calibrate the blocks of `c`.
    pub fn calibrate(&mut self, c: CalibrationParams) -> (r: Result<
        (),
        Error<CommsError, PinError>,
    >)
        ensures
            final(self)@.config == old(self)@.config,
            final(self)@.packet_type == old(self)@.packet_type,
            ran(old(self)@.history, final(self)@.history, seq![calibrate_request(c)], Ok(()), r),
    {
        proof {
            reveal(follows);
        }
        let data: [u8; 1] = [c.bits()];
        assert(data@ =~= seq![c.bits]);
        self.line.write_cmd(Commands::Calibrate.to_byte(), &data)?;
        Ok(())
    }

    /// Selects the regulator of the chip.
    pub fn set_regulator_mode(&mut self, r: RegulatorMode) -> (res: Result<
        (),
        Error<CommsError, PinError>,
    >)
        ensures
            final(self)@.config == old(self)@.config,
            final(self)@.packet_type == old(self)@.packet_type,
            ran(
                old(self)@.history,
                final(self)@.history,
                seq![regulator_request(r)],
                Ok(()),
                res,
            ),
    {
        proof {
            reveal(follows);
        }
        let data: [u8; 1] = [r.to_byte()];
        assert(data@ =~= seq![r.code()]);
        self.line.write_cmd(Commands::SetRegulatorMode.to_byte(), &data)?;
        Ok(())
    }

    /// Sets up automatic transmission after a reception. The delay has to
    /// cover what the chip takes off it by itself.
    pub fn set_auto_tx(&mut self, a: AutoTx) -> (r: Result<(), Error<CommsError, PinError>>)
        requires
            a matches AutoTx::Enabled(timeout_us) ==> timeout_us >= AUTO_RX_TX_OFFSET,
        ensures
            final(self)@.config == old(self)@.config,
            final(self)@.packet_type == old(self)@.packet_type,
            ran(old(self)@.history, final(self)@.history, seq![auto_tx_request(a)], Ok(()), r),
    {
        proof {
            reveal(follows);
        }
        let data = encode_auto_tx(a);
        self.line.write_cmd(Commands::SetAutoTx.to_byte(), &data)?;
        Ok(())
    }

    /// Places the transmit and the receive area in the data buffer.
    pub fn set_buff_base_addr(&mut self, tx: u8, rx: u8) -> (r: Result<
        (),
        Error<CommsError, PinError>,
    >)
        ensures
            final(self)@.config == old(self)@.config,
            final(self)@.packet_type == old(self)@.packet_type,
            ran(
                old(self)@.history,
                final(self)@.history,
                seq![buffer_base_request(tx, rx)],
                Ok(()),
                r,
            ),
    {
        proof {
            reveal(follows);
        }
        let data: [u8; 2] = [tx, rx];
        assert(data@ =~= seq![tx, rx]);
        self.line.write_cmd(Commands::SetBufferBaseAddress.to_byte(), &data)?;
        Ok(())
    }

    /// Reads the state that the chip is in.
    pub fn get_state(&mut self) -> (r: Result<State, Error<CommsError, PinError>>)
        ensures
            final(self)@.config == old(self)@.config,
            final(self)@.packet_type == old(self)@.packet_type,
            ran(
                old(self)@.history,
                final(self)@.history,
                seq![status_request()],
                state_verdict(since(old(self)@.history, final(self)@.history), 0),
                r,
            ),
    {
        proof {
            reveal(follows);
        }
        let mut d: [u8; 1] = [0u8; 1];
        self.line.read_cmd(Commands::GetStatus.to_byte(), &mut d)?;
        decode_status(d[0])
    }

    /// Requests `state` of the chip.
    pub fn set_state(&mut self, state: State) -> (r: Result<(), Error<CommsError, PinError>>)
        ensures
            final(self)@.config == old(self)@.config,
            final(self)@.packet_type == old(self)@.packet_type,
            ran(old(self)@.history, final(self)@.history, seq![state_request(state)], Ok(()), r),
    {
        proof {
            reveal(follows);
        }
        let data: [u8; 1] = [0u8];
        assert(data@ =~= seq![0u8]);
        self.line.write_cmd(state.to_command().to_byte(), &data)?;
        Ok(())
    }

    /// Reads the pending interrupt flags, and clears them on the chip where
    /// `clear` is set and there are any.
    pub fn get_interrupts(&mut self, clear: bool) -> (r: Result<Irq, Error<CommsError, PinError>>)
        ensures
            final(self)@.config == old(self)@.config,
            final(self)@.packet_type == old(self)@.packet_type,
            ran(
                old(self)@.history,
                final(self)@.history,
                interrupts_script(clear, since(old(self)@.history, final(self)@.history)),
                Ok(flags_read(since(old(self)@.history, final(self)@.history), 0)),
                r,
            ),
    {
        proof {
            reveal(follows);
        }
        let mut data: [u8; 2] = [0u8; 2];
        self.line.read_cmd(Commands::GetIrqStatus.to_byte(), &mut data)?;
        let irq = Irq::from_bits(decode_word(&data));
        if clear && !irq.is_empty() {
            self.line.write_cmd(Commands::ClearIrqStatus.to_byte(), &data)?;
        }
        Ok(irq)
    }

    /// Reads the signal strength on the channel in dBm. The chip measures it
    /// while it receives.
    pub fn poll_rssi(&mut self) -> (r: Result<i16, Error<CommsError, PinError>>)
        ensures
            final(self)@.config == old(self)@.config,
            final(self)@.packet_type == old(self)@.packet_type,
            ran(
                old(self)@.history,
                final(self)@.history,
                seq![rssi_request()],
                Ok(rssi_of(answer(since(old(self)@.history, final(self)@.history), 0)[0]) as i16),
                r,
            ),
    {
        proof {
            reveal(follows);
        }
        let mut raw: [u8; 1] = [0u8; 1];
        self.line.read_cmd(Commands::GetRssiInst.to_byte(), &mut raw)?;
        Ok(decode_rssi(raw[0]))
    }

    /// Reads what the chip reports of the last packet into `info`, by the
    /// packet type that the chip is in: nothing of what `info` held is left,
    /// and a packet family without a signal to noise ratio leaves none.
    /// `info` stays as it is where the bus fails.
    pub fn get_packet_info(&mut self, info: &mut PacketInfo) -> (r: Result<
        (),
        Error<CommsError, PinError>,
    >)
        requires
            old(self)@.packet_type != PacketType::Unselected,
        ensures
            final(self)@.config == old(self)@.config,
            final(self)@.packet_type == old(self)@.packet_type,
            ran(
                old(self)@.history,
                final(self)@.history,
                seq![packet_status_request()],
                Ok(()),
                r,
            ),
            *final(info) == (if r is Ok {
                packet_info(
                    old(self)@.packet_type,
                    answer(since(old(self)@.history, final(self)@.history), 0),
                )
            } else {
                *old(info)
            }),
    {
        proof {
            reveal(follows);
        }
        let mut data: [u8; 5] = [0u8; 5];
        self.line.read_cmd(Commands::GetPacketStatus.to_byte(), &mut data)?;
        decode_packet_info(self.packet_type, &data, info);
        Ok(())
    }

    /// Reads where the received packet lies in the data buffer: its offset
    /// and its length.
    pub fn get_rx_buffer_status(&mut self) -> (r: Result<
        (u8, usize),
        Error<CommsError, PinError>,
    >)
        ensures
            final(self)@.config == old(self)@.config,
            final(self)@.packet_type == old(self)@.packet_type,
            ran(
                old(self)@.history,
                final(self)@.history,
                buffer_status_script(old(self)@.config.modem),
                Ok(
                    (
                        received_offset(since(old(self)@.history, final(self)@.history)),
                        received_len(
                            old(self)@.config.modem,
                            since(old(self)@.history, final(self)@.history),
                        ) as usize,
                    ),
                ),
                r,
            ),
            r matches Ok(found) ==> found.1 <= longest_packet(old(self)@.config.modem),
    {
        proof {
            reveal(follows);
        }
        let mut status: [u8; 2] = [0u8; 2];
        self.line.read_cmd(Commands::GetRxBufferStatus.to_byte(), &mut status)?;
        let len: usize = if reads_length_register(&self.config.modem) {
            self.line.read_reg(Registers::LrPayloadLength.addr())? as usize
        } else {
            rx_length(&self.config.modem, status[0])
        };
        Ok((status[1], len))
    }

    /// Sets the sync word `index` (1 to 3) to `value`: five bytes in GFSK
    /// mode, four in FLRC and BLE modes. A sync word that the packet type
    /// does not have, or a value of another length, is refused before
    /// anything goes over the bus.
    pub fn set_syncword(&mut self, index: u8, value: &[u8]) -> (r: Result<
        (),
        Error<CommsError, PinError>,
    >)
        ensures
            final(self)@.config == old(self)@.config,
            final(self)@.packet_type == old(self)@.packet_type,
            ran(
                old(self)@.history,
                final(self)@.history,
                sync_word_script(old(self)@.packet_type, index, value@),
                sync_word_verdict(old(self)@.packet_type, index, value@),
                r,
            ),
            !sync_word_fits(old(self)@.packet_type, index, value@) ==> {
                &&& r == Err::<(), Error<CommsError, PinError>>(Error::InvalidConfiguration)
                &&& final(self)@.history == old(self)@.history
            },
    {
        proof {
            reveal(follows);
        }
        let (addr, len) = match sync_word_location(self.packet_type, index) {
            Some(slot) => slot,
            None => {
                return Err(Error::InvalidConfiguration);
            },
        };
        if value.len() != len {
            return Err(Error::InvalidConfiguration);
        }
        self.line.write_regs(addr, value)?;
        if self.packet_type == PacketType::Flrc {
            let tolerance = self.line.read_reg(Registers::LrSyncWordTolerance.addr())?;
            self.line.write_reg(Registers::LrSyncWordTolerance.addr(), tolerance & 0xF0)?;
        }
        Ok(())
    }

    /// Writes the packet framing to the chip, switching the packet type first
    /// where it differs. The driver takes the packet type over once the chip
    /// has acknowledged the switch.
    pub fn configure_modem(&mut self, config: &Modem) -> (r: Result<
        (),
        Error<CommsError, PinError>,
    >)
        ensures
            final(self)@.config == old(self)@.config,
            ran(
                old(self)@.history,
                final(self)@.history,
                modem_script(old(self)@.packet_type, *config),
                Ok(()),
                r,
            ),
            final(self)@.packet_type == switched(
                old(self)@.packet_type,
                config.packet_type(),
                since(old(self)@.history, final(self)@.history),
                0,
            ),
            r is Ok ==> final(self)@.packet_type == config.packet_type(),
    {
        proof {
            reveal(follows);
            reveal(carried);
            reveal(modem_script);
        }
        let ghost h0 = self@.history;
        let packet_type = config.get_packet_type();
        if self.packet_type != packet_type {
            let data: [u8; 1] = [packet_type.to_byte()];
            assert(data@ =~= seq![packet_type.code()]);
            self.line.write_cmd(Commands::SetPacketType.to_byte(), &data)?;
            self.packet_type = packet_type;
        }
        let data = encode_packet_params(config);
        self.line.write_cmd(Commands::SetPacketParams.to_byte(), &data)?;
        if let Modem::Flrc(c) = config {
            if let Some(v) = c.sync_word_value {
                let ghost h1 = self@.history;
                let set = self.set_syncword(1, &v);
                proof {
                    let h2 = self@.history;
                    lemma_step(
                        h0,
                        h1,
                        h2,
                        framing_script(old(self)@.packet_type, *config),
                        sync_word_script(PacketType::Flrc, 1, v@),
                        modem_script(old(self)@.packet_type, *config),
                    );
                }
                set?;
            }
        }
        Ok(())
    }

    /// Sets the operating channel: the frequency, then the modulation
    /// parameters, with a switch of the packet type between them where it
    /// differs. A frequency out of range is refused before anything goes
    /// over the bus. The driver takes the packet type over once the chip has
    /// acknowledged the switch.
    pub fn set_channel(&mut self, ch: &Channel) -> (r: Result<(), Error<CommsError, PinError>>)
        ensures
            final(self)@.config == old(self)@.config,
            ran(
                old(self)@.history,
                final(self)@.history,
                channel_script(old(self)@.packet_type, *ch),
                frequency_verdict(ch.freq()),
                r,
            ),
            final(self)@.packet_type == switched(
                old(self)@.packet_type,
                ch.packet_type(),
                since(old(self)@.history, final(self)@.history),
                1,
            ),
            r is Ok ==> final(self)@.packet_type == ch.packet_type(),
            !frequency_in_range(ch.freq()) ==> {
                &&& r == Err::<(), Error<CommsError, PinError>>(Error::InvalidFrequency)
                &&& final(self)@.history == old(self)@.history
            },
    {
        proof {
            reveal(follows);
            reveal(carried);
            reveal(channel_script);
        }
        let ghost h0 = self@.history;
        let ghost full = channel_script(old(self)@.packet_type, *ch);
        let ghost switch = type_switch(old(self)@.packet_type, ch.packet_type());
        let ghost params = seq![
            Step::Ask(
                Request::WriteCmd(Commands::SetModulationParams.code(), modulation_params(*ch)),
            ),
        ];
        let freq = ch.frequency();
        if freq < FREQ_MIN || freq > FREQ_MAX {
            return Err(Error::InvalidFrequency);
        }
        let tuned = self.set_frequency(freq);
        proof {
            lemma_start(h0);
            lemma_step(
                h0,
                h0,
                self@.history,
                Seq::empty(),
                frequency_script(freq),
                full,
            );
        }
        tuned?;
        let packet_type = ch.get_packet_type();
        if self.packet_type != packet_type {
            let ghost h1 = self@.history;
            let data: [u8; 1] = [packet_type.to_byte()];
            assert(data@ =~= seq![packet_type.code()]);
            let changed = self.line.write_cmd(Commands::SetPacketType.to_byte(), &data);
            proof {
                lemma_step(
                    h0,
                    h1,
                    self@.history,
                    frequency_script(freq),
                    switch,
                    full,
                );
            }
            changed?;
            self.packet_type = packet_type;
        }
        let ghost h2 = self@.history;
        let data = encode_modulation_params(ch);
        let written = self.line.write_cmd(Commands::SetModulationParams.to_byte(), &data);
        proof {
            lemma_step(
                h0,
                h2,
                self@.history,
                frequency_script(freq) + switch,
                params,
                full,
            );
        }
        written?;
        Ok(())
    }

    /// Configures the chip: it is put in standby, the configuration is checked,
    /// and then the regulator, the channel, the framing and the transmit power
    /// are written, in this order. The driver takes each part over once the
    /// chip has acknowledged it, so that what it holds is what the chip has,
    /// also where a later step fails. A configuration whose channel and modem
    /// belong to different packet families is refused after the one request
    /// to go to standby, and nothing of it is written.
    pub fn configure(&mut self, config: &Config) -> (r: Result<(), Error<CommsError, PinError>>)
        ensures
            ran(
                old(self)@.history,
                final(self)@.history,
                configure_script(old(self)@.packet_type, *config),
                configure_verdict(*config),
                r,
            ),
            final(self)@.config == configured(
                old(self)@.config,
                old(self)@.packet_type,
                *config,
                since(old(self)@.history, final(self)@.history),
            ),
            final(self)@.packet_type == configured_packet_type(
                old(self)@.packet_type,
                *config,
                since(old(self)@.history, final(self)@.history),
            ),
            r is Ok ==> {
                &&& final(self)@.packet_type == config.channel.packet_type()
                &&& final(self)@.config == Config {
                    pa_config: PaConfig {
                        power: clamp_power(config.pa_config.power),
                        ramp_time: config.pa_config.ramp_time,
                    },
                    ..*config
                }
            },
            !config.families_match() ==> {
                &&& r is Err
                &&& since(old(self)@.history, final(self)@.history).len() == 1
                &&& final(self)@.config == old(self)@.config
                &&& final(self)@.packet_type == old(self)@.packet_type
            },
    {
        proof {
            lemma_configure_parts(old(self)@.packet_type, *config);
            lemma_scripts_start_plain(
                old(self)@.packet_type,
                *config,
                config.channel,
                config.modem,
                Seq::empty(),
            );
            lemma_scripts_start_plain(
                config.channel.packet_type(),
                *config,
                config.channel,
                config.modem,
                Seq::empty(),
            );
        }
        let ghost h0 = self@.history;
        let ghost full = configure_script(old(self)@.packet_type, *config);
        let ghost standby = seq![state_request(State::StandbyRc)];
        let idle = self.set_state(State::StandbyRc);
        proof {
            lemma_start(h0);
            lemma_step(h0, h0, self@.history, Seq::empty(), standby, full);
        }
        idle?;
        if !config.check_families() {
            return Err(Error::InvalidConfiguration);
        }
        let ghost h1 = self@.history;
        let ghost regulator = seq![regulator_request(config.regulator_mode)];
        let regulated = self.set_regulator_mode(config.regulator_mode);
        proof {
            lemma_step(h0, h1, self@.history, standby, regulator, full);
        }
        regulated?;
        self.config.regulator_mode = config.regulator_mode;
        let ghost h2 = self@.history;
        let ghost channel = channel_script(old(self)@.packet_type, config.channel);
        let tuned = self.set_channel(&config.channel);
        proof {
            lemma_step(h0, h2, self@.history, standby + regulator, channel, full);
        }
        tuned?;
        self.config.channel = config.channel;
        let ghost h3 = self@.history;
        let ghost modem = modem_script(config.channel.packet_type(), config.modem);
        let framed = self.configure_modem(&config.modem);
        proof {
            lemma_step(h0, h3, self@.history, standby + regulator + channel, modem, full);
        }
        framed?;
        self.config.modem = config.modem;
        let ghost h4 = self@.history;
        let ghost power = seq![
            power_request(config.pa_config.power, config.pa_config.ramp_time),
        ];
        let powered = self.set_power_ramp(config.pa_config.power, config.pa_config.ramp_time);
        proof {
            lemma_step(
                h0,
                h4,
                self@.history,
                standby + regulator + channel + modem,
                power,
                full,
            );
        }
        powered?;
        self.config.rf_timeout = config.rf_timeout;
        self.config.skip_version_check = config.skip_version_check;
        Ok(())
    }

    /// Starts the transmission of `data`, at most 255 bytes. The framing goes
    /// to the chip with the payload length of the data; what the driver
    /// holds as its configuration stays as it is.
    pub fn start_transmit(&mut self, data: &[u8]) -> (r: Result<(), Error<CommsError, PinError>>)
        requires
            data@.len() <= 255,
        ensures
            final(self)@.config == old(self)@.config,
            ran(
                old(self)@.history,
                final(self)@.history,
                transmit_script(old(self)@.packet_type, old(self)@.config, data@),
                settled(since(old(self)@.history, final(self)@.history)),
                r,
            ),
            final(self)@.packet_type == switched(
                old(self)@.packet_type,
                old(self)@.config.modem.packet_type(),
                since(old(self)@.history, final(self)@.history),
                0,
            ),
    {
        proof {
            reveal(follows);
            lemma_transmit_parts(old(self)@.packet_type, old(self)@.config, data@);
            lemma_scripts_start_plain(
                old(self)@.packet_type,
                old(self)@.config,
                old(self)@.config.channel,
                transmit_framing(old(self)@.config, data@.len()),
                data@,
            );
        }
        let ghost h0 = self@.history;
        let ghost full = transmit_script(old(self)@.packet_type, old(self)@.config, data@);
        let ghost modem = modem_script(
            old(self)@.packet_type,
            transmit_framing(old(self)@.config, data@.len()),
        );
        let ghost base = seq![buffer_base_request(0, 0)];
        let ghost buffer = seq![Step::Ask(Request::WriteBuff(0, data@))];
        let ghost ranging = ranging_script(
            old(self)@.config.modem.packet_type(),
            RangingRole::Initiator,
        );
        let ghost irq = seq![irq_mask_request(Irq { bits: Irq::TRANSMIT })];
        let ghost tx = seq![
            Step::Ask(
                Request::WriteCmd(
                    Commands::SetTx.code(),
                    timeout_bytes(old(self)@.config.rf_timeout),
                ),
            ),
        ];
        let ghost status = seq![status_request()];

        let mut modem_config = self.config.modem;
        modem_config.set_payload_len(data.len() as u8);
        let framed = self.configure_modem(&modem_config);
        proof {
            lemma_start(h0);
            lemma_step(h0, h0, self@.history, Seq::empty(), modem, full);
        }
        framed?;

        let ghost h1 = self@.history;
        let based = self.set_buff_base_addr(0, 0);
        proof {
            lemma_step(h0, h1, self@.history, modem, base, full);
        }
        based?;

        let ghost h2 = self@.history;
        let written = self.line.write_buff(0, data);
        proof {
            lemma_step(h0, h2, self@.history, modem + base, buffer, full);
        }
        written?;

        let ghost h3 = self@.history;
        if self.packet_type == PacketType::Ranging {
            let role: [u8; 1] = [RangingRole::Initiator.to_byte()];
            assert(role@ =~= seq![RangingRole::Initiator.code()]);
            let ranged = self.line.write_cmd(Commands::SetRangingRole.to_byte(), &role);
            proof {
                lemma_step(h0, h3, self@.history, modem + base + buffer, ranging, full);
            }
            ranged?;
        } else {
            proof {
                lemma_start(h3);
                lemma_step(h0, h3, h3, modem + base + buffer, ranging, full);
            }
        }

        let timeout = encode_timeout(&self.config.rf_timeout);
        let ghost h4 = self@.history;
        let armed = self.set_irq_mask(Irq::from_bits(Irq::TRANSMIT));
        proof {
            lemma_step(h0, h4, self@.history, modem + base + buffer + ranging, irq, full);
        }
        armed?;

        let ghost h5 = self@.history;
        let entered = self.line.write_cmd(Commands::SetTx.to_byte(), &timeout);
        proof {
            lemma_step(
                h0,
                h5,
                self@.history,
                modem + base + buffer + ranging + irq,
                tx,
                full,
            );
        }
        entered?;

        let ghost h6 = self@.history;
        let state = self.get_state();
        proof {
            lemma_step(
                h0,
                h6,
                self@.history,
                modem + base + buffer + ranging + irq + tx,
                status,
                full,
            );
        }
        state?;
        Ok(())
    }

    /// Starts a reception, with the framing that the driver holds.
    pub fn start_receive(&mut self) -> (r: Result<(), Error<CommsError, PinError>>)
        ensures
            final(self)@.config == old(self)@.config,
            ran(
                old(self)@.history,
                final(self)@.history,
                receive_script(old(self)@.packet_type, old(self)@.config),
                settled(since(old(self)@.history, final(self)@.history)),
                r,
            ),
            final(self)@.packet_type == switched(
                old(self)@.packet_type,
                old(self)@.config.modem.packet_type(),
                since(old(self)@.history, final(self)@.history),
                1,
            ),
    {
        proof {
            reveal(follows);
            lemma_receive_parts(old(self)@.packet_type, old(self)@.config);
            lemma_scripts_start_plain(
                old(self)@.packet_type,
                old(self)@.config,
                old(self)@.config.channel,
                old(self)@.config.modem,
                Seq::empty(),
            );
        }
        let ghost h0 = self@.history;
        let ghost full = receive_script(old(self)@.packet_type, old(self)@.config);
        let ghost base = seq![buffer_base_request(0, 0)];
        let ghost modem = modem_script(old(self)@.packet_type, old(self)@.config.modem);
        let ghost ranging = ranging_script(
            old(self)@.config.modem.packet_type(),
            RangingRole::Responder,
        );
        let ghost irq = seq![irq_mask_request(Irq { bits: Irq::RECEIVE })];
        let ghost rx = seq![
            Step::Ask(
                Request::WriteCmd(
                    Commands::SetRx.code(),
                    timeout_bytes(old(self)@.config.rf_timeout),
                ),
            ),
        ];
        let ghost status = seq![status_request()];

        let based = self.set_buff_base_addr(0, 0);
        proof {
            lemma_start(h0);
            lemma_step(h0, h0, self@.history, Seq::empty(), base, full);
        }
        based?;

        let ghost h1 = self@.history;
        let modem_config = self.config.modem;
        let framed = self.configure_modem(&modem_config);
        proof {
            lemma_step(h0, h1, self@.history, base, modem, full);
        }
        framed?;

        let ghost h2 = self@.history;
        if self.packet_type == PacketType::Ranging {
            let role: [u8; 1] = [RangingRole::Responder.to_byte()];
            assert(role@ =~= seq![RangingRole::Responder.code()]);
            let ranged = self.line.write_cmd(Commands::SetRangingRole.to_byte(), &role);
            proof {
                lemma_step(h0, h2, self@.history, base + modem, ranging, full);
            }
            ranged?;
        } else {
            proof {
                lemma_start(h2);
                lemma_step(h0, h2, h2, base + modem, ranging, full);
            }
        }

        let timeout = encode_timeout(&self.config.rf_timeout);
        let ghost h3 = self@.history;
        let armed = self.set_irq_mask(Irq::from_bits(Irq::RECEIVE));
        proof {
            lemma_step(h0, h3, self@.history, base + modem + ranging, irq, full);
        }
        armed?;

        let ghost h4 = self@.history;
        let entered = self.line.write_cmd(Commands::SetRx.to_byte(), &timeout);
        proof {
            lemma_step(h0, h4, self@.history, base + modem + ranging + irq, rx, full);
        }
        entered?;

        let ghost h5 = self@.history;
        let state = self.get_state();
        proof {
            lemma_step(h0, h5, self@.history, base + modem + ranging + irq + rx, status, full);
        }
        state?;
        Ok(())
    }

    /// Checks whether a transmission has completed: `true` once it has,
    /// `false` while it is under way, and `Timeout` where it timed out.
    pub fn check_transmit(&mut self) -> (r: Result<bool, Error<CommsError, PinError>>)
        ensures
            final(self)@.config == old(self)@.config,
            final(self)@.packet_type == old(self)@.packet_type,
            ran(
                old(self)@.history,
                final(self)@.history,
                check_transmit_script(since(old(self)@.history, final(self)@.history)),
                check_transmit_verdict(since(old(self)@.history, final(self)@.history)),
                r,
            ),
    {
        let ghost h0 = self@.history;
        let ghost status = seq![status_request()];
        let flags = self.get_interrupts(true);
        let ghost h1 = self@.history;
        let ghost read = interrupts_script(true, since(h0, h1));
        proof {
            lemma_start(h0);
            lemma_step(h0, h0, h1, Seq::empty(), read, check_transmit_script(since(h0, h1)));
        }
        let irq = flags?;
        let state = self.get_state();
        proof {
            let h2 = self@.history;
            assert(h1.is_prefix_of(h2));
            assert(since(h0, h2)[0] == since(h0, h1)[0]);
            lemma_step(h0, h1, h2, read, status, check_transmit_script(since(h0, h2)));
        }
        state?;
        check_transmit_flags(irq)
    }

    /// Checks whether a packet was received: `true` once one was, `false`
    /// while none was. Where the chip reports a CRC error or a timeout, the
    /// error is returned, unless `restart` is set: the reception is then
    /// started again and `false` returned.
    pub fn check_receive(&mut self, restart: bool) -> (r: Result<
        bool,
        Error<CommsError, PinError>,
    >)
        ensures
            final(self)@.config == old(self)@.config,
            ran(
                old(self)@.history,
                final(self)@.history,
                check_receive_script(
                    restart,
                    old(self)@.packet_type,
                    old(self)@.config,
                    since(old(self)@.history, final(self)@.history),
                ),
                check_receive_verdict(restart, since(old(self)@.history, final(self)@.history)),
                r,
            ),
            final(self)@.packet_type == switched(
                old(self)@.packet_type,
                old(self)@.config.modem.packet_type(),
                since(old(self)@.history, final(self)@.history),
                interrupts_script(true, since(old(self)@.history, final(self)@.history)).len()
                    + 1int,
            ),
    {
        proof {
            lemma_scripts_start_plain(
                old(self)@.packet_type,
                old(self)@.config,
                old(self)@.config.channel,
                old(self)@.config.modem,
                Seq::empty(),
            );
        }
        let ghost h0 = self@.history;
        let ghost again = receive_script(old(self)@.packet_type, old(self)@.config);
        let flags = self.get_interrupts(true);
        let ghost h1 = self@.history;
        let ghost read = interrupts_script(true, since(h0, h1));
        proof {
            lemma_start(h0);
            lemma_step(
                h0,
                h0,
                h1,
                Seq::empty(),
                read,
                check_receive_script(
                    restart,
                    old(self)@.packet_type,
                    old(self)@.config,
                    since(h0, h1),
                ),
            );
        }
        let irq = flags?;
        let res = check_receive_flags(irq);
        if restart && res.is_err() {
            let started = self.start_receive();
            proof {
                let h2 = self@.history;
                assert(h1.is_prefix_of(h2));
                assert(since(h0, h2)[0] == since(h0, h1)[0]);
                lemma_receive_parts(old(self)@.packet_type, old(self)@.config);
                lemma_step(
                    h0,
                    h1,
                    h2,
                    read,
                    again,
                    check_receive_script(
                        restart,
                        old(self)@.packet_type,
                        old(self)@.config,
                        since(h0, h2),
                    ),
                );
                assert(since(h1, h2).len() > 0);
                assert(since(h0, h2).last() == since(h1, h2).last());
            }
            started?;
            Ok(false)
        } else {
            res
        }
    }

    /// Fetches the packet of `len` bytes that lies at `offset` in the data
    /// buffer into the front of `data`, and what the chip reports of it into
    /// `info`. Offset and length are those that `get_rx_buffer_status` gave;
    /// `data` has to hold the packet. What lies behind the packet in `data`
    /// stays as it is.
    pub fn fetch_received(
        &mut self,
        offset: u8,
        len: usize,
        info: &mut PacketInfo,
        data: &mut [u8],
    ) -> (r: Result<usize, Error<CommsError, PinError>>)
        requires
            old(self)@.packet_type != PacketType::Unselected,
            len <= old(data)@.len(),
        ensures
            final(self)@.config == old(self)@.config,
            final(self)@.packet_type == old(self)@.packet_type,
            ran(
                old(self)@.history,
                final(self)@.history,
                fetch_script(offset, len as nat),
                Ok(len),
                r,
            ),
            final(data)@.len() == old(data)@.len(),
            final(data)@.skip(len as int) == old(data)@.skip(len as int),
            r is Ok ==> final(data)@.take(len as int) == answer(
                since(old(self)@.history, final(self)@.history),
                0,
            ),
            *final(info) == (if r is Ok {
                packet_info(
                    old(self)@.packet_type,
                    answer(since(old(self)@.history, final(self)@.history), 1),
                )
            } else {
                *old(info)
            }),
    {
        proof {
            reveal(follows);
        }
        let ghost h0 = self@.history;
        let ghost before = data@;
        let (head, _tail) = data.split_at_mut(len);
        let fetched = self.line.read_buff(offset, head);
        proof {
            assert(data@.skip(len as int) =~= before.skip(len as int));
            assert(data@.take(len as int) =~= head@);
        }
        fetched?;
        let ghost h1 = self@.history;
        let described = self.get_packet_info(info);
        proof {
            lemma_start(h0);
            lemma_step(
                h0,
                h0,
                h1,
                Seq::empty(),
                seq![Step::Ask(Request::ReadBuff(offset, len as nat))],
                fetch_script(offset, len as nat),
            );
            lemma_step(
                h0,
                h1,
                self@.history,
                Seq::empty() + seq![Step::Ask(Request::ReadBuff(offset, len as nat))],
                seq![packet_status_request()],
                fetch_script(offset, len as nat),
            );
        }
        described?;
        Ok(len)
    }

    /// Fetches the received packet into the front of `data` and what the
    /// chip reports of it into `info`, and returns the length of the packet:
    /// where the packet lies is read, and then the packet is fetched. `data`
    /// has to hold the longest packet that the packet family has; with a
    /// shorter buffer, read where the packet lies with `get_rx_buffer_status`
    /// and fetch it with `fetch_received` where it fits.
    pub fn get_received(&mut self, info: &mut PacketInfo, data: &mut [u8]) -> (r: Result<
        usize,
        Error<CommsError, PinError>,
    >)
        requires
            old(self)@.packet_type != PacketType::Unselected,
            old(data)@.len() >= longest_packet(old(self)@.config.modem),
        ensures
            final(self)@.config == old(self)@.config,
            final(self)@.packet_type == old(self)@.packet_type,
            ran(
                old(self)@.history,
                final(self)@.history,
                received_script(
                    old(self)@.config.modem,
                    since(old(self)@.history, final(self)@.history),
                ),
                Ok(
                    received_len(
                        old(self)@.config.modem,
                        since(old(self)@.history, final(self)@.history),
                    ) as usize,
                ),
                r,
            ),
            final(data)@.len() == old(data)@.len(),
            r matches Ok(n) ==> {
                &&& final(data)@.take(n as int) == answer(
                    since(old(self)@.history, final(self)@.history),
                    buffer_status_script(old(self)@.config.modem).len() as int,
                )
                &&& final(data)@.skip(n as int) == old(data)@.skip(n as int)
            },
            since(old(self)@.history, final(self)@.history).len() <= buffer_status_script(
                old(self)@.config.modem,
            ).len() ==> final(data)@ == old(data)@,
            *final(info) == (if r is Ok {
                packet_info(
                    old(self)@.packet_type,
                    answer(
                        since(old(self)@.history, final(self)@.history),
                        since(old(self)@.history, final(self)@.history).len() - 1,
                    ),
                )
            } else {
                *old(info)
            }),
    {
        let ghost h0 = self@.history;
        let ghost modem = old(self)@.config.modem;
        let ghost locate = buffer_status_script(modem);
        let found = self.get_rx_buffer_status();
        let ghost h1 = self@.history;
        proof {
            lemma_start(h0);
            lemma_step(h0, h0, h1, Seq::empty(), locate, received_script(modem, since(h0, h1)));
        }
        let (offset, len) = found?;
        let fetched = self.fetch_received(offset, len, info, data);
        proof {
            let h2 = self@.history;
            assert(h1.is_prefix_of(h2));
            assert(since(h0, h2) =~= since(h0, h1) + since(h1, h2));
            lemma_step(
                h0,
                h1,
                h2,
                locate,
                fetch_script(offset, len as nat),
                received_script(modem, since(h0, h2)),
            );
        }
        fetched
    }

    /// Takes the chip into service: it is reset, its firmware version is
    /// read and checked, it is configured and put in standby. Returns the
    /// firmware version found, which is another than the driver knows where
    /// the configuration has the check skipped.
    pub fn startup(&mut self, config: &Config) -> (r: Result<u16, Error<CommsError, PinError>>)
        ensures
            ran(
                old(self)@.history,
                final(self)@.history,
                startup_script(
                    old(self)@.packet_type,
                    *config,
                    since(old(self)@.history, final(self)@.history),
                ),
                startup_verdict(*config, since(old(self)@.history, final(self)@.history)),
                r,
            ),
            r is Ok ==> {
                &&& final(self)@.packet_type == config.channel.packet_type()
                &&& final(self)@.config == Config {
                    pa_config: PaConfig {
                        power: clamp_power(config.pa_config.power),
                        ramp_time: config.pa_config.ramp_time,
                    },
                    ..*config
                }
            },
            r matches Ok(version) ==> version == FIRMWARE_VERSION || config.skip_version_check,
            final(self)@.config == startup_config(
                old(self)@.config,
                old(self)@.packet_type,
                *config,
                since(old(self)@.history, final(self)@.history),
            ),
            final(self)@.packet_type == startup_packet_type(
                old(self)@.packet_type,
                *config,
                since(old(self)@.history, final(self)@.history),
            ),
    {
        proof {
            lemma_scripts_start_plain(
                old(self)@.packet_type,
                *config,
                config.channel,
                config.modem,
                Seq::empty(),
            );
            lemma_configure_parts(old(self)@.packet_type, *config);
        }
        let ghost h0 = self@.history;
        let ghost pt = old(self)@.packet_type;
        let ghost reset = seq![Step::Ask(Request::Reset)];
        let ghost version = seq![firmware_version_request()];
        let ghost setup = configure_script(pt, *config);
        let ghost standby = seq![state_request(State::StandbyRc)];

        let cleared = self.reset();
        proof {
            let h = self@.history;
            lemma_start(h0);
            lemma_step(h0, h0, h, Seq::empty(), reset, startup_script(pt, *config, since(h0, h)));
        }
        cleared?;

        let ghost h1 = self@.history;
        let read = self.firmware_version();
        let ghost h2 = self@.history;
        proof {
            lemma_step(h0, h1, h2, reset, version, startup_script(pt, *config, since(h0, h2)));
        }
        let firmware_version = read?;
        check_firmware_version(firmware_version, config.skip_version_check)?;

        let configured = self.configure(config);
        let ghost h3 = self@.history;
        proof {
            assert(since(h0, h3)[1] == since(h0, h2)[1]);
            lemma_step(
                h0,
                h2,
                h3,
                reset + version,
                setup,
                startup_script(pt, *config, since(h0, h3)),
            );
            assert(since(h0, h3).skip(2) =~= since(h2, h3));
        }
        configured?;

        let idle = self.set_state(State::StandbyRc);
        proof {
            let h4 = self@.history;
            assert(h3.is_prefix_of(h4));
            assert(since(h0, h4)[1] == since(h0, h2)[1]);
            lemma_step(
                h0,
                h3,
                h4,
                reset + version + setup,
                standby,
                startup_script(pt, *config, since(h0, h4)),
            );
            // The configuration went through: what follows it changes nothing
            // of what the driver holds.
            lemma_start(h2);
            lemma_step(h2, h2, h3, Seq::empty(), setup, setup + standby);
            lemma_step(h2, h3, h4, Seq::empty() + setup, standby, setup + standby);
            assert(since(h0, h4).skip(2) =~= since(h2, h4));
            assert(setup.len() >= 6) by {
                reveal(channel_script);
                reveal(modem_script);
            }
        }
        idle?;
        Ok(firmware_version)
    }

    /// Makes a driver over `hal` and takes the chip into service with
    /// `config`, as `build` and `startup` do one after the other. Where that
    /// fails the bus is given up with the driver, and the error is what the
    /// conversation with the chip came to: that of the bus where it failed,
    /// `NoComms` or `InvalidDevice` for a firmware version that does not
    /// pass, or that of the configuration. A caller who wants to keep the
    /// bus, or to know what went over it, calls `build` and `startup`.
    pub fn new(hal: Base, config: &Config) -> (r: Result<Self, Error<CommsError, PinError>>)
        ensures
            r matches Ok(radio) ==> {
                &&& started(Seq::empty(), radio@.history, *config)
                &&& radio@.packet_type == config.channel.packet_type()
                &&& radio@.config == Config {
                    pa_config: PaConfig {
                        power: clamp_power(config.pa_config.power),
                        ramp_time: config.pa_config.ramp_time,
                    },
                    ..*config
                }
            },
            r matches Err(e) ==> exists|said: Seq<Exchange<CommsError, PinError>>|
                (#[trigger] follows(said, startup_script(PacketType::Unselected, *config, said)))
                    && said.len() > 0 && Err::<u16, Error<CommsError, PinError>>(e) == outcome(
                    said,
                    startup_verdict(*config, said),
                ),
    {
        let mut sx128x = Self::build(hal);
        let taken = sx128x.startup(config);
        proof {
            let said = sx128x@.history;
            assert(since(Seq::empty(), said) =~= said);
            lemma_follows_len(said, startup_script(PacketType::Unselected, *config, said));
            assert(said.len() > 0) by {
                reveal(follows);
            }
        }
        match taken {
            Ok(_) => Ok(sx128x),
            Err(e) => Err(e),
        }
    }
}

} // verus!
