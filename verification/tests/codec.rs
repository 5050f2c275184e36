use radio_sx128x::codec::{
    check_firmware_version, check_receive_flags, check_transmit_flags, decode_packet_info,
    decode_rssi, decode_snr, decode_status, decode_word, encode_auto_tx, encode_frequency,
    encode_modulation_params, encode_packet_params, encode_power, encode_timeout, encode_word,
    frequency_to_steps, limit_power, reads_length_register, rx_length, sync_word_location,
};
use radio_sx128x::device::ble::{
    BleChannel, BleConfig, BleConnectionStates, BleCrcFields, BlePacketTypes,
};
use radio_sx128x::device::common::{
    GfskBleBitrateBandwidth, GfskBleModIndex, ModShaping, PacketLength, PreambleLength,
    SyncWordRxMatch, WhiteningModes,
};
use radio_sx128x::device::flags::{
    CalibrationParams, Irq, PacketInfo, PacketStatus, TxRxStatus,
};
use radio_sx128x::device::flrc::{
    FlrcBitrate, FlrcChannel, FlrcCodingRate, FlrcConfig, FlrcCrcModes, FlrcSyncWordLength,
};
use radio_sx128x::device::gfsk::{GfskChannel, GfskConfig, GfskCrcModes, GfskSyncWordLength};
use radio_sx128x::device::lora::{
    LoRa, LoRaBandwidth, LoRaChannel, LoRaCodingRate, LoRaConfig, LoRaCrc, LoRaHeader, LoRaIq,
    LoRaSpreadingFactor,
};
use radio_sx128x::device::{
    AutoTx, Channel, CommandStatus, Commands, Config, Modem, PacketType, RampTime, Registers,
    RegulatorMode, State, TickSize, Timeout,
};
use radio_sx128x::Error;

type E = Error<(), ()>;

#[test]
fn frequency_steps_are_rounded_down() {
    assert_eq!(frequency_to_steps(2_400_000_000), 12_098_953);
    assert_eq!(frequency_to_steps(2_440_000_000), 12_300_603);
    assert_eq!(frequency_to_steps(2_500_000_000), 12_603_076);
    // one Hz short of the next step, and the first Hz of it
    assert_eq!(frequency_to_steps(2_400_000_030), 12_098_953);
    assert_eq!(frequency_to_steps(2_400_000_031), 12_098_954);
    assert_eq!(frequency_to_steps(0), 0);
}

#[test]
fn frequency_steps_never_decrease() {
    let mut last = frequency_to_steps(2_400_000_000);
    let mut f: u32 = 2_400_000_000;
    while f <= 2_500_000_000 {
        let steps = frequency_to_steps(f);
        assert!(steps >= last);
        last = steps;
        f += 99_991;
    }
}

#[test]
fn frequency_steps_round_trip_within_one_step() {
    let mut f: u32 = 2_400_000_000;
    while f <= 2_500_000_000 {
        let steps = frequency_to_steps(f) as u64;
        let back = steps * 52_000_000 / 262_144;
        assert!(back <= f as u64);
        assert!(f as u64 - back <= 199);
        f += 77_773;
    }
    let steps = frequency_to_steps(2_400_000_000) as u64;
    assert_eq!(steps * 52_000_000 / 262_144, 2_399_999_832);
}

#[test]
fn frequency_goes_out_most_significant_byte_first() {
    assert_eq!(encode_frequency(12_098_953), [0xB8, 0x9D, 0x89]);
    assert_eq!(encode_frequency(12_603_076), [0xC0, 0x4E, 0xC4]);
    assert_eq!(encode_frequency(0x0100_0001), [0x00, 0x00, 0x01]);
}

#[test]
fn power_is_clamped_and_offset() {
    assert_eq!(encode_power(13, RampTime::Ramp20Us), (0x1f, 0xe0));
    assert_eq!(encode_power(-18, RampTime::Ramp02Us), (0, 0x00));
    assert_eq!(encode_power(0, RampTime::Ramp10Us), (18, 0x80));
    assert_eq!(encode_power(14, RampTime::Ramp04Us), (31, 0x20));
    assert_eq!(encode_power(127, RampTime::Ramp06Us), (31, 0x40));
    assert_eq!(encode_power(-19, RampTime::Ramp08Us), (0, 0x60));
    assert_eq!(encode_power(-128, RampTime::Ramp12Us), (0, 0xA0));
    assert_eq!(encode_power(10, RampTime::Ramp16Us), (28, 0xC0));
}

#[test]
fn encoded_power_less_the_offset_is_the_clamped_power() {
    let mut p: i8 = -128;
    loop {
        let (reg, _) = encode_power(p, RampTime::Ramp20Us);
        let clamped = limit_power(p);
        assert!((-18..=13).contains(&clamped));
        assert_eq!(reg as i16 - 18, clamped as i16);
        if (-18..=13).contains(&p) {
            assert_eq!(clamped, p);
        }
        if p == 127 {
            break;
        }
        p += 1;
    }
}

#[test]
fn rssi_is_minus_half_the_byte() {
    assert_eq!(decode_rssi(0), 0);
    assert_eq!(decode_rssi(200), -100);
    assert_eq!(decode_rssi(1), 0);
    assert_eq!(decode_rssi(3), -1);
    assert_eq!(decode_rssi(255), -127);
    for raw in 0..=255u8 {
        assert_eq!(decode_rssi(raw), -(raw as i16) / 2);
    }
}

#[test]
fn snr_is_a_signed_byte_in_quarters() {
    assert_eq!(decode_snr(10), 2);
    assert_eq!(decode_snr(250), -1);
    assert_eq!(decode_snr(0), 0);
    assert_eq!(decode_snr(127), 31);
    assert_eq!(decode_snr(128), -32);
    assert_eq!(decode_snr(255), 0);
    assert_eq!(decode_snr(252), -1);
    for raw in 0..=255u8 {
        let expected = if raw < 128 { raw as i16 / 4 } else { (raw as i16 - 256) / 4 };
        assert_eq!(decode_snr(raw), expected);
    }
}

#[test]
fn status_byte_decodes_to_a_state_or_an_invalid_response() {
    assert_eq!(decode_status::<(), ()>(0x00), Ok(State::Sleep));
    assert_eq!(decode_status::<(), ()>(0x44), Ok(State::StandbyRc));
    assert_eq!(decode_status::<(), ()>(0x64), Ok(State::StandbyXosc));
    assert_eq!(decode_status::<(), ()>(0x84), Ok(State::Fs));
    assert_eq!(decode_status::<(), ()>(0xA8), Ok(State::Rx));
    assert_eq!(decode_status::<(), ()>(0xD8), Ok(State::Tx));
    // circuit mode 1 and 7 are none
    assert_eq!(decode_status::<(), ()>(0x24), Err(E::InvalidResponse(0x24)));
    assert_eq!(decode_status::<(), ()>(0xE4), Err(E::InvalidResponse(0xE4)));
    // command status 7 is none
    assert_eq!(decode_status::<(), ()>(0x5C), Err(E::InvalidResponse(0x5C)));
    // the lowest two bits do not count
    assert_eq!(decode_status::<(), ()>(0x47), Ok(State::StandbyRc));
}

#[test]
fn states_and_command_states_are_read_from_their_codes() {
    assert_eq!(State::from_mode(0), Some(State::Sleep));
    assert_eq!(State::from_mode(1), None);
    assert_eq!(State::from_mode(2), Some(State::StandbyRc));
    assert_eq!(State::from_mode(6), Some(State::Tx));
    assert_eq!(State::from_mode(7), None);
    assert_eq!(CommandStatus::from_status(0), Some(CommandStatus::Reserved));
    assert_eq!(CommandStatus::from_status(1), Some(CommandStatus::Success));
    assert_eq!(CommandStatus::from_status(3), Some(CommandStatus::Timeout));
    assert_eq!(CommandStatus::from_status(6), Some(CommandStatus::TxDone));
    assert_eq!(CommandStatus::from_status(7), None);
    assert_eq!(State::Tx.to_command(), Commands::SetTx);
    assert_eq!(State::Rx.to_command(), Commands::SetRx);
    assert_eq!(State::Fs.to_command(), Commands::SetFs);
    assert_eq!(State::StandbyRc.to_command(), Commands::SetStandby);
    assert_eq!(State::StandbyXosc.to_command(), Commands::SetStandby);
    assert_eq!(State::Sleep.to_command(), Commands::SetSleep);
}

#[test]
fn firmware_version_is_checked() {
    assert_eq!(check_firmware_version::<(), ()>(0x0000, false), Err(E::NoComms));
    assert_eq!(check_firmware_version::<(), ()>(0xFFFF, false), Err(E::NoComms));
    assert_eq!(check_firmware_version::<(), ()>(0x0000, true), Err(E::NoComms));
    assert_eq!(check_firmware_version::<(), ()>(0xFFFF, true), Err(E::NoComms));
    assert_eq!(check_firmware_version::<(), ()>(0x1234, false), Err(E::InvalidDevice(0x1234)));
    assert_eq!(check_firmware_version::<(), ()>(0x1234, true), Ok(()));
    assert_eq!(check_firmware_version::<(), ()>(0xA9B5, false), Ok(()));
    assert_eq!(check_firmware_version::<(), ()>(0xA9B5, true), Ok(()));
}

#[test]
fn words_go_most_significant_byte_first() {
    assert_eq!(encode_word(0x4041), [0x40, 0x41]);
    assert_eq!(encode_word(0x00FF), [0x00, 0xFF]);
    assert_eq!(decode_word(&[0xA9, 0xB5]), 0xA9B5);
    assert_eq!(decode_word(&[0x00, 0x10]), 16);
    assert_eq!(decode_word(&[0xFF, 0xFF]), 0xFFFF);
}

#[test]
fn timeout_goes_out_as_tick_and_count() {
    assert_eq!(
        encode_timeout(&Timeout::Configurable { step: TickSize::TickSize1000us, count: 1000 }),
        [0x02, 0x03, 0xE8]
    );
    assert_eq!(encode_timeout(&Timeout::Single), [0x00, 0x00, 0x00]);
    assert_eq!(encode_timeout(&Timeout::Continuous), [0x00, 0xFF, 0xFF]);
    assert_eq!(
        encode_timeout(&Timeout::Configurable { step: TickSize::TickSize4000us, count: 0x1234 }),
        [0x03, 0x12, 0x34]
    );
    assert_eq!(
        encode_timeout(&Timeout::Configurable { step: TickSize::TickSize0062us, count: 1 }),
        [0x01, 0x00, 0x01]
    );
}

#[test]
fn auto_tx_delay_is_compensated() {
    assert_eq!(encode_auto_tx(AutoTx::Enabled(33)), [0x00, 0x00]);
    assert_eq!(encode_auto_tx(AutoTx::Enabled(133)), [0x00, 100]);
    assert_eq!(encode_auto_tx(AutoTx::Enabled(0xFFFF)), [0xFF, 0xDE]);
    assert_eq!(encode_auto_tx(AutoTx::Disabled), [0x00, 0x00]);
}

#[test]
fn sync_words_have_their_place_by_packet_type() {
    assert_eq!(sync_word_location(PacketType::Gfsk, 1), Some((0x09CE, 5)));
    assert_eq!(sync_word_location(PacketType::Gfsk, 2), Some((0x09D3, 5)));
    assert_eq!(sync_word_location(PacketType::Gfsk, 3), Some((0x09D8, 5)));
    assert_eq!(sync_word_location(PacketType::Flrc, 1), Some((0x09CF, 4)));
    assert_eq!(sync_word_location(PacketType::Flrc, 2), Some((0x09D4, 4)));
    assert_eq!(sync_word_location(PacketType::Flrc, 3), Some((0x09D9, 4)));
    assert_eq!(sync_word_location(PacketType::Ble, 1), Some((0x09CF, 4)));
    assert_eq!(sync_word_location(PacketType::Ble, 0), Some((0x09CF, 4)));
    assert_eq!(sync_word_location(PacketType::Ble, 200), Some((0x09CF, 4)));
    assert_eq!(sync_word_location(PacketType::Gfsk, 0), None);
    assert_eq!(sync_word_location(PacketType::Gfsk, 4), None);
    assert_eq!(sync_word_location(PacketType::Flrc, 0), None);
    assert_eq!(sync_word_location(PacketType::Flrc, 4), None);
    for index in 0..=255u8 {
        assert_eq!(sync_word_location(PacketType::LoRa, index), None);
        assert_eq!(sync_word_location(PacketType::Ranging, index), None);
        assert_eq!(sync_word_location(PacketType::Unselected, index), None);
    }
}

#[test]
fn lora_packet_params_are_laid_out() {
    let modem = Modem::LoRa(LoRaConfig {
        preamble_length: 12,
        header_type: LoRaHeader::Implicit,
        payload_length: 0x20,
        crc_mode: LoRaCrc::On,
        invert_iq: LoRaIq::Normal,
    });
    assert_eq!(encode_packet_params(&modem), [12, 0x80, 0x20, 0x20, 0x40, 0, 0]);
    let ranging = Modem::Ranging(LoRaConfig::default());
    assert_eq!(encode_packet_params(&ranging), [8, 0x00, 0x40, 0x20, 0x00, 0, 0]);
}

#[test]
fn gfsk_packet_params_are_laid_out() {
    let modem = Modem::Gfsk(GfskConfig {
        preamble_length: PreambleLength::PreambleLength16,
        sync_word_length: GfskSyncWordLength::GfskSyncWordLength3,
        sync_word_match: SyncWordRxMatch::SyncWord1or2,
        header_type: PacketLength::Variable,
        payload_length: 0x7F,
        crc_mode: GfskCrcModes::RadioCrc1Byte,
        whitening: WhiteningModes::Disabled,
    });
    assert_eq!(encode_packet_params(&modem), [0x30, 0x04, 0x30, 0x20, 0x7F, 0x10, 0x08]);
}

#[test]
fn flrc_packet_params_are_laid_out() {
    let modem = Modem::Flrc(FlrcConfig {
        preamble_length: PreambleLength::PreambleLength32,
        sync_word_length: FlrcSyncWordLength::Length4,
        sync_word_match: SyncWordRxMatch::SyncWord1,
        header_type: PacketLength::Fixed,
        payload_length: 10,
        crc_mode: FlrcCrcModes::Crc3Bytes,
        whitening: WhiteningModes::Disabled,
        sync_word_value: Some([1, 2, 3, 4]),
    });
    assert_eq!(encode_packet_params(&modem), [0x70, 0x04, 0x10, 0x00, 10, 0x20, 0x08]);
}

#[test]
fn ble_packet_params_are_laid_out() {
    let modem = Modem::Ble(BleConfig {
        connection_state: BleConnectionStates::PayloadLengthMax37Bytes,
        crc_field: BleCrcFields::Crc3Bytes,
        packet_type: BlePacketTypes::Prbs15,
        whitening: WhiteningModes::Enabled,
    });
    assert_eq!(encode_packet_params(&modem), [0x20, 0x10, 0x0C, 0x00, 0, 0, 0]);
}

#[test]
fn modulation_params_are_laid_out() {
    let lora = LoRaChannel {
        freq: 2_400_000_000,
        mode: LoRa {
            spreading_factor: LoRaSpreadingFactor::Sf12,
            bandwidth: LoRaBandwidth::Bw1600,
            coding_rate: LoRaCodingRate::CrLI_4_7,
        },
    };
    assert_eq!(encode_modulation_params(&Channel::LoRa(lora)), [0xC0, 0x0A, 0x07]);
    assert_eq!(encode_modulation_params(&Channel::Ranging(lora)), [0xC0, 0x0A, 0x07]);
    let gfsk = GfskChannel {
        freq: 2_400_000_000,
        br_bw: GfskBleBitrateBandwidth::BR_1_000_BW_1_2,
        mi: GfskBleModIndex::MOD_IND_1_00,
        ms: ModShaping::Bt1_0,
    };
    assert_eq!(encode_modulation_params(&Channel::Gfsk(gfsk)), [0x45, 3, 0x10]);
    let flrc = FlrcChannel {
        freq: 2_400_000_000,
        br_bw: FlrcBitrate::BR_0_650_BW_0_6,
        cr: FlrcCodingRate::Cr1_0,
        ms: ModShaping::Bt0_5,
    };
    assert_eq!(encode_modulation_params(&Channel::Flrc(flrc)), [0x86, 0x04, 0x20]);
    let ble = BleChannel {
        freq: 2_400_000_000,
        br_bw: GfskBleBitrateBandwidth::BR_0_125_BW_0_3,
        mi: GfskBleModIndex::MOD_IND_4_00,
        ms: ModShaping::BtOff,
    };
    assert_eq!(encode_modulation_params(&Channel::Ble(ble)), [0xEF, 15, 0x00]);
}

#[test]
fn lora_defaults() {
    let lora = LoRa::default();
    assert_eq!(lora.spreading_factor, LoRaSpreadingFactor::Sf7);
    assert_eq!(lora.bandwidth, LoRaBandwidth::Bw0400);
    assert_eq!(lora.coding_rate, LoRaCodingRate::Cr4_5);
}

#[test]
fn lora_codes() {
    assert_eq!(LoRaSpreadingFactor::Sf5.to_byte(), 0x50);
    assert_eq!(LoRaSpreadingFactor::Sf6.to_byte(), 0x60);
    assert_eq!(LoRaSpreadingFactor::Sf7.to_byte(), 0x70);
    assert_eq!(LoRaSpreadingFactor::Sf8.to_byte(), 0x80);
    assert_eq!(LoRaSpreadingFactor::Sf9.to_byte(), 0x90);
    assert_eq!(LoRaSpreadingFactor::Sf10.to_byte(), 0xA0);
    assert_eq!(LoRaSpreadingFactor::Sf11.to_byte(), 0xB0);
    assert_eq!(LoRaSpreadingFactor::Sf12.to_byte(), 0xC0);
    assert_eq!(LoRaBandwidth::Bw0200.to_byte(), 0x34);
    assert_eq!(LoRaBandwidth::Bw0400.to_byte(), 0x26);
    assert_eq!(LoRaBandwidth::Bw0800.to_byte(), 0x18);
    assert_eq!(LoRaBandwidth::Bw1600.to_byte(), 0x0A);
    assert_eq!(LoRaCodingRate::Cr4_5.to_byte(), 0x01);
    assert_eq!(LoRaCodingRate::Cr4_6.to_byte(), 0x02);
    assert_eq!(LoRaCodingRate::Cr4_7.to_byte(), 0x03);
    assert_eq!(LoRaCodingRate::Cr4_8.to_byte(), 0x04);
    assert_eq!(LoRaCodingRate::CrLI_4_5.to_byte(), 0x05);
    assert_eq!(LoRaCodingRate::CrLI_4_6.to_byte(), 0x06);
    assert_eq!(LoRaCodingRate::CrLI_4_7.to_byte(), 0x07);
    assert_eq!(LoRaCrc::On.to_byte(), 0x20);
    assert_eq!(LoRaCrc::Off.to_byte(), 0x00);
    assert_eq!(LoRaIq::Normal.to_byte(), 0x40);
    assert_eq!(LoRaIq::Inverted.to_byte(), 0x00);
    assert_eq!(LoRaHeader::Explicit.to_byte(), 0x00);
    assert_eq!(LoRaHeader::Implicit.to_byte(), 0x80);
}

#[test]
fn command_and_register_codes() {
    assert_eq!(Commands::GetStatus.to_byte(), 0xC0);
    assert_eq!(Commands::SetSleep.to_byte(), 0x84);
    assert_eq!(Commands::SetStandby.to_byte(), 0x80);
    assert_eq!(Commands::SetFs.to_byte(), 0xC1);
    assert_eq!(Commands::SetTx.to_byte(), 0x83);
    assert_eq!(Commands::SetRx.to_byte(), 0x82);
    assert_eq!(Commands::SetPacketType.to_byte(), 0x8A);
    assert_eq!(Commands::SetRfFrequency.to_byte(), 0x86);
    assert_eq!(Commands::SetTxParams.to_byte(), 0x8E);
    assert_eq!(Commands::SetBufferBaseAddress.to_byte(), 0x8F);
    assert_eq!(Commands::SetModulationParams.to_byte(), 0x8B);
    assert_eq!(Commands::SetPacketParams.to_byte(), 0x8C);
    assert_eq!(Commands::GetRxBufferStatus.to_byte(), 0x17);
    assert_eq!(Commands::GetPacketStatus.to_byte(), 0x1D);
    assert_eq!(Commands::GetRssiInst.to_byte(), 0x1F);
    assert_eq!(Commands::SetDioIrqParams.to_byte(), 0x8D);
    assert_eq!(Commands::GetIrqStatus.to_byte(), 0x15);
    assert_eq!(Commands::ClearIrqStatus.to_byte(), 0x97);
    assert_eq!(Commands::Calibrate.to_byte(), 0x89);
    assert_eq!(Commands::SetRegulatorMode.to_byte(), 0x96);
    assert_eq!(Commands::SetAutoTx.to_byte(), 0x98);
    assert_eq!(Commands::SetRangingRole.to_byte(), 0xA3);
    assert_eq!(Registers::LrFirmwareVersionMsb.addr(), 0x0153);
    assert_eq!(Registers::LrPayloadLength.addr(), 0x0901);
    assert_eq!(Registers::LrSyncWordBaseAddress1.addr(), 0x09CE);
    assert_eq!(Registers::LrSyncWordBaseAddress2.addr(), 0x09D3);
    assert_eq!(Registers::LrSyncWordBaseAddress3.addr(), 0x09D8);
    assert_eq!(Registers::LrSyncWordTolerance.addr(), 0x09CD);
    assert_eq!(PacketType::Gfsk.to_byte(), 0x00);
    assert_eq!(PacketType::LoRa.to_byte(), 0x01);
    assert_eq!(PacketType::Ranging.to_byte(), 0x02);
    assert_eq!(PacketType::Flrc.to_byte(), 0x03);
    assert_eq!(PacketType::Ble.to_byte(), 0x04);
    assert_eq!(PacketType::Unselected.to_byte(), 0x0F);
    assert_eq!(RegulatorMode::Ldo.to_byte(), 0x00);
    assert_eq!(RegulatorMode::Dcdc.to_byte(), 0x01);
}

#[test]
fn flags_are_told_apart() {
    let irq = Irq::from_bits(Irq::TX_DONE | Irq::CRC_ERROR);
    assert!(irq.contains(Irq::TX_DONE));
    assert!(irq.contains(Irq::CRC_ERROR));
    assert!(irq.contains(Irq::TX_DONE | Irq::CRC_ERROR));
    assert!(!irq.contains(Irq::RX_DONE));
    assert!(!irq.contains(Irq::TX_DONE | Irq::RX_DONE));
    assert!(!irq.is_empty());
    assert!(Irq::from_bits(0).is_empty());
    assert_eq!(irq.bits(), 0x0041);
    assert_eq!(Irq::TRANSMIT, Irq::TX_DONE | Irq::CRC_ERROR | Irq::RX_TX_TIMEOUT);
    assert_eq!(
        Irq::RECEIVE,
        Irq::RX_DONE
            | Irq::CRC_ERROR
            | Irq::RX_TX_TIMEOUT
            | Irq::SYNCWORD_VALID
            | Irq::SYNCWORD_ERROR
            | Irq::HEADER_VALID
            | Irq::HEADER_ERROR
            | Irq::PREAMBLE_DETECTED
    );
    assert_eq!(PacketStatus::from_bits_truncate(0xFF).bits(), 0x7F);
    assert!(PacketStatus::from_bits_truncate(0x10).contains(PacketStatus::CRC_ERROR));
    assert_eq!(TxRxStatus::from_bits_truncate(0xFF).bits(), 0x21);
    assert!(TxRxStatus::from_bits_truncate(0x01).contains(TxRxStatus::PACKET_SENT));
    assert_eq!(CalibrationParams::from_bits_truncate(0xFF).bits(), 0x3F);
    assert!(CalibrationParams::from_bits_truncate(0x04).contains(CalibrationParams::PLL));
}

#[test]
fn transmit_flags_are_decided() {
    assert_eq!(check_transmit_flags::<(), ()>(Irq::from_bits(Irq::TX_DONE)), Ok(true));
    assert_eq!(
        check_transmit_flags::<(), ()>(Irq::from_bits(Irq::RX_TX_TIMEOUT)),
        Err(E::Timeout)
    );
    assert_eq!(
        check_transmit_flags::<(), ()>(Irq::from_bits(Irq::TX_DONE | Irq::RX_TX_TIMEOUT)),
        Ok(true)
    );
    assert_eq!(check_transmit_flags::<(), ()>(Irq::from_bits(0)), Ok(false));
    assert_eq!(check_transmit_flags::<(), ()>(Irq::from_bits(Irq::RX_DONE)), Ok(false));
}

#[test]
fn receive_flags_are_decided_by_priority() {
    assert_eq!(check_receive_flags::<(), ()>(Irq::from_bits(Irq::RX_DONE)), Ok(true));
    assert_eq!(check_receive_flags::<(), ()>(Irq::from_bits(0)), Ok(false));
    assert_eq!(
        check_receive_flags::<(), ()>(Irq::from_bits(Irq::PREAMBLE_DETECTED)),
        Ok(false)
    );
    assert_eq!(
        check_receive_flags::<(), ()>(Irq::from_bits(Irq::CRC_ERROR)),
        Err(E::InvalidCrc)
    );
    assert_eq!(
        check_receive_flags::<(), ()>(Irq::from_bits(Irq::RX_TX_TIMEOUT)),
        Err(E::Timeout)
    );
    assert_eq!(
        check_receive_flags::<(), ()>(Irq::from_bits(Irq::CRC_ERROR | Irq::RX_TX_TIMEOUT)),
        Err(E::InvalidCrc)
    );
    assert_eq!(
        check_receive_flags::<(), ()>(Irq::from_bits(Irq::CRC_ERROR | Irq::RX_DONE)),
        Err(E::InvalidCrc)
    );
    assert_eq!(
        check_receive_flags::<(), ()>(Irq::from_bits(Irq::RX_TX_TIMEOUT | Irq::RX_DONE)),
        Err(E::Timeout)
    );
    assert_eq!(
        check_receive_flags::<(), ()>(Irq::from_bits(
            Irq::CRC_ERROR | Irq::RX_TX_TIMEOUT | Irq::RX_DONE
        )),
        Err(E::InvalidCrc)
    );
}

#[test]
fn received_length_depends_on_the_packet_family() {
    let ble = Modem::Ble(BleConfig::default());
    assert_eq!(rx_length(&ble, 10), 12);
    assert_eq!(rx_length(&ble, 0), 2);
    assert_eq!(rx_length(&ble, 255), 257);
    let gfsk = Modem::Gfsk(GfskConfig::default());
    assert_eq!(rx_length(&gfsk, 10), 10);
    let lora = Modem::LoRa(LoRaConfig::default());
    assert_eq!(rx_length(&lora, 255), 255);
    assert!(!reads_length_register(&lora));
    assert!(!reads_length_register(&ble));
    let implicit = Modem::LoRa(LoRaConfig {
        header_type: LoRaHeader::Implicit,
        ..LoRaConfig::default()
    });
    assert!(reads_length_register(&implicit));
    // ranging keeps to the length that the chip reports
    let ranging = Modem::Ranging(LoRaConfig {
        header_type: LoRaHeader::Implicit,
        ..LoRaConfig::default()
    });
    assert!(!reads_length_register(&ranging));
}

#[test]
fn packet_info_is_decoded_by_packet_family() {
    let data = [200u8, 250, 0xFF, 0xFF, 0xFF];
    let mut info = PacketInfo::default();
    decode_packet_info(PacketType::LoRa, &data, &mut info);
    assert_eq!(info.rssi, -100);
    assert_eq!(info.snr, Some(-1));
    assert_eq!(info.packet_status.bits(), 0x7F);
    assert_eq!(info.tx_rx_status.bits(), 0x21);
    assert_eq!(info.sync_addr_status, 7);

    let mut info = PacketInfo::default();
    decode_packet_info(PacketType::Ranging, &[0, 10, 0, 0, 0], &mut info);
    assert_eq!(info.rssi, 0);
    assert_eq!(info.snr, Some(2));
    assert_eq!(info.sync_addr_status, 0);

    for packet_type in [PacketType::Gfsk, PacketType::Flrc, PacketType::Ble] {
        let mut info = PacketInfo::default();
        decode_packet_info(packet_type, &[200, 100, 0x12, 0x01, 0x0A], &mut info);
        assert_eq!(info.rssi, -50);
        assert_eq!(info.snr, None);
        assert_eq!(info.packet_status.bits(), 0x12);
        assert_eq!(info.tx_rx_status.bits(), 0x01);
        assert_eq!(info.sync_addr_status, 2);
    }
}

#[test]
fn packet_info_drops_an_earlier_snr_where_none_is_reported() {
    let mut info = PacketInfo::default();
    decode_packet_info(PacketType::LoRa, &[0, 10, 0, 0, 0], &mut info);
    assert_eq!(info.snr, Some(2));
    for packet_type in [PacketType::Gfsk, PacketType::Flrc, PacketType::Ble] {
        let mut stale = info;
        decode_packet_info(packet_type, &[0, 10, 0, 0, 0], &mut stale);
        assert_eq!(stale.rssi, -5);
        assert_eq!(stale.snr, None);
    }
}

#[test]
fn configurations_know_their_packet_family() {
    let config = Config::default();
    assert!(config.check_families());
    assert_eq!(config.modem.get_packet_type(), PacketType::LoRa);
    assert_eq!(config.channel.get_packet_type(), PacketType::LoRa);
    assert_eq!(config.channel.frequency(), 2_400_000_000);

    let pairs = [
        (Modem::Gfsk(GfskConfig::default()), Channel::Gfsk(GfskChannel::default())),
        (Modem::LoRa(LoRaConfig::default()), Channel::LoRa(LoRaChannel::default())),
        (Modem::Flrc(FlrcConfig::default()), Channel::Flrc(FlrcChannel::default())),
        (Modem::Ble(BleConfig::default()), Channel::Ble(BleChannel::default())),
        (Modem::Ranging(LoRaConfig::default()), Channel::Ranging(LoRaChannel::default())),
    ];
    for (i, (modem, _)) in pairs.iter().enumerate() {
        for (j, (_, channel)) in pairs.iter().enumerate() {
            let config = Config { modem: *modem, channel: *channel, ..Config::default() };
            assert_eq!(config.check_families(), i == j);
        }
    }
}

#[test]
fn payload_length_is_set_where_the_framing_has_one() {
    let mut modem = Modem::LoRa(LoRaConfig::default());
    modem.set_payload_len(5);
    assert_eq!(modem, Modem::LoRa(LoRaConfig { payload_length: 5, ..LoRaConfig::default() }));
    let mut modem = Modem::Gfsk(GfskConfig::default());
    modem.set_payload_len(6);
    assert_eq!(modem, Modem::Gfsk(GfskConfig { payload_length: 6, ..GfskConfig::default() }));
    let mut modem = Modem::Flrc(FlrcConfig::default());
    modem.set_payload_len(7);
    assert_eq!(modem, Modem::Flrc(FlrcConfig { payload_length: 7, ..FlrcConfig::default() }));
    let mut modem = Modem::Ranging(LoRaConfig::default());
    modem.set_payload_len(8);
    assert_eq!(
        modem,
        Modem::Ranging(LoRaConfig { payload_length: 8, ..LoRaConfig::default() })
    );
    let mut modem = Modem::Ble(BleConfig::default());
    modem.set_payload_len(9);
    assert_eq!(modem, Modem::Ble(BleConfig::default()));
}

#[test]
fn timeouts_have_a_tick_and_a_count() {
    assert_eq!(Timeout::Single.step(), TickSize::TickSize0015us);
    assert_eq!(Timeout::Single.count(), 0);
    assert_eq!(Timeout::Continuous.step(), TickSize::TickSize0015us);
    assert_eq!(Timeout::Continuous.count(), 0xFFFF);
    let t = Timeout::Configurable { step: TickSize::TickSize4000us, count: 7 };
    assert_eq!(t.step(), TickSize::TickSize4000us);
    assert_eq!(t.count(), 7);
}
