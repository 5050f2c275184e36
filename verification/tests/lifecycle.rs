use radio_sx128x::device::ble::{BleChannel, BleConfig};
use radio_sx128x::device::flags::PacketInfo;
use radio_sx128x::device::flrc::{FlrcChannel, FlrcConfig};
use radio_sx128x::device::gfsk::{GfskChannel, GfskConfig};
use radio_sx128x::device::lora::{LoRaChannel, LoRaConfig, LoRaHeader};
use radio_sx128x::device::{Channel, Config, Modem, PacketType, TickSize, Timeout};
use radio_sx128x::mock::{Mock, Transaction};
use radio_sx128x::{Error, Sx128x};

type Radio = Sx128x<Mock<(), ()>, (), ()>;
type E = Error<(), ()>;

/// A driver taken into service with `config`, whose bus answers the reads
/// that follow with `answers`, and the number of exchanges that this took.
fn service(config: &Config, answers: Vec<Vec<u8>>) -> (Radio, usize) {
    let mut mock = Mock::new();
    mock.answer(vec![0xA9, 0xB5]);
    for answer in answers {
        mock.answer(answer);
    }
    let radio = Sx128x::new(mock, config).unwrap();
    let taken = radio.hal().log().len();
    (radio, taken)
}

/// As `service`, with the bus failing exchange `at` of those that follow.
fn service_failing(config: &Config, answers: Vec<Vec<u8>>, at: usize) -> (Radio, usize) {
    let (_, taken) = service(config, vec![]);
    let mut mock = Mock::new();
    mock.answer(vec![0xA9, 0xB5]);
    for answer in answers {
        mock.answer(answer);
    }
    mock.fail_at(taken + at);
    (Sx128x::new(mock, config).unwrap(), taken)
}

fn since(radio: &Radio, taken: usize) -> Vec<Transaction> {
    radio.hal().log()[taken..].iter().map(|record| record.transaction.clone()).collect()
}

fn lora() -> Config {
    Config {
        rf_timeout: Timeout::Configurable { step: TickSize::TickSize1000us, count: 1000 },
        ..Config::default()
    }
}

fn ranging() -> Config {
    Config {
        modem: Modem::Ranging(LoRaConfig::default()),
        channel: Channel::Ranging(LoRaChannel::default()),
        ..Config::default()
    }
}

fn gfsk() -> Config {
    Config {
        modem: Modem::Gfsk(GfskConfig::default()),
        channel: Channel::Gfsk(GfskChannel::default()),
        ..Config::default()
    }
}

fn ble() -> Config {
    Config {
        modem: Modem::Ble(BleConfig::default()),
        channel: Channel::Ble(BleChannel::default()),
        ..Config::default()
    }
}

fn implicit() -> Config {
    Config {
        modem: Modem::LoRa(LoRaConfig {
            header_type: LoRaHeader::Implicit,
            payload_length: 6,
            ..LoRaConfig::default()
        }),
        ..Config::default()
    }
}

fn receive_requests() -> Vec<Transaction> {
    vec![
        Transaction::WriteCmd(0x8F, vec![0, 0]),
        Transaction::WriteCmd(0x8C, vec![8, 0x00, 0x40, 0x20, 0x00, 0, 0]),
        Transaction::WriteCmd(0x8D, vec![0xC0, 0x7E]),
        Transaction::WriteCmd(0x82, vec![0x02, 0x03, 0xE8]),
        Transaction::ReadCmd(0xC0, 1),
    ]
}

#[test]
fn start_transmit_sends_the_data_with_its_length() {
    let (mut radio, taken) = service(&lora(), vec![vec![0xC4]]);
    assert_eq!(radio.start_transmit(&[0xDE, 0xAD, 0xBE, 0xEF, 0x01]), Ok(()));
    assert_eq!(
        since(&radio, taken),
        vec![
            Transaction::WriteCmd(0x8C, vec![8, 0x00, 5, 0x20, 0x00, 0, 0]),
            Transaction::WriteCmd(0x8F, vec![0, 0]),
            Transaction::WriteBuff(0, vec![0xDE, 0xAD, 0xBE, 0xEF, 0x01]),
            Transaction::WriteCmd(0x8D, vec![0x40, 0x41]),
            Transaction::WriteCmd(0x83, vec![0x02, 0x03, 0xE8]),
            Transaction::ReadCmd(0xC0, 1),
        ]
    );
    // the driver holds the framing as it was configured
    assert_eq!(*radio.config(), lora());
}

#[test]
fn start_transmit_takes_the_limits_of_the_length() {
    let (mut radio, taken) = service(&lora(), vec![]);
    assert_eq!(radio.start_transmit(&[]), Ok(()));
    assert_eq!(radio.start_transmit(&[0x55; 255]), Ok(()));
    let asked = since(&radio, taken);
    assert_eq!(asked[0], Transaction::WriteCmd(0x8C, vec![8, 0x00, 0, 0x20, 0x00, 0, 0]));
    assert_eq!(asked[2], Transaction::WriteBuff(0, vec![]));
    assert_eq!(asked[6], Transaction::WriteCmd(0x8C, vec![8, 0x00, 255, 0x20, 0x00, 0, 0]));
    assert_eq!(asked[8], Transaction::WriteBuff(0, vec![0x55; 255]));
}

#[test]
fn start_transmit_enters_a_ranging_exchange_as_initiator() {
    let (mut radio, taken) = service(&ranging(), vec![]);
    assert_eq!(radio.start_transmit(&[1, 2]), Ok(()));
    assert_eq!(
        since(&radio, taken),
        vec![
            Transaction::WriteCmd(0x8C, vec![8, 0x00, 2, 0x20, 0x00, 0, 0]),
            Transaction::WriteCmd(0x8F, vec![0, 0]),
            Transaction::WriteBuff(0, vec![1, 2]),
            Transaction::WriteCmd(0xA3, vec![0x01]),
            Transaction::WriteCmd(0x8D, vec![0x40, 0x41]),
            Transaction::WriteCmd(0x83, vec![0x02, 0x03, 0xE8]),
            Transaction::ReadCmd(0xC0, 1),
        ]
    );
}

#[test]
fn start_transmit_switches_the_packet_type_where_it_differs() {
    let mut radio: Radio = Sx128x::build(Mock::new());
    assert_eq!(radio.start_transmit(&[7]), Ok(()));
    let asked: Vec<Transaction> =
        radio.hal().log().iter().map(|record| record.transaction.clone()).collect();
    assert_eq!(asked[0], Transaction::WriteCmd(0x8A, vec![0x01]));
    assert_eq!(asked[1], Transaction::WriteCmd(0x8C, vec![8, 0x00, 1, 0x20, 0x00, 0, 0]));
    assert_eq!(asked.len(), 7);
    assert_eq!(radio.packet_type(), PacketType::LoRa);
}

#[test]
fn start_transmit_stops_where_the_bus_fails() {
    for at in 0..6 {
        let (mut radio, taken) = service_failing(&lora(), vec![], at);
        assert_eq!(radio.start_transmit(&[1]), Err(E::Aborted));
        assert_eq!(since(&radio, taken).len(), at + 1);
    }
}

#[test]
fn start_transmit_refuses_a_status_that_is_none() {
    let (mut radio, _) = service(&lora(), vec![vec![0xFC]]);
    assert_eq!(radio.start_transmit(&[1]), Err(E::InvalidResponse(0xFC)));
}

#[test]
fn check_transmit_reads_the_flags() {
    // done
    let (mut radio, taken) = service(&lora(), vec![vec![0x00, 0x01], vec![0x44]]);
    assert_eq!(radio.check_transmit(), Ok(true));
    assert_eq!(
        since(&radio, taken),
        vec![
            Transaction::ReadCmd(0x15, 2),
            Transaction::WriteCmd(0x97, vec![0x00, 0x01]),
            Transaction::ReadCmd(0xC0, 1),
        ]
    );
    // timed out
    let (mut radio, _) = service(&lora(), vec![vec![0x40, 0x00]]);
    assert_eq!(radio.check_transmit(), Err(E::Timeout));
    // done wins over a timeout
    let (mut radio, _) = service(&lora(), vec![vec![0x40, 0x01]]);
    assert_eq!(radio.check_transmit(), Ok(true));
    // under way: nothing to clear
    let (mut radio, taken) = service(&lora(), vec![vec![0x00, 0x00]]);
    assert_eq!(radio.check_transmit(), Ok(false));
    assert_eq!(
        since(&radio, taken),
        vec![Transaction::ReadCmd(0x15, 2), Transaction::ReadCmd(0xC0, 1)]
    );
    // a status that is none is an error, whatever the flags say
    let (mut radio, _) = service(&lora(), vec![vec![0x00, 0x01], vec![0x20]]);
    assert_eq!(radio.check_transmit(), Err(E::InvalidResponse(0x20)));
}

#[test]
fn start_receive_arms_the_chip() {
    let (mut radio, taken) = service(&lora(), vec![vec![0xA4]]);
    assert_eq!(radio.start_receive(), Ok(()));
    assert_eq!(since(&radio, taken), receive_requests());
}

#[test]
fn start_receive_enters_a_ranging_exchange_as_responder() {
    let (mut radio, taken) = service(&ranging(), vec![]);
    assert_eq!(radio.start_receive(), Ok(()));
    assert_eq!(
        since(&radio, taken),
        vec![
            Transaction::WriteCmd(0x8F, vec![0, 0]),
            Transaction::WriteCmd(0x8C, vec![8, 0x00, 0x40, 0x20, 0x00, 0, 0]),
            Transaction::WriteCmd(0xA3, vec![0x00]),
            Transaction::WriteCmd(0x8D, vec![0xC0, 0x7E]),
            Transaction::WriteCmd(0x82, vec![0x02, 0x03, 0xE8]),
            Transaction::ReadCmd(0xC0, 1),
        ]
    );
}

#[test]
fn start_receive_uses_the_timeout_that_was_configured() {
    let config = Config { rf_timeout: Timeout::Continuous, ..Config::default() };
    let (mut radio, taken) = service(&config, vec![]);
    assert_eq!(radio.start_receive(), Ok(()));
    assert_eq!(since(&radio, taken)[3], Transaction::WriteCmd(0x82, vec![0x00, 0xFF, 0xFF]));
    let config = Config { rf_timeout: Timeout::Single, ..Config::default() };
    let (mut radio, taken) = service(&config, vec![]);
    assert_eq!(radio.start_transmit(&[1]), Ok(()));
    assert_eq!(since(&radio, taken)[4], Transaction::WriteCmd(0x83, vec![0x00, 0x00, 0x00]));
}

#[test]
fn start_receive_sets_the_flrc_sync_word_again() {
    let config = Config {
        modem: Modem::Flrc(FlrcConfig {
            sync_word_value: Some([1, 2, 3, 4]),
            ..FlrcConfig::default()
        }),
        channel: Channel::Flrc(FlrcChannel::default()),
        ..Config::default()
    };
    let mut mock = Mock::<(), ()>::new();
    mock.answer(vec![0xA9, 0xB5]);
    mock.answer(vec![0x44]);
    mock.answer(vec![0x2F]);
    let mut radio = Sx128x::new(mock, &config).unwrap();
    let taken = radio.hal().log().len();
    assert_eq!(taken, 13);
    assert_eq!(
        radio.hal().log()[10].transaction,
        Transaction::WriteRegs(0x09CD, vec![0x40])
    );
    assert_eq!(radio.start_receive(), Ok(()));
    assert_eq!(
        since(&radio, taken),
        vec![
            Transaction::WriteCmd(0x8F, vec![0, 0]),
            Transaction::WriteCmd(0x8C, vec![0x70, 0x04, 0x10, 0x20, 0x40, 0x10, 0x08]),
            Transaction::WriteRegs(0x09CF, vec![1, 2, 3, 4]),
            Transaction::ReadRegs(0x09CD, 1),
            Transaction::WriteRegs(0x09CD, vec![0x20]),
            Transaction::WriteCmd(0x8D, vec![0xC0, 0x7E]),
            Transaction::WriteCmd(0x82, vec![0x02, 0x03, 0xE8]),
            Transaction::ReadCmd(0xC0, 1),
        ]
    );
}

#[test]
fn check_receive_reports_a_crc_error() {
    let (mut radio, taken) = service(&lora(), vec![vec![0x00, 0x40]]);
    assert_eq!(radio.check_receive(false), Err(E::InvalidCrc));
    assert_eq!(
        since(&radio, taken),
        vec![Transaction::ReadCmd(0x15, 2), Transaction::WriteCmd(0x97, vec![0x00, 0x40])]
    );
}

#[test]
fn check_receive_restarts_after_a_crc_error() {
    let (mut radio, taken) = service(&lora(), vec![vec![0x00, 0x40]]);
    assert_eq!(radio.check_receive(true), Ok(false));
    let mut expected =
        vec![Transaction::ReadCmd(0x15, 2), Transaction::WriteCmd(0x97, vec![0x00, 0x40])];
    expected.extend(receive_requests());
    let asked = since(&radio, taken);
    assert_eq!(asked, expected);
    // the reception was started exactly once
    let entered =
        asked.iter().filter(|t| matches!(t, Transaction::WriteCmd(0x82, _))).count();
    assert_eq!(entered, 1);
}

#[test]
fn check_receive_restarts_after_a_timeout() {
    let (mut radio, taken) = service(&lora(), vec![vec![0x40, 0x00]]);
    assert_eq!(radio.check_receive(true), Ok(false));
    assert_eq!(since(&radio, taken).len(), 7);
    let (mut radio, taken) = service(&lora(), vec![vec![0x40, 0x00]]);
    assert_eq!(radio.check_receive(false), Err(E::Timeout));
    assert_eq!(since(&radio, taken).len(), 2);
}

#[test]
fn check_receive_decides_by_priority() {
    let verdict = |flags: [u8; 2]| {
        let (mut radio, _) = service(&lora(), vec![flags.to_vec()]);
        radio.check_receive(false)
    };
    assert_eq!(verdict([0x00, 0x02]), Ok(true));
    assert_eq!(verdict([0x00, 0x00]), Ok(false));
    assert_eq!(verdict([0x80, 0x3C]), Ok(false));
    assert_eq!(verdict([0x40, 0x42]), Err(E::InvalidCrc));
    assert_eq!(verdict([0x00, 0x42]), Err(E::InvalidCrc));
    assert_eq!(verdict([0x40, 0x02]), Err(E::Timeout));
}

#[test]
fn check_receive_does_not_restart_without_an_error() {
    let (mut radio, taken) = service(&lora(), vec![vec![0x00, 0x02]]);
    assert_eq!(radio.check_receive(true), Ok(true));
    assert_eq!(since(&radio, taken).len(), 2);
    let (mut radio, taken) = service(&lora(), vec![vec![0x00, 0x00]]);
    assert_eq!(radio.check_receive(true), Ok(false));
    assert_eq!(since(&radio, taken), vec![Transaction::ReadCmd(0x15, 2)]);
}

#[test]
fn check_receive_reports_a_restart_that_fails() {
    let (mut radio, _) = service_failing(&lora(), vec![vec![0x00, 0x40]], 4);
    assert_eq!(radio.check_receive(true), Err(E::Aborted));
    let (mut radio, _) = service(&lora(), vec![vec![0x00, 0x40], vec![0xE0]]);
    assert_eq!(radio.check_receive(true), Err(E::InvalidResponse(0xE0)));
}

#[test]
fn buffer_status_gives_offset_and_length() {
    let (mut radio, taken) = service(&lora(), vec![vec![17, 0x80]]);
    assert_eq!(radio.get_rx_buffer_status(), Ok((0x80, 17)));
    assert_eq!(since(&radio, taken), vec![Transaction::ReadCmd(0x17, 2)]);
    let (mut radio, _) = service(&gfsk(), vec![vec![255, 0]]);
    assert_eq!(radio.get_rx_buffer_status(), Ok((0, 255)));
}

#[test]
fn ble_buffer_status_adds_the_header() {
    let (mut radio, taken) = service(&ble(), vec![vec![10, 0x20]]);
    assert_eq!(radio.get_rx_buffer_status(), Ok((0x20, 12)));
    assert_eq!(since(&radio, taken), vec![Transaction::ReadCmd(0x17, 2)]);
    let (mut radio, _) = service(&ble(), vec![vec![0, 0]]);
    assert_eq!(radio.get_rx_buffer_status(), Ok((0, 2)));
    let (mut radio, _) = service(&ble(), vec![vec![255, 1]]);
    assert_eq!(radio.get_rx_buffer_status(), Ok((1, 257)));
}

#[test]
fn implicit_header_takes_the_length_from_the_register() {
    let (mut radio, taken) = service(&implicit(), vec![vec![99, 0x30], vec![6]]);
    assert_eq!(radio.get_rx_buffer_status(), Ok((0x30, 6)));
    assert_eq!(
        since(&radio, taken),
        vec![Transaction::ReadCmd(0x17, 2), Transaction::ReadRegs(0x0901, 1)]
    );
}

#[test]
fn packet_info_is_read_by_the_packet_type() {
    let (mut radio, taken) = service(&lora(), vec![vec![200, 250, 0x00, 0x01, 0x03]]);
    let mut info = PacketInfo::default();
    assert_eq!(radio.get_packet_info(&mut info), Ok(()));
    assert_eq!(info.rssi, -100);
    assert_eq!(info.snr, Some(-1));
    assert_eq!(info.tx_rx_status.bits(), 0x01);
    assert_eq!(info.sync_addr_status, 3);
    assert_eq!(since(&radio, taken), vec![Transaction::ReadCmd(0x1D, 5)]);

    let (mut radio, _) = service(&gfsk(), vec![vec![200, 250, 0x10, 0x00, 0x01]]);
    let mut info = PacketInfo::default();
    assert_eq!(radio.get_packet_info(&mut info), Ok(()));
    assert_eq!(info.rssi, -125);
    assert_eq!(info.snr, None);
    assert_eq!(info.packet_status.bits(), 0x10);
    assert_eq!(info.sync_addr_status, 1);
}

#[test]
fn packet_info_stays_where_the_bus_fails() {
    let (mut radio, _) = service_failing(&lora(), vec![], 0);
    let mut info = PacketInfo::default();
    assert_eq!(radio.get_packet_info(&mut info), Err(E::Aborted));
    assert_eq!(info, PacketInfo::default());
}

#[test]
fn get_received_fetches_the_packet() {
    let (mut radio, taken) = service(
        &lora(),
        vec![vec![4, 0x10], vec![0xCA, 0xFE, 0xF0, 0x0D], vec![20, 8, 0, 0, 0]],
    );
    let mut info = PacketInfo::default();
    let mut data = [0xEEu8; 255];
    assert_eq!(radio.get_received(&mut info, &mut data), Ok(4));
    assert_eq!(data[..4], [0xCA, 0xFE, 0xF0, 0x0D]);
    assert!(data[4..].iter().all(|b| *b == 0xEE));
    assert_eq!(info.rssi, -10);
    assert_eq!(info.snr, Some(2));
    assert_eq!(
        since(&radio, taken),
        vec![
            Transaction::ReadCmd(0x17, 2),
            Transaction::ReadBuff(0x10, 4),
            Transaction::ReadCmd(0x1D, 5),
        ]
    );
}

#[test]
fn get_received_adds_the_ble_header() {
    let (mut radio, taken) =
        service(&ble(), vec![vec![2, 0x00], vec![1, 2, 3, 4], vec![0, 100, 0, 0, 0]]);
    let mut info = PacketInfo::default();
    let mut data = [0u8; 257];
    assert_eq!(radio.get_received(&mut info, &mut data), Ok(4));
    assert_eq!(data[..4], [1, 2, 3, 4]);
    assert_eq!(info.rssi, -50);
    assert_eq!(since(&radio, taken)[1], Transaction::ReadBuff(0x00, 4));
}

#[test]
fn get_received_takes_the_implicit_length() {
    let (mut radio, taken) = service(
        &implicit(),
        vec![vec![200, 0x40], vec![6], vec![1, 2, 3, 4, 5, 6], vec![0, 0, 0, 0, 0]],
    );
    let mut info = PacketInfo::default();
    let mut data = [0u8; 255];
    assert_eq!(radio.get_received(&mut info, &mut data), Ok(6));
    assert_eq!(data[..6], [1, 2, 3, 4, 5, 6]);
    assert_eq!(
        since(&radio, taken),
        vec![
            Transaction::ReadCmd(0x17, 2),
            Transaction::ReadRegs(0x0901, 1),
            Transaction::ReadBuff(0x40, 6),
            Transaction::ReadCmd(0x1D, 5),
        ]
    );
}

#[test]
fn get_received_leaves_the_buffer_where_the_bus_fails_first() {
    let (mut radio, _) = service_failing(&lora(), vec![], 0);
    let mut info = PacketInfo::default();
    let mut data = [0xEEu8; 255];
    assert_eq!(radio.get_received(&mut info, &mut data), Err(E::Aborted));
    assert!(data.iter().all(|b| *b == 0xEE));
    assert_eq!(info, PacketInfo::default());

    // the packet is read, its status is not: the info stays
    let (mut radio, _) = service_failing(&lora(), vec![vec![2, 0], vec![9, 9]], 2);
    let mut data = [0xEEu8; 255];
    assert_eq!(radio.get_received(&mut info, &mut data), Err(E::Aborted));
    assert_eq!(data[..2], [9, 9]);
    assert_eq!(info, PacketInfo::default());
}

#[test]
fn fetch_received_takes_a_buffer_as_long_as_the_packet() {
    let (mut radio, taken) =
        service(&lora(), vec![vec![3, 0x08], vec![7, 8, 9], vec![40, 254, 0, 0, 0]]);
    let (offset, len) = radio.get_rx_buffer_status().unwrap();
    assert_eq!((offset, len), (0x08, 3));
    let mut info = PacketInfo::default();
    let mut data = [0xEEu8; 3];
    assert_eq!(radio.fetch_received(offset, len, &mut info, &mut data), Ok(3));
    assert_eq!(data, [7, 8, 9]);
    assert_eq!(info.rssi, -20);
    assert_eq!(info.snr, Some(0));
    assert_eq!(
        since(&radio, taken),
        vec![
            Transaction::ReadCmd(0x17, 2),
            Transaction::ReadBuff(0x08, 3),
            Transaction::ReadCmd(0x1D, 5),
        ]
    );
}

#[test]
fn fetch_received_leaves_what_lies_behind_the_packet() {
    let (mut radio, _) = service(&gfsk(), vec![vec![1, 2], vec![0, 60, 0, 0, 0]]);
    let mut info = PacketInfo::default();
    let mut data = [0xEEu8; 5];
    assert_eq!(radio.fetch_received(0x40, 2, &mut info, &mut data), Ok(2));
    assert_eq!(data, [1, 2, 0xEE, 0xEE, 0xEE]);
    assert_eq!(info.rssi, -30);

    // a packet of no bytes
    let (mut radio, taken) = service(&gfsk(), vec![vec![], vec![0, 0, 0, 0, 0]]);
    let mut data = [0xEEu8; 2];
    assert_eq!(radio.fetch_received(0, 0, &mut info, &mut data), Ok(0));
    assert_eq!(data, [0xEE, 0xEE]);
    assert_eq!(since(&radio, taken)[0], Transaction::ReadBuff(0, 0));
}

#[test]
fn fetch_received_leaves_the_info_where_the_bus_fails() {
    let (mut radio, _) = service_failing(&lora(), vec![vec![5, 6]], 1);
    let mut info = PacketInfo::default();
    let mut data = [0u8; 2];
    assert_eq!(radio.fetch_received(0, 2, &mut info, &mut data), Err(E::Aborted));
    assert_eq!(data, [5, 6]);
    assert_eq!(info, PacketInfo::default());
}

#[test]
fn packet_info_holds_no_snr_left_from_an_earlier_packet() {
    let mut info = PacketInfo::default();
    let (mut radio, _) = service(&lora(), vec![vec![20, 8, 0, 0, 0]]);
    assert_eq!(radio.get_packet_info(&mut info), Ok(()));
    assert_eq!(info.snr, Some(2));
    for config in [gfsk(), ble()] {
        let mut stale = info;
        let (mut radio, _) = service(&config, vec![vec![20, 8, 0, 0, 0]]);
        assert_eq!(radio.get_packet_info(&mut stale), Ok(()));
        assert_eq!(stale.rssi, -4);
        assert_eq!(stale.snr, None);
    }
    // and through a fetched packet
    let mut stale = info;
    let (mut radio, _) = service(&gfsk(), vec![vec![1, 0], vec![9], vec![20, 8, 0, 0, 0]]);
    let mut data = [0u8; 255];
    assert_eq!(radio.get_received(&mut stale, &mut data), Ok(1));
    assert_eq!(stale.snr, None);
}

#[test]
fn startup_hands_back_the_firmware_version() {
    let start = |version: [u8; 2], skip: bool| {
        let mut mock = Mock::<(), ()>::new();
        mock.answer(version.to_vec());
        let mut radio = Sx128x::build(mock);
        let config = Config { skip_version_check: skip, ..Config::default() };
        let r = radio.startup(&config);
        (r, radio.hal().log().len())
    };
    assert_eq!(start([0xA9, 0xB5], false), (Ok(0xA9B5), 10));
    assert_eq!(start([0x12, 0x34], true), (Ok(0x1234), 10));
    // a chip that is refused is reset and asked its version, and no more
    assert_eq!(start([0x12, 0x34], false), (Err(E::InvalidDevice(0x1234)), 2));
    assert_eq!(start([0x00, 0x00], true), (Err(E::NoComms), 2));
    assert_eq!(start([0xFF, 0xFF], false), (Err(E::NoComms), 2));
}

#[test]
fn startup_keeps_the_bus_where_it_fails() {
    let mut mock = Mock::<(), ()>::new();
    mock.answer(vec![0xA9, 0xB5]);
    mock.fail_at(4);
    let mut radio = Sx128x::build(mock);
    assert_eq!(radio.startup(&Config::default()), Err(E::Aborted));
    let asked: Vec<Transaction> =
        radio.hal().log().iter().map(|record| record.transaction.clone()).collect();
    assert_eq!(
        asked,
        vec![
            Transaction::Reset,
            Transaction::ReadRegs(0x0153, 2),
            Transaction::WriteCmd(0x80, vec![0x00]),
            Transaction::WriteCmd(0x96, vec![0x01]),
            Transaction::WriteCmd(0x86, vec![0xB8, 0x9D, 0x89]),
        ]
    );
    assert_eq!(radio.packet_type(), PacketType::Unselected);
}

#[test]
fn startup_leaves_what_the_driver_holds_where_the_chip_is_refused() {
    let config = Config {
        regulator_mode: radio_sx128x::device::RegulatorMode::Ldo,
        modem: Modem::Gfsk(GfskConfig::default()),
        channel: Channel::Gfsk(GfskChannel::default()),
        rf_timeout: Timeout::Continuous,
        ..Config::default()
    };
    for version in [[0x00u8, 0x00], [0xFF, 0xFF], [0x12, 0x34]] {
        let mut mock = Mock::<(), ()>::new();
        mock.answer(version.to_vec());
        let mut radio = Sx128x::build(mock);
        assert!(radio.startup(&config).is_err());
        assert_eq!(*radio.config(), Config::default());
        assert_eq!(radio.packet_type(), PacketType::Unselected);
    }
    // the bus fails the reset, or the read of the version
    for at in 0..2 {
        let mut mock = Mock::<(), ()>::new();
        mock.answer(vec![0xA9, 0xB5]);
        mock.fail_at(at);
        let mut radio = Sx128x::build(mock);
        assert_eq!(radio.startup(&config), Err(E::Aborted));
        assert_eq!(*radio.config(), Config::default());
        assert_eq!(radio.packet_type(), PacketType::Unselected);
    }
}

#[test]
fn startup_holds_what_was_written_before_the_bus_failed() {
    let config = Config {
        regulator_mode: radio_sx128x::device::RegulatorMode::Ldo,
        modem: Modem::Gfsk(GfskConfig::default()),
        channel: Channel::Gfsk(GfskChannel::default()),
        rf_timeout: Timeout::Continuous,
        ..Config::default()
    };
    let start = |at: usize| {
        let mut mock = Mock::<(), ()>::new();
        mock.answer(vec![0xA9, 0xB5]);
        mock.fail_at(at);
        let mut radio = Sx128x::build(mock);
        let r = radio.startup(&config);
        (r, *radio.config(), radio.packet_type())
    };
    let regulated = Config {
        regulator_mode: radio_sx128x::device::RegulatorMode::Ldo,
        ..Config::default()
    };
    // the regulator command fails
    assert_eq!(start(3), (Err(E::Aborted), Config::default(), PacketType::Unselected));
    // the frequency command fails
    assert_eq!(start(4), (Err(E::Aborted), regulated, PacketType::Unselected));
    // the modulation command fails, after the switch
    assert_eq!(start(6), (Err(E::Aborted), regulated, PacketType::Gfsk));
    // the closing standby fails: the configuration went through
    assert_eq!(start(9), (Err(E::Aborted), config, PacketType::Gfsk));
    assert_eq!(start(10), (Ok(0xA9B5), config, PacketType::Gfsk));
}
