use air_monitor::{
    decode_measurement, FirmwareVersion, SimBus, SimReply, TransportError, DEFAULT_ADDRESS, SCD30,
};

const MEASUREMENT_RESPONSE: [u8; 18] = [
    0x00, 0x00, 0x00, 0x00, 0x00, 0x00, 0x45, 0xa0, 0x00, 0x00, 0x00, 0x00, 0x42, 0xc8, 0x00,
    0x00, 0x00, 0x00,
];

#[test]
fn firmware_version_query_writes_opcode_and_reads_two_bytes() {
    let bus = SimBus::new(vec![SimReply::Bytes(vec![0x03, 0x42])]);
    let mut sensor = SCD30::new(bus);
    let version = sensor.get_firmware_version().unwrap();
    assert_eq!(version, FirmwareVersion::new(3, 66));
    let bus = sensor.bus();
    assert_eq!(bus.transaction_count(), 2);
    let (addr, is_write, bytes) = bus.recorded(0);
    assert_eq!(addr, DEFAULT_ADDRESS);
    assert!(is_write);
    assert_eq!(bytes, vec![0xd1, 0x00]);
}

#[test]
fn start_continuous_measurement_appends_checksum_over_argument() {
    let bus = SimBus::new(vec![]);
    let mut sensor = SCD30::new(bus);
    sensor.start_continuous_measurement(1020).unwrap();
    let (addr, is_write, frame) = sensor.bus().recorded(0);
    assert_eq!(addr, DEFAULT_ADDRESS);
    assert!(is_write);
    // Opcode 0x0010, argument 1020 = 0x03FC big-endian, CRC-8 over the argument.
    assert_eq!(frame, vec![0x00, 0x10, 0x03, 0xfc, 0x53]);
    // The appended byte is the reference CRC-8 (poly 0x31, init 0xFF) of the argument.
    let mut reference = crc_all::Crc::<u8>::new(0x31, 8, 0xff, 0x00, false);
    assert_eq!(frame[4], reference.update(&[0x03, 0xfc]));
}

#[test]
fn data_ready_reads_big_endian_flag() {
    let bus = SimBus::new(vec![
        SimReply::Bytes(vec![0x00, 0x01]),
        SimReply::Bytes(vec![0x00, 0x00]),
        SimReply::Bytes(vec![0x01, 0x00]),
    ]);
    let mut sensor = SCD30::new(bus);
    assert_eq!(sensor.data_ready().unwrap(), true);
    assert_eq!(sensor.data_ready().unwrap(), false);
    // 0x0100 is 256, not 1: anything but 1 means not ready.
    assert_eq!(sensor.data_ready().unwrap(), false);
    let (_, is_write, bytes) = sensor.bus().recorded(0);
    assert!(is_write);
    assert_eq!(bytes, vec![0x02, 0x02]);
}

#[test]
fn measurement_decode_gathers_non_contiguous_bytes() {
    let data = decode_measurement(&MEASUREMENT_RESPONSE);
    assert_eq!(data.co2_bits, 0x0000_0000);
    assert_eq!(f32::from_bits(data.co2_bits), 0.0);
    assert_eq!(data.temperature_bits, 0x45a0_0000);
    assert_eq!(f32::from_bits(data.temperature_bits), 5120.0);
    assert_eq!(data.humidity_bits, 0x42c8_0000);
    assert_eq!(f32::from_bits(data.humidity_bits), 100.0);
}

#[test]
fn read_measurement_returns_reading_when_ready() {
    let bus = SimBus::new(vec![
        SimReply::Bytes(vec![0x00, 0x01]),
        SimReply::Bytes(MEASUREMENT_RESPONSE.to_vec()),
    ]);
    let mut sensor = SCD30::new(bus);
    let reading = sensor.read_measurement().unwrap().unwrap();
    assert_eq!(reading.co2_bits, 0);
    assert_eq!(reading.temperature_bits, 0x45a0_0000);
    assert_eq!(reading.humidity_bits, 0x42c8_0000);
    // Ready poll (write + read) and read-out (write + read).
    assert_eq!(sensor.bus().transaction_count(), 4);
    let (_, is_write, bytes) = sensor.bus().recorded(2);
    assert!(is_write);
    assert_eq!(bytes, vec![0x03, 0x00]);
}

#[test]
fn read_measurement_stops_after_readiness_check_when_not_ready() {
    let bus = SimBus::new(vec![SimReply::Bytes(vec![0x00, 0x00])]);
    let mut sensor = SCD30::new(bus);
    assert_eq!(sensor.read_measurement().unwrap(), None);
    // Exactly the readiness check: its write and its read, nothing further.
    assert_eq!(sensor.bus().transaction_count(), 2);
}

#[test]
fn nack_propagates_from_the_transport() {
    let bus = SimBus::new(vec![SimReply::Fail(TransportError::Nack)]);
    let mut sensor = SCD30::new(bus);
    assert_eq!(sensor.get_firmware_version(), Err(TransportError::Nack));
}

#[test]
fn arbitration_loss_propagates_from_the_readout() {
    let bus = SimBus::new(vec![
        SimReply::Bytes(vec![0x00, 0x01]),
        SimReply::Fail(TransportError::ArbitrationLoss),
    ]);
    let mut sensor = SCD30::new(bus);
    assert_eq!(sensor.read_measurement(), Err(TransportError::ArbitrationLoss));
}

#[test]
fn exhausted_transport_times_out() {
    let bus = SimBus::new(vec![]);
    let mut sensor = SCD30::new(bus);
    assert_eq!(sensor.data_ready(), Err(TransportError::Timeout));
}
