use air_monitor::crc8_compute;

#[test]
fn crc_of_empty_input_is_the_initial_value() {
    assert_eq!(crc8_compute(&[]), 0xff);
}

#[test]
fn crc_known_answer_for_default_pressure_argument() {
    // 1020 hPa, the fixed pressure-compensation constant, is 0x03FC big-endian.
    assert_eq!(crc8_compute(&[0x03, 0xfc]), 0x53);
}

#[test]
fn crc_known_answer_from_sensor_datasheet() {
    // The sensor's interface description gives 0x92 as the checksum of 0xBEEF.
    assert_eq!(crc8_compute(&[0xbe, 0xef]), 0x92);
}

#[test]
fn crc_matches_reference_implementation_on_all_two_byte_arguments() {
    let mut reference = crc_all::Crc::<u8>::new(0x31, 8, 0xff, 0x00, false);
    for hi in 0..=255u8 {
        for lo in 0..=255u8 {
            reference.init();
            let expected = reference.update(&[hi, lo]);
            assert_eq!(crc8_compute(&[hi, lo]), expected);
        }
    }
}

#[test]
fn crc_matches_reference_implementation_on_longer_inputs() {
    let mut reference = crc_all::Crc::<u8>::new(0x31, 8, 0xff, 0x00, false);
    let samples: [&[u8]; 4] = [&[0x00], &[0xff, 0x00, 0xff], &[1, 2, 3, 4, 5, 6, 7, 8], &[0xbe,
        0xef, 0xbe, 0xef]];
    for data in samples {
        reference.init();
        let expected = reference.update(data);
        assert_eq!(crc8_compute(data), expected);
    }
}
