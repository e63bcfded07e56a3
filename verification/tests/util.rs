use eruption::util::crc16_ccitt;

#[test]
fn crc16_aug_ccitt_check_value() {
    assert_eq!(crc16_ccitt(b"123456789"), 0xe5cc);
}

#[test]
fn crc16_aug_ccitt_of_nothing_is_the_initial_value() {
    assert_eq!(crc16_ccitt(&[]), 0x1d0f);
}

#[test]
fn crc16_aug_ccitt_single_byte() {
    assert_eq!(crc16_ccitt(b"A"), 0x9479);
}
