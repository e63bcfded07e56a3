use eruption::hwdevices::{Capability, HwDeviceError, KeyboardHidEvent, KeyboardHidEventCode, LedKind};
use eruption::wooting_tables::{ev_key_index_iso, COLS_TOPOLOGY, ROWS_TOPOLOGY};
use eruption::wooting_two_he_arm::{
    bind_hiddev, find_device, keyboard_hid_event_code_from_report, DeviceInfo, HidDeviceEntry, KeyCoordinates,
    WootingTwoHeArm, COLOR_INIT_COMMAND, CTRL_INTERFACE, LED_INDICES, LED_INTERFACE, RESET_ALL_COMMAND,
};

fn ready_device() -> WootingTwoHeArm {
    let mut dev = WootingTwoHeArm::bind();
    assert_eq!(dev.open(true, true), Ok(()));
    assert!(dev.send_init_sequence().is_ok());
    dev
}

#[test]
fn report_codes_decode() {
    assert_eq!(keyboard_hid_event_code_from_report(0xfb, 16), KeyboardHidEventCode::KEY_F1);
    assert_eq!(keyboard_hid_event_code_from_report(0xfb, 33), KeyboardHidEventCode::KEY_F3);
    assert_eq!(keyboard_hid_event_code_from_report(0xfb, 32), KeyboardHidEventCode::KEY_F4);
    assert_eq!(keyboard_hid_event_code_from_report(0xfb, 57), KeyboardHidEventCode::KEY_F8);
    assert_eq!(keyboard_hid_event_code_from_report(0xfb, 17), KeyboardHidEventCode::KEY_ESC);
    assert_eq!(keyboard_hid_event_code_from_report(0xfb, 119), KeyboardHidEventCode::KEY_FN);
    assert_eq!(keyboard_hid_event_code_from_report(0x0a, 57), KeyboardHidEventCode::KEY_CAPS_LOCK);
    assert_eq!(keyboard_hid_event_code_from_report(0x0a, 255), KeyboardHidEventCode::KEY_EASY_SHIFT);
    assert_eq!(keyboard_hid_event_code_from_report(0x0a, 16), KeyboardHidEventCode::Unknown(16));
    assert_eq!(keyboard_hid_event_code_from_report(0x01, 16), KeyboardHidEventCode::Unknown(16));
}

#[test]
fn report_codes_round_trip() {
    let dev = WootingTwoHeArm::bind();
    for report in [0xfbu8, 0x0a, 0x00, 0x03] {
        for code in 0u8..=255 {
            let decoded = keyboard_hid_event_code_from_report(report, code);
            if report == 0x0a && code == 255 {
                assert_eq!(dev.hid_event_code_to_report(&decoded), 57);
            } else {
                assert_eq!(dev.hid_event_code_to_report(&decoded), code);
            }
        }
    }
}

#[test]
fn key_indices_of_codes() {
    let dev = WootingTwoHeArm::bind();
    assert_eq!(dev.hid_event_code_to_key_index(&KeyboardHidEventCode::KEY_FN), 65);
    assert_eq!(dev.hid_event_code_to_key_index(&KeyboardHidEventCode::KEY_CAPS_LOCK), 6);
    assert_eq!(dev.hid_event_code_to_key_index(&KeyboardHidEventCode::KEY_EASY_SHIFT), 6);
    assert_eq!(dev.hid_event_code_to_key_index(&KeyboardHidEventCode::KEY_F1), 0);
    assert_eq!(dev.hid_event_code_to_report(&KeyboardHidEventCode::KEY_F2), 24);
    assert_eq!(dev.hid_event_code_to_report(&KeyboardHidEventCode::Unknown(200)), 200);
}

#[test]
fn bind_gives_a_closed_device_at_full_brightness() {
    let dev = WootingTwoHeArm::bind();
    assert!(dev.is_bound);
    assert!(!dev.is_opened);
    assert_eq!(dev.is_initialized(), Ok(false));
    assert_eq!(dev.has_failed(), Ok(false));
    assert_eq!(dev.get_local_brightness(), Ok(100));
}

#[test]
fn requests_are_refused_in_order() {
    let unbound = WootingTwoHeArm {
        is_initialized: false,
        is_bound: false,
        is_opened: false,
        has_failed: false,
        brightness: 100,
    };
    assert_eq!(unbound.check_opened(), Err(HwDeviceError::DeviceNotBound));
    assert_eq!(unbound.check_ready(), Err(HwDeviceError::DeviceNotBound));
    let mut dev = WootingTwoHeArm::bind();
    assert_eq!(dev.check_opened(), Err(HwDeviceError::DeviceNotOpened));
    assert_eq!(dev.check_ready(), Err(HwDeviceError::DeviceNotOpened));
    assert_eq!(dev.close_all(), Err(HwDeviceError::DeviceNotOpened));
    assert_eq!(dev.send_ctrl_report(0x11), Err(HwDeviceError::DeviceNotOpened));
    assert_eq!(dev.open(true, true), Ok(()));
    assert_eq!(dev.check_opened(), Ok(()));
    assert_eq!(dev.send_ctrl_report(0x11), Ok(()));
    assert_eq!(dev.check_ready(), Err(HwDeviceError::DeviceNotInitialized));
    assert_eq!(dev.send_led_map(&[0u16; 127]), Err(HwDeviceError::DeviceNotInitialized));
}

#[test]
fn open_failures_change_nothing() {
    let mut dev = WootingTwoHeArm::bind();
    assert_eq!(dev.open(false, true), Err(HwDeviceError::DeviceOpenError));
    assert_eq!(dev.open(true, false), Err(HwDeviceError::DeviceOpenError));
    assert_eq!(dev, WootingTwoHeArm::bind());
    let mut unbound = WootingTwoHeArm { is_bound: false, ..WootingTwoHeArm::bind() };
    assert_eq!(unbound.open(true, true), Err(HwDeviceError::DeviceNotBound));
    assert!(!unbound.is_opened);
}

#[test]
fn close_undoes_open() {
    let mut dev = WootingTwoHeArm::bind();
    let before = dev;
    assert_eq!(dev.open(true, true), Ok(()));
    assert_eq!(dev.close_all(), Ok(()));
    assert_eq!(dev, before);
}

#[test]
fn init_sequence_sends_reset_then_color_init() {
    let mut dev = WootingTwoHeArm::bind();
    assert_eq!(dev.send_init_sequence(), Err(HwDeviceError::DeviceNotOpened));
    assert!(!dev.is_initialized);
    dev.open(true, true).unwrap();
    let reports = dev.send_init_sequence().unwrap();
    assert_eq!(reports.len(), 2);
    let mut expected = vec![0u8; 65];
    expected[1] = 0xd0;
    expected[2] = 0xda;
    expected[3] = RESET_ALL_COMMAND;
    assert_eq!(reports[0], expected);
    expected[3] = COLOR_INIT_COMMAND;
    assert_eq!(reports[1], expected);
    assert_eq!(dev.is_initialized(), Ok(true));
    assert_eq!(dev.check_ready(), Ok(()));
}

#[test]
fn feature_report_layout() {
    let report = WootingTwoHeArm::v2_feature_report(30, &[1, 2, 3, 4]);
    assert_eq!(report.len(), 65);
    assert_eq!(&report[..8], &[0x00, 0xd0, 0xda, 30, 4, 3, 2, 1]);
    assert!(report[8..].iter().all(|b| *b == 0));
}

#[test]
fn device_info_and_firmware_revision() {
    let dev = WootingTwoHeArm::bind();
    assert_eq!(dev.device_info_request(), Err(HwDeviceError::DeviceNotOpened));
    let dev = WootingTwoHeArm { is_opened: true, ..dev };
    assert_eq!(dev.device_info_request(), Ok(vec![0x0f, 0, 0, 0, 0, 0]));
    assert_eq!(WootingTwoHeArm::bind().get_device_info(Some(&[0x0f, 6, 112, 7, 8, 9])), Err(HwDeviceError::DeviceNotOpened));
    let unbound = WootingTwoHeArm { is_bound: false, ..dev };
    assert_eq!(unbound.get_device_info(None), Err(HwDeviceError::DeviceNotBound));
    assert_eq!(dev.get_device_info(None), Err(HwDeviceError::InvalidResult));
    let info = dev.get_device_info(Some(&[0x0f, 6, 112, 7, 8, 9])).unwrap();
    assert_eq!(info.firmware_version, 112);
    assert_eq!(info.size, 6);
    assert_eq!(info.reserved3, 9);
    assert_eq!(WootingTwoHeArm::get_firmware_revision(Ok(info)), "1.12");
    let info = DeviceInfo::from_bytes(&[0x0f, 6, 5, 0, 0, 0]);
    assert_eq!(WootingTwoHeArm::get_firmware_revision(Ok(info)), "0. 5");
    let info = DeviceInfo::from_bytes(&[0x0f, 6, 200, 0, 0, 0]);
    assert_eq!(WootingTwoHeArm::get_firmware_revision(Ok(info)), "2. 0");
    let info = DeviceInfo::from_bytes(&[0x0f, 6, 255, 0, 0, 0]);
    assert_eq!(WootingTwoHeArm::get_firmware_revision(Ok(info)), "2.55");
    assert_eq!(WootingTwoHeArm::get_firmware_revision(Err(HwDeviceError::InvalidResult)), "<unknown>");
}

#[test]
fn status_leds() {
    let dev = ready_device();
    assert_eq!(dev.set_status_led(LedKind::NumLock, true), Ok(Some(vec![0x21, 0, 0, 0, 0, 0, 0, 0])));
    assert_eq!(dev.set_status_led(LedKind::CapsLock, true), Ok(Some(vec![0x22, 0, 0, 0, 0, 0, 0, 0])));
    assert_eq!(dev.set_status_led(LedKind::ScrollLock, false), Ok(Some(vec![0x23, 0, 0, 0, 0, 0, 0, 0])));
    assert_eq!(dev.set_status_led(LedKind::GameMode, true), Ok(Some(vec![0x24, 0, 0, 0, 0, 0, 0, 0])));
    assert_eq!(dev.set_status_led(LedKind::AudioMute, true), Ok(None));
    assert_eq!(dev.set_status_led(LedKind::Unknown, true), Ok(None));
    let closed = WootingTwoHeArm::bind();
    assert_eq!(closed.set_status_led(LedKind::NumLock, true), Err(HwDeviceError::DeviceNotOpened));
    assert_eq!(closed.set_status_led(LedKind::Fx, true), Ok(None));
    assert_eq!(closed.set_status_led(LedKind::Volume, true), Ok(None));
}

#[test]
fn key_reports_parse() {
    let key_down = WootingTwoHeArm::parse_key_report(&[0x03, 0x00, 0xfb, 16, 0x01, 0, 0, 0]);
    assert_eq!(key_down, KeyboardHidEvent::KeyDown { code: KeyboardHidEventCode::KEY_F1 });
    let key_up = WootingTwoHeArm::parse_key_report(&[0x03, 0x00, 0xfb, 119, 0x00, 0, 0, 0]);
    assert_eq!(key_up, KeyboardHidEvent::KeyUp { code: KeyboardHidEventCode::KEY_FN });
    let other = WootingTwoHeArm::parse_key_report(&[0x03, 0x00, 0xfb, 0x6d, 0x00, 0, 0, 0]);
    assert_eq!(other, KeyboardHidEvent::KeyUp { code: KeyboardHidEventCode::Unknown(0x6d) });
    let bad_status = WootingTwoHeArm::parse_key_report(&[0x03, 0x00, 0xfb, 16, 0x02, 0, 0, 0]);
    assert_eq!(bad_status, KeyboardHidEvent::Unknown);
    let caps = WootingTwoHeArm::parse_key_report(&[0x03, 0x00, 0x0a, 0x39, 0x00, 0, 0, 0]);
    assert_eq!(caps, KeyboardHidEvent::KeyDown { code: KeyboardHidEventCode::KEY_CAPS_LOCK });
    let shift = WootingTwoHeArm::parse_key_report(&[0x03, 0x00, 0x0a, 0xff, 0x01, 0, 0, 0]);
    assert_eq!(shift, KeyboardHidEvent::KeyUp { code: KeyboardHidEventCode::KEY_EASY_SHIFT });
    let other_key = WootingTwoHeArm::parse_key_report(&[0x03, 0x00, 0x0a, 0x10, 0x01, 0, 0, 0]);
    assert_eq!(other_key, KeyboardHidEvent::Unknown);
    let empty = WootingTwoHeArm::parse_key_report(&[0; 8]);
    assert_eq!(empty, KeyboardHidEvent::Unknown);
    let dev = ready_device();
    assert_eq!(dev.get_next_event_timeout(None), Err(HwDeviceError::InvalidResult));
    assert_eq!(
        dev.get_next_event_timeout(Some(&[0x03, 0x00, 0xfb, 17, 0x01, 9, 9, 9])),
        Ok(KeyboardHidEvent::KeyDown { code: KeyboardHidEventCode::KEY_ESC })
    );
    let opened = WootingTwoHeArm { is_initialized: false, ..dev };
    assert_eq!(
        opened.get_next_event_timeout(Some(&[0x03, 0x00, 0xfb, 17, 0x01, 9, 9, 9])),
        Err(HwDeviceError::DeviceNotInitialized)
    );
    assert_eq!(WootingTwoHeArm::bind().get_next_event_timeout(None), Err(HwDeviceError::DeviceNotOpened));
}

#[test]
fn evdev_key_indices() {
    let dev = WootingTwoHeArm::bind();
    assert_eq!(dev.ev_key_to_key_index(1), 3);
    assert_eq!(dev.ev_key_to_key_index(0), 255);
    assert_eq!(dev.ev_key_to_key_index(0x101), 255);
    assert_eq!(dev.ev_key_to_key_index(0x110), 255);
    assert_eq!(dev.ev_key_to_key_index(0x2ff), 255);
    assert_eq!(dev.ev_key_to_key_index(30), 11);
    assert_eq!(dev.ev_key_to_key_index(55), 255);
    assert_eq!(ev_key_index_iso(127), 70);
    assert_eq!(ev_key_index_iso(300), 255);
}

fn sample_colors(n: usize) -> Vec<u16> {
    (0..n).map(|i| 0x0100 * (i as u16 + 1) + i as u16).collect()
}

#[test]
fn led_map_packets() {
    let dev = ready_device();
    let colors = sample_colors(LED_INDICES);
    let packets = dev.send_led_map(&colors).unwrap();
    assert_eq!(packets.len(), 4);
    for p in &packets {
        assert_eq!(p.len(), 65);
        assert_eq!(p[0], 0);
        assert_eq!(p[64], 0);
    }
    assert_eq!(&packets[0][..4], &[0x00, 0xd0, 0xda, 11]);
    // first color right after the header, low byte first
    assert_eq!(packets[0][4], colors[0] as u8);
    assert_eq!(packets[0][5], (colors[0] >> 8) as u8);
    assert_eq!(packets[0][62], colors[29] as u8);
    assert_eq!(packets[0][63], (colors[29] >> 8) as u8);
    // later packets: report id, a zero byte, then the colors
    assert_eq!(packets[1][1], 0);
    assert_eq!(packets[1][2], colors[30] as u8);
    assert_eq!(packets[1][3], (colors[30] >> 8) as u8);
    assert_eq!(packets[3][62], colors[122] as u8);
    assert_eq!(packets[3][63], (colors[122] >> 8) as u8);
    // every color up to index 122 reaches the device
    for n in 0..123usize {
        let k = (n + 1) / 31;
        let j = 2 * n + 4 - 62 * k;
        assert_eq!(packets[k][j], colors[n] as u8);
        assert_eq!(packets[k][j + 1], (colors[n] >> 8) as u8);
    }
}

#[test]
fn short_led_map_is_an_error() {
    let dev = ready_device();
    assert_eq!(dev.send_led_map(&sample_colors(126)), Err(HwDeviceError::LedMapError));
    assert!(dev.send_led_map(&sample_colors(200)).is_ok());
}

#[test]
fn packet_writes() {
    assert_eq!(WootingTwoHeArm::submit_packet_result(Some(65)), Ok(()));
    assert_eq!(WootingTwoHeArm::submit_packet_result(Some(64)), Err(HwDeviceError::WriteError));
    assert_eq!(WootingTwoHeArm::submit_packet_result(None), Err(HwDeviceError::WriteError));
}

#[test]
fn off_and_init_patterns_are_black() {
    let dev = ready_device();
    let packets = dev.set_led_off_pattern(132).unwrap();
    assert_eq!(packets.len(), 4);
    assert_eq!(&packets[0][..4], &[0x00, 0xd0, 0xda, 11]);
    assert!(packets[0][4..].iter().all(|b| *b == 0));
    assert!(packets[1..].iter().all(|p| p.iter().all(|b| *b == 0)));
    assert_eq!(dev.set_led_init_pattern(132), Ok(packets));
    assert_eq!(dev.set_led_init_pattern(100), Err(HwDeviceError::LedMapError));
    assert_eq!(WootingTwoHeArm::bind().set_led_off_pattern(132), Err(HwDeviceError::DeviceNotOpened));
}

#[test]
fn brightness_and_failure() {
    let mut dev = WootingTwoHeArm::bind();
    assert_eq!(dev.set_local_brightness(42), Ok(()));
    assert_eq!(dev.get_local_brightness(), Ok(42));
    assert_eq!(dev.fail(), Ok(()));
    assert_eq!(dev.has_failed(), Ok(true));
    assert_eq!(dev.get_local_brightness(), Ok(42));
}

#[test]
fn topology() {
    let dev = WootingTwoHeArm::bind();
    assert_eq!(dev.get_num_keys(), 127);
    assert_eq!(dev.get_num_rows(), 6);
    assert_eq!(dev.get_num_cols(), 21);
    assert_eq!(dev.get_row_topology(0), &ROWS_TOPOLOGY[0..17]);
    assert_eq!(dev.get_row_topology(1)[0], 0x03);
    assert_eq!(dev.get_row_topology(5), &ROWS_TOPOLOGY[85..102]);
    assert_eq!(dev.get_row_topology(6), &[0xff; 17]);
    assert_eq!(dev.get_col_topology(0), &[0x02, 0x03, 0x04, 0x05, 0x00, 0x01]);
    assert_eq!(dev.get_col_topology(17), &COLS_TOPOLOGY[102..108]);
    assert_eq!(dev.get_col_topology(20), &[0xff; 6]);
    assert_eq!(dev.get_device_capabilities(), vec![Capability::Keyboard, Capability::RgbLighting]);
    assert_eq!(dev.get_support_script_file(), "keyboards/wooting_two_he_arm");
}

fn entry(vid: u16, pid: u16, serial: Option<&str>, interface: i32) -> HidDeviceEntry {
    HidDeviceEntry {
        vendor_id: vid,
        product_id: pid,
        serial_number: serial.map(|s| s.to_string()),
        interface_number: interface,
    }
}

#[test]
fn binding_finds_both_interfaces() {
    let devices = vec![
        entry(0x31e3, 0x1230, Some("A"), CTRL_INTERFACE),
        entry(0x31e3, 0x1220, Some("B"), CTRL_INTERFACE),
        entry(0x31e3, 0x1220, Some("B"), 0),
        entry(0x31e3, 0x1220, Some("B"), LED_INTERFACE),
        entry(0x31e3, 0x1220, Some("B"), CTRL_INTERFACE),
        entry(0x31e3, 0x1220, None, LED_INTERFACE),
    ];
    assert_eq!(bind_hiddev(&devices, 0x31e3, 0x1220, "B"), Ok((1, 3)));
    assert_eq!(bind_hiddev(&devices, 0x31e3, 0x1230, "A"), Err(HwDeviceError::EnumerationError));
    assert_eq!(bind_hiddev(&devices, 0x31e3, 0x1220, "C"), Err(HwDeviceError::EnumerationError));
    assert_eq!(find_device(&devices, 0x31e3, 0x1220, "", LED_INTERFACE), Some(5));
    assert_eq!(find_device(&devices, 0x31e3, 0x1220, "", CTRL_INTERFACE), None);
}

#[test]
fn key_coordinates_fields() {
    let c = KeyCoordinates::new().with_column(17).with_row(5);
    assert_eq!(c.column(), 17);
    assert_eq!(c.row(), 5);
    assert_eq!(c.into_bits(), 5 * 32 + 17);
    let d = c.with_column(3);
    assert_eq!(d.row(), 5);
    assert_eq!(d.column(), 3);
    assert_eq!(KeyCoordinates::from_bits(0xff).row(), 7);
    assert_eq!(KeyCoordinates::from_bits(0xff).column(), 31);
}

#[test]
fn decoded_key_events_encode_back() {
    let dev = WootingTwoHeArm::bind();
    for code in 0u8..=255 {
        for status in 0u8..=1 {
            match WootingTwoHeArm::parse_key_report(&[0x03, 0x00, 0xfb, code, status, 0, 0, 0]) {
                KeyboardHidEvent::KeyDown { code: c } => {
                    assert_eq!(status, 1);
                    assert_eq!(dev.hid_event_code_to_report(&c), code);
                }
                KeyboardHidEvent::KeyUp { code: c } => {
                    assert_eq!(status, 0);
                    assert_eq!(dev.hid_event_code_to_report(&c), code);
                }
                other => panic!("unexpected event {:?}", other),
            }
        }
    }
}
