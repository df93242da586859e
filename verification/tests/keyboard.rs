use usbd_human_interface_device::codec::PackingError;
use usbd_human_interface_device::device::keyboard::{
    BootKeyboardReport, BootKeyboardReportNew, KeyboardLedsReport, NKROBootKeyboardReport,
    NKROBootKeyboardReportNew, BOOT_KEYBOARD_REPORT_DESCRIPTOR,
    NKRO_BOOT_KEYBOARD_REPORT_DESCRIPTOR, NKRO_COMPACT_KEYBOARD_REPORT_DESCRIPTOR,
};
use usbd_human_interface_device::marshal::MarshalError;
use usbd_human_interface_device::page::Keyboard;

#[test]
fn leds_num_lock() {
    assert_eq!(
        KeyboardLedsReport::unpack(&[1]),
        Ok(KeyboardLedsReport {
            num_lock: true,
            caps_lock: false,
            scroll_lock: false,
            compose: false,
            kana: false,
        })
    );
}

#[test]
fn leds_caps_lock() {
    assert_eq!(
        KeyboardLedsReport::unpack(&[2]),
        Ok(KeyboardLedsReport {
            num_lock: false,
            caps_lock: true,
            scroll_lock: false,
            compose: false,
            kana: false,
        })
    );

    assert_eq!(
        KeyboardLedsReport {
            num_lock: false,
            caps_lock: true,
            scroll_lock: false,
            compose: false,
            kana: false,
        }
        .pack(),
        Ok([2])
    );
}

#[test]
fn boot_keyboard_report_mixed() {
    let bytes = BootKeyboardReport::new(&[
        Keyboard::LeftAlt,
        Keyboard::A,
        Keyboard::B,
        Keyboard::C,
        Keyboard::RightGUI,
    ])
    .pack()
    .unwrap();

    assert_eq!(
        bytes,
        [
            0x1_u8 << (u8::from(Keyboard::LeftAlt) - u8::from(Keyboard::LeftControl))
                | 0x1_u8 << (u8::from(Keyboard::RightGUI) - u8::from(Keyboard::LeftControl)),
            0,
            u8::from(Keyboard::A),
            u8::from(Keyboard::B),
            u8::from(Keyboard::C),
            0,
            0,
            0
        ]
    );
}

#[test]
fn boot_keyboard_report_keys() {
    let bytes = BootKeyboardReport::new(&[
        Keyboard::A,
        Keyboard::B,
        Keyboard::C,
        Keyboard::D,
        Keyboard::E,
        Keyboard::F,
    ])
    .pack()
    .unwrap();

    assert_eq!(
        bytes,
        [
            0,
            0,
            u8::from(Keyboard::A),
            u8::from(Keyboard::B),
            u8::from(Keyboard::C),
            u8::from(Keyboard::D),
            u8::from(Keyboard::E),
            u8::from(Keyboard::F)
        ]
    );
}

#[test]
fn boot_keyboard_report_rollover() {
    let bytes = BootKeyboardReport::new(&[
        Keyboard::LeftAlt,
        Keyboard::A,
        Keyboard::B,
        Keyboard::C,
        Keyboard::D,
        Keyboard::E,
        Keyboard::F,
        Keyboard::G,
        Keyboard::RightGUI,
    ])
    .pack()
    .unwrap();

    assert_eq!(
        bytes,
        [
            0x1_u8 << (u8::from(Keyboard::LeftAlt) - u8::from(Keyboard::LeftControl))
                | 0x1_u8 << (u8::from(Keyboard::RightGUI) - u8::from(Keyboard::LeftControl)),
            0,
            u8::from(Keyboard::ErrorRollOver),
            u8::from(Keyboard::ErrorRollOver),
            u8::from(Keyboard::ErrorRollOver),
            u8::from(Keyboard::ErrorRollOver),
            u8::from(Keyboard::ErrorRollOver),
            u8::from(Keyboard::ErrorRollOver),
        ]
    );
}

#[test]
fn boot_keyboard_report_ser() {
    let report = BootKeyboardReportNew {
        modifier: 0b0001_0100,
        reserved: 0,
        leds: 0,
        keys: [
            u8::from(Keyboard::A),
            u8::from(Keyboard::B),
            u8::from(Keyboard::C),
            u8::from(Keyboard::D),
            0,
            0,
        ],
    };
    let mut buf = [0u8; 8];
    let size = report.serialize(&mut buf).unwrap();
    assert_eq!(size, 8);
    assert_eq!(&buf[..size], &[0b0001_0100, 0, 4, 5, 6, 7, 0, 0]);
}

#[test]
fn boot_keyboard_report_descriptor() {
    let expected = &[
        0x05, 0x01, // Usage Page (Generic Desktop Ctrls)
        0x09, 0x06, // Usage (Keyboard)
        0xA1, 0x01, // Collection (Application)
        0x05, 0x07, //   Usage Page (Kbrd/Keypad)
        0x19, 0xE0, //   Usage Minimum (0xE0)
        0x29, 0xE7, //   Usage Maximum (0xE7)
        0x15, 0x00, //   Logical Minimum (0)
        0x25, 0x01, //   Logical Maximum (1)
        0x75, 0x01, //   Report Size (1)
        0x95, 0x08, //   Report Count (8)
        0x81, 0x02, //   Input (Data,Var,Abs,No Wrap,Linear,Preferred State,No Null Position)
        0x19, 0x00, //   Usage Minimum (0x00)
        0x29, 0xFF, //   Usage Maximum (0xFF)
        0x26, 0xFF, 0x00, //   Logical Maximum (255)
        0x75, 0x08, //   Report Size (8)
        0x95, 0x01, //   Report Count (1)
        0x81, 0x03, //   Input (Const,Var,Abs,No Wrap,Linear,Preferred State,No Null Position)
        0x05, 0x08, //   Usage Page (LEDs)
        0x19, 0x01, //   Usage Minimum (Num Lock)
        0x29, 0x05, //   Usage Maximum (Kana)
        0x25, 0x01, //   Logical Maximum (1)
        0x75, 0x01, //   Report Size (1)
        0x95, 0x05, //   Report Count (5)
        0x91, 0x02, //   Output (Data,Var,Abs,No Wrap,Linear,Preferred State,No Null Position,Non-volatile)
        0x95, 0x03, //   Report Count (3)
        0x91, 0x03, //   Output (Const,Var,Abs,No Wrap,Linear,Preferred State,No Null Position,Non-volatile)
        0x05, 0x07, //   Usage Page (Kbrd/Keypad)
        0x19, 0x00, //   Usage Minimum (0x00)
        0x29, 0xFF, //   Usage Maximum (0xFF)
        0x26, 0xFF, 0x00, //   Logical Maximum (255)
        0x75, 0x08, //   Report Size (8)
        0x95, 0x06, //   Report Count (6)
        0x81, 0x00, //   Input (Data,Array,Abs,No Wrap,Linear,Preferred State,No Null Position)
        0xC0, // End Collection
    ];
    assert_eq!(BootKeyboardReportNew::desc(), expected);
}

#[test]
fn nkro_boot_keyboard_report_ser() {
    let report = NKROBootKeyboardReportNew {
        modifier: 0b0001_0100,
        reserved: 0,
        leds: 0,
        boot_keys: [
            u8::from(Keyboard::A),
            u8::from(Keyboard::B),
            u8::from(Keyboard::C),
            u8::from(Keyboard::D),
            0,
            0,
        ],
        nkro_keys: [0x10, 0, 0, 0, 0, 0, 0, 0, 0x04, 0, 0, 0, 0, 0, 0, 0x20, 0],
    };
    let mut buf = [0u8; 8 + 17];
    let size = report.serialize(&mut buf).unwrap();
    assert_eq!(size, 8 + 17);
    assert_eq!(
        &buf[..size],
        &[
            0b0001_0100, 0, 4, 5, 6, 7, 0, 0, 0x10, 0, 0, 0, 0, 0, 0, 0, 0x04, 0, 0, 0, 0, 0, 0,
            0x20, 0,
        ]
    );
}

#[test]
fn nkro_boot_keyboard_report_descriptor() {
    let expected = &[
        0x05, 0x01, // Usage Page (Generic Desktop Ctrls)
        0x09, 0x06, // Usage (Keyboard)
        0xA1, 0x01, // Collection (Application)
        0x05, 0x07, //   Usage Page (Kbrd/Keypad)
        0x19, 0xE0, //   Usage Minimum (0xE0)
        0x29, 0xE7, //   Usage Maximum (0xE7)
        0x15, 0x00, //   Logical Minimum (0)
        0x25, 0x01, //   Logical Maximum (1)
        0x75, 0x01, //   Report Size (1)
        0x95, 0x08, //   Report Count (8)
        0x81, 0x02, //   Input (Data,Var,Abs,No Wrap,Linear,Preferred State,No Null Position)
        0x19, 0x00, //   Usage Minimum (0x00)
        0x29, 0xFF, //   Usage Maximum (0xFF)
        0x26, 0xFF, 0x00, //   Logical Maximum (255)
        0x75, 0x08, //   Report Size (8)
        0x95, 0x01, //   Report Count (1)
        0x81, 0x03, //   Input (Const,Var,Abs,No Wrap,Linear,Preferred State,No Null Position)
        0x05, 0x08, //   Usage Page (LEDs)
        0x19, 0x01, //   Usage Minimum (Num Lock)
        0x29, 0x05, //   Usage Maximum (Kana)
        0x25, 0x01, //   Logical Maximum (1)
        0x75, 0x01, //   Report Size (1)
        0x95, 0x05, //   Report Count (5)
        0x91, 0x02, //   Output (Data,Var,Abs,No Wrap,Linear,Preferred State,No Null Position,Non-volatile)
        0x95, 0x03, //   Report Count (3)
        0x91, 0x03, //   Output (Const,Var,Abs,No Wrap,Linear,Preferred State,No Null Position,Non-volatile)
        0x05, 0x07, //   Usage Page (Kbrd/Keypad)
        0x19, 0x00, //   Usage Minimum (0x00)
        0x29, 0xFF, //   Usage Maximum (0xFF)
        0x26, 0xFF, 0x00, //   Logical Maximum (255)
        0x75, 0x08, //   Report Size (8)
        0x95, 0x06, //   Report Count (6)
        0x81, 0x00, //   Input (Data,Array,Abs,No Wrap,Linear,Preferred State,No Null Position)
        0x05, 0x07, //   Usage Page (Kbrd/Keypad)
        0x19, 0x00, //   Usage Minimum (0x00)
        0x29, 0x87, //   Usage Maximum (0x87)
        0x25, 0x01, //   Logical Maximum (1)
        0x75, 0x01, //   Report Size (1)
        0x95, 0x88, //   Report Count (-120)
        0x81, 0x02, //   Input (Data,Var,Abs,No Wrap,Linear,Preferred State,No Null Position)
        0xC0, // End Collection
    ];
    assert_eq!(NKROBootKeyboardReportNew::desc(), expected);
}

#[test]
fn keyboard_usage_codes() {
    assert_eq!(u8::from(Keyboard::NoEventIndicated), 0x00);
    assert_eq!(u8::from(Keyboard::ErrorRollOver), 0x01);
    assert_eq!(u8::from(Keyboard::A), 0x04);
    assert_eq!(u8::from(Keyboard::Z), 0x1D);
    assert_eq!(u8::from(Keyboard::Keyboard0), 0x27);
    assert_eq!(u8::from(Keyboard::CapsLock), 0x39);
    assert_eq!(u8::from(Keyboard::F12), 0x45);
    assert_eq!(u8::from(Keyboard::UpArrow), 0x52);
    assert_eq!(u8::from(Keyboard::Keypad0), 0x62);
    assert_eq!(u8::from(Keyboard::F24), 0x73);
    assert_eq!(u8::from(Keyboard::Mute), 0x7F);
    assert_eq!(u8::from(Keyboard::ExSel), 0xA4);
    assert_eq!(u8::from(Keyboard::LeftControl), 0xE0);
    assert_eq!(u8::from(Keyboard::RightGUI), 0xE7);
    assert_eq!(Keyboard::default(), Keyboard::NoEventIndicated);
}

#[test]
fn keyboard_codes_round_trip() {
    let mut assigned = 0;
    for code in 0..=255u8 {
        match Keyboard::from_code(code) {
            Some(key) => {
                assigned += 1;
                assert_eq!(key.as_u8(), code);
            }
            None => assert!((0xA5..=0xDF).contains(&code) || code >= 0xE8),
        }
    }
    assert_eq!(assigned, 173);
}

#[test]
fn leds_round_trip_and_unused_bits() {
    let report = KeyboardLedsReport {
        num_lock: true,
        caps_lock: false,
        scroll_lock: true,
        compose: false,
        kana: true,
    };
    assert_eq!(report.pack(), Ok([0b0001_0101]));
    assert_eq!(KeyboardLedsReport::unpack(&[0b0001_0101]), Ok(report));
    // the three unused bits are ignored
    assert_eq!(KeyboardLedsReport::unpack(&[0b1111_0101]), Ok(report));
    assert_eq!(KeyboardLedsReport::default().pack(), Ok([0]));
}

#[test]
fn leds_unpack_wrong_length() {
    assert_eq!(
        KeyboardLedsReport::unpack_from_slice(&[]),
        Err(PackingError::BufferSizeMismatch { expected: 1, actual: 0 })
    );
    assert_eq!(
        KeyboardLedsReport::unpack_from_slice(&[1, 2]),
        Err(PackingError::BufferSizeMismatch { expected: 1, actual: 2 })
    );
    assert!(KeyboardLedsReport::unpack_from_slice(&[16]).unwrap().kana);
}

#[test]
fn boot_keyboard_modifier_bits() {
    let all = [
        (Keyboard::LeftControl, 0x01u8),
        (Keyboard::LeftShift, 0x02),
        (Keyboard::LeftAlt, 0x04),
        (Keyboard::LeftGUI, 0x08),
        (Keyboard::RightControl, 0x10),
        (Keyboard::RightShift, 0x20),
        (Keyboard::RightAlt, 0x40),
        (Keyboard::RightGUI, 0x80),
    ];
    for (key, bit) in all {
        let bytes = BootKeyboardReport::new(&[key]).pack().unwrap();
        assert_eq!(bytes, [bit, 0, 0, 0, 0, 0, 0, 0]);
    }
}

#[test]
fn boot_keyboard_round_trip() {
    let report = BootKeyboardReport::new(&[
        Keyboard::RightShift,
        Keyboard::Q,
        Keyboard::NoEventIndicated,
        Keyboard::ExSel,
        Keyboard::LeftControl,
    ]);
    assert!(report.right_shift && report.left_ctrl && !report.left_shift);
    assert_eq!(report.keys[0], Keyboard::Q);
    assert_eq!(report.keys[1], Keyboard::ExSel);
    assert_eq!(report.keys[2], Keyboard::NoEventIndicated);
    let bytes = report.pack().unwrap();
    assert_eq!(bytes, [0x21, 0, 0x14, 0xA4, 0, 0, 0, 0]);
    assert_eq!(BootKeyboardReport::unpack(&bytes), Ok(report));
    assert_eq!(BootKeyboardReport::unpack_from_slice(&bytes), Ok(report));
}

#[test]
fn boot_keyboard_empty_report() {
    let report = BootKeyboardReport::new(&[]);
    assert_eq!(report, BootKeyboardReport::default());
    assert_eq!(report.pack(), Ok([0; 8]));
}

#[test]
fn boot_keyboard_unpack_rejects_reserved_codes() {
    assert_eq!(
        BootKeyboardReport::unpack(&[0, 0, 4, 0xA5, 0, 0, 0, 0]),
        Err(PackingError::InvalidValue)
    );
    assert_eq!(
        BootKeyboardReport::unpack(&[0, 0, 4, 5, 6, 7, 8, 0xFF]),
        Err(PackingError::InvalidValue)
    );
    // the reserved byte is not looked at
    assert!(BootKeyboardReport::unpack(&[0, 0x55, 4, 0xE0, 0, 0, 0, 0]).is_ok());
}

#[test]
fn boot_keyboard_unpack_wrong_length() {
    assert_eq!(
        BootKeyboardReport::unpack_from_slice(&[0, 0, 4, 5, 6, 7, 8]),
        Err(PackingError::BufferSizeMismatch { expected: 8, actual: 7 })
    );
    assert_eq!(
        BootKeyboardReport::unpack_from_slice(&[0; 9]),
        Err(PackingError::BufferSizeMismatch { expected: 8, actual: 9 })
    );
}

#[test]
fn boot_keyboard_error_indicator_fills_slots() {
    let report = BootKeyboardReport::new(&[Keyboard::A, Keyboard::POSTFail, Keyboard::B]);
    assert_eq!(report.keys, [Keyboard::POSTFail; 6]);
    // the first indicator wins, later ones and later keys change nothing
    let report = BootKeyboardReport::new(&[
        Keyboard::ErrorUndefine,
        Keyboard::ErrorRollOver,
        Keyboard::C,
    ]);
    assert_eq!(report.keys, [Keyboard::ErrorUndefine; 6]);
    // an indicator pressed as the seventh key still finds room to be shown
    let report = BootKeyboardReport::new(&[
        Keyboard::A,
        Keyboard::B,
        Keyboard::C,
        Keyboard::D,
        Keyboard::E,
        Keyboard::F,
        Keyboard::POSTFail,
    ]);
    assert_eq!(report.keys, [Keyboard::POSTFail; 6]);
    // after a rollover an indicator no longer changes the slots
    let report = BootKeyboardReport::new(&[
        Keyboard::A,
        Keyboard::B,
        Keyboard::C,
        Keyboard::D,
        Keyboard::E,
        Keyboard::F,
        Keyboard::G,
        Keyboard::POSTFail,
    ]);
    assert_eq!(report.keys, [Keyboard::ErrorRollOver; 6]);
}

#[test]
fn boot_keyboard_modifiers_take_no_slot() {
    let report = BootKeyboardReport::new(&[
        Keyboard::LeftControl,
        Keyboard::LeftShift,
        Keyboard::LeftAlt,
        Keyboard::LeftGUI,
        Keyboard::RightControl,
        Keyboard::RightShift,
        Keyboard::RightAlt,
        Keyboard::RightGUI,
        Keyboard::NoEventIndicated,
        Keyboard::A,
        Keyboard::B,
        Keyboard::C,
        Keyboard::D,
        Keyboard::E,
        Keyboard::F,
    ]);
    assert_eq!(
        report.pack().unwrap(),
        [0xFF, 0, 0x04, 0x05, 0x06, 0x07, 0x08, 0x09]
    );
}

#[test]
fn nkro_report_bitmap_and_slots_agree() {
    let report = NKROBootKeyboardReport::new(&[Keyboard::A, Keyboard::LeftShift, Keyboard::H]);
    assert!(report.left_shift);
    assert_eq!(report.boot_keys[0], Keyboard::A);
    assert_eq!(report.boot_keys[1], Keyboard::H);
    assert_eq!(report.boot_keys[2], Keyboard::NoEventIndicated);
    // A is usage 4: byte 0, bit 4; H is usage 11: byte 1, bit 3
    let mut bitmap = [0u8; 17];
    bitmap[0] = 0x10;
    bitmap[1] = 0x08;
    assert_eq!(report.nkro_keys, bitmap);
    let bytes = report.pack().unwrap();
    assert_eq!(
        bytes,
        [0x02, 0, 4, 11, 0, 0, 0, 0, 0x10, 0x08, 0, 0, 0, 0, 0, 0, 0, 0, 0, 0, 0, 0, 0, 0, 0]
    );
    assert_eq!(NKROBootKeyboardReport::unpack(&bytes), Ok(report));
    assert_eq!(NKROBootKeyboardReport::unpack_from_slice(&bytes), Ok(report));
}

#[test]
fn nkro_report_rollover_keeps_bitmap() {
    let keys = [
        Keyboard::A,
        Keyboard::B,
        Keyboard::C,
        Keyboard::D,
        Keyboard::E,
        Keyboard::F,
        Keyboard::G,
        Keyboard::H,
    ];
    let report = NKROBootKeyboardReport::new(&keys);
    assert_eq!(report.boot_keys, [Keyboard::ErrorRollOver; 6]);
    // usages 4 to 11: bits 4..7 of byte 0 and bits 0..3 of byte 1
    assert_eq!(report.nkro_keys[0], 0xF0);
    assert_eq!(report.nkro_keys[1], 0x0F);
    assert_eq!(&report.nkro_keys[2..], &[0u8; 15]);
}

#[test]
fn nkro_report_bitmap_edges() {
    // usage 0x87 (135) is the last one with a bit, usage 0x88 has none
    let report = NKROBootKeyboardReport::new(&[Keyboard::Kanji1, Keyboard::Kanji2]);
    assert_eq!(report.nkro_keys[16], 0x80);
    assert_eq!(&report.nkro_keys[..16], &[0u8; 16]);
    assert_eq!(report.boot_keys[0], Keyboard::Kanji1);
    assert_eq!(report.boot_keys[1], Keyboard::Kanji2);
    // error indicators show in the bitmap, NoEventIndicated and modifiers do not
    let report = NKROBootKeyboardReport::new(&[
        Keyboard::NoEventIndicated,
        Keyboard::ErrorUndefine,
        Keyboard::RightGUI,
    ]);
    assert_eq!(report.nkro_keys[0], 0x08);
    assert_eq!(&report.nkro_keys[1..], &[0u8; 16]);
    assert_eq!(report.boot_keys, [Keyboard::ErrorUndefine; 6]);
    assert_eq!(NKROBootKeyboardReport::new(&[]), NKROBootKeyboardReport::default());
}

#[test]
fn nkro_report_unpack_errors() {
    assert_eq!(
        NKROBootKeyboardReport::unpack_from_slice(&[0; 24]),
        Err(PackingError::BufferSizeMismatch { expected: 25, actual: 24 })
    );
    let mut bytes = [0u8; 25];
    bytes[7] = 0xE8;
    assert_eq!(NKROBootKeyboardReport::unpack(&bytes), Err(PackingError::InvalidValue));
    bytes[7] = 0;
    bytes[24] = 0xFF;
    assert_eq!(NKROBootKeyboardReport::unpack(&bytes).unwrap().nkro_keys[16], 0xFF);
}

#[test]
fn keyboard_field_reports_need_room() {
    let report = BootKeyboardReportNew { modifier: 1, reserved: 2, leds: 3, keys: [4; 6] };
    let mut short = [0xAAu8; 7];
    assert_eq!(report.serialize(&mut short), Err(MarshalError::EndOfStream));
    assert_eq!(short, [0xAA; 7]);
    let mut long = [0xAAu8; 10];
    assert_eq!(report.serialize(&mut long), Ok(8));
    assert_eq!(long, [1, 2, 4, 4, 4, 4, 4, 4, 0xAA, 0xAA]);
    let report = NKROBootKeyboardReportNew {
        modifier: 0,
        reserved: 0,
        leds: 0,
        boot_keys: [0; 6],
        nkro_keys: [0; 17],
    };
    assert_eq!(report.serialize(&mut [0u8; 24]), Err(MarshalError::EndOfStream));
    assert_eq!(BootKeyboardReportNew::default().serialize(&mut [1u8; 8]), Ok(8));
}

#[test]
fn keyboard_report_descriptors_describe_the_reports() {
    assert_eq!(BOOT_KEYBOARD_REPORT_DESCRIPTOR.len(), 65);
    assert_eq!(&BOOT_KEYBOARD_REPORT_DESCRIPTOR[..6], &[0x05, 0x01, 0x09, 0x06, 0xA1, 0x01]);
    assert_eq!(BOOT_KEYBOARD_REPORT_DESCRIPTOR[64], 0xC0);
    assert_eq!(NKRO_BOOT_KEYBOARD_REPORT_DESCRIPTOR.len(), 63);
    assert_eq!(NKRO_BOOT_KEYBOARD_REPORT_DESCRIPTOR[62], 0xC0);
    assert_eq!(NKRO_COMPACT_KEYBOARD_REPORT_DESCRIPTOR.len(), 57);
    // the key bitmap is declared with 0x88 = 136 one-bit fields
    assert_eq!(&NKRO_BOOT_KEYBOARD_REPORT_DESCRIPTOR[46..50], &[0x95, 0x88, 0x75, 0x01]);
}
