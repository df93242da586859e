use usbd_human_interface_device::codec::PackingError;
use usbd_human_interface_device::device::mouse::{
    BootMouseReport, BootMouseReportNew, WheelMouseReport, WheelMouseReportNew,
    BOOT_MOUSE_REPORT_DESCRIPTOR, WHEEL_MOUSE_REPORT_DESCRIPTOR,
};
use usbd_human_interface_device::marshal::MarshalError;

#[test]
fn boot_mouse_report_ser() {
    let report = BootMouseReportNew {
        buttons: 0b0000_0011,
        x: 120,
        y: -99,
    };
    let mut buf = [0u8; 3];
    let size = report.serialize(&mut buf).unwrap();
    assert_eq!(size, 3);
    assert_eq!(&buf[..size], &[0b0000_0011, 120, -99_i8 as u8]);
}

#[test]
fn boot_mouse_report_descriptor() {
    let expected = &[
        0x05, 0x01, // Usage Page (Generic Desktop Ctrls)
        0x09, 0x02, // Usage (Mouse)
        0xA1, 0x01, // Collection (Application)
        0x09, 0x01, //   Usage (Pointer)
        0xA1, 0x00, //   Collection (Physical)
        0x05, 0x09, //     Usage Page (Button)
        0x19, 0x01, //     Usage Minimum (0x01)
        0x29, 0x03, //     Usage Maximum (0x03)
        0x15, 0x00, //     Logical Minimum (0)
        0x25, 0x01, //     Logical Maximum (1)
        0x75, 0x01, //     Report Size (1)
        0x95, 0x03, //     Report Count (3)
        0x81, 0x02, //     Input (Data,Var,Abs,No Wrap,Linear,Preferred State,No Null Position)
        0x95, 0x05, //     Report Count (5)
        0x81, 0x03, //     Input (Const,Var,Abs,No Wrap,Linear,Preferred State,No Null Position)
        0x05, 0x01, //     Usage Page (Generic Desktop Ctrls)
        0x09, 0x30, //     Usage (X)
        0x17, 0x81, 0xFF, 0xFF, 0xFF, //     Logical Minimum (-128)
        0x25, 0x7F, //     Logical Maximum (127)
        0x75, 0x08, //     Report Size (8)
        0x95, 0x01, //     Report Count (1)
        0x81, 0x06, //     Input (Data,Var,Rel,No Wrap,Linear,Preferred State,No Null Position)
        0x09, 0x31, //     Usage (Y)
        0x81, 0x06, //     Input (Data,Var,Rel,No Wrap,Linear,Preferred State,No Null Position)
        0xC0, //   End Collection
        0xC0, // End Collection
    ];
    assert_eq!(BootMouseReportNew::desc(), expected);
}

#[test]
fn wheel_mouse_report_ser() {
    let report = WheelMouseReportNew {
        buttons: 0b0000_0011,
        x: 120,
        y: -99,
        vertical_wheel: 11,
        horizontal_wheel: -3,
    };
    let mut buf = [0u8; 5];
    let size = report.serialize(&mut buf).unwrap();
    assert_eq!(size, 5);
    assert_eq!(
        &buf[..size],
        &[0b0000_0011, 120, -99_i8 as u8, 11, -3_i8 as u8]
    );
}

#[test]
fn wheel_mouse_report_descriptor() {
    let expected = &[
        0x05, 0x01, // Usage Page (Generic Desktop Ctrls)
        0x09, 0x02, // Usage (Mouse)
        0xA1, 0x01, // Collection (Application)
        0x09, 0x01, //   Usage (Pointer)
        0xA1, 0x00, //   Collection (Physical)
        0x05, 0x09, //     Usage Page (Button)
        0x19, 0x01, //     Usage Minimum (0x01)
        0x29, 0x08, //     Usage Maximum (0x08)
        0x15, 0x00, //     Logical Minimum (0)
        0x25, 0x01, //     Logical Maximum (1)
        0x75, 0x01, //     Report Size (1)
        0x95, 0x08, //     Report Count (8)
        0x81, 0x02, //     Input (Data,Var,Abs,No Wrap,Linear,Preferred State,No Null Position)
        0x05, 0x01, //     Usage Page (Generic Desktop Ctrls)
        0x09, 0x30, //     Usage (X)
        0x17, 0x81, 0xFF, 0xFF, 0xFF, //     Logical Minimum (-128)
        0x25, 0x7F, //     Logical Maximum (127)
        0x75, 0x08, //     Report Size (8)
        0x95, 0x01, //     Report Count (1)
        0x81, 0x06, //     Input (Data,Var,Rel,No Wrap,Linear,Preferred State,No Null Position)
        0x09, 0x31, //     Usage (Y)
        0x81, 0x06, //     Input (Data,Var,Rel,No Wrap,Linear,Preferred State,No Null Position)
        0x09, 0x38, //     Usage (Wheel)
        0x81, 0x06, //     Input (Data,Var,Rel,No Wrap,Linear,Preferred State,No Null Position)
        0x05, 0x0C, //     Usage Page (Consumer)
        0x0A, 0x38, 0x02, //     Usage (AC Pan)
        0x81, 0x06, //     Input (Data,Var,Rel,No Wrap,Linear,Preferred State,No Null Position)
        0xC0, //   End Collection
        0xC0, // End Collection
    ];
    assert_eq!(WheelMouseReportNew::desc(), expected);
}

#[test]
fn boot_mouse_report_round_trip() {
    let report = BootMouseReport { buttons: 0b101, x: -128, y: 127 };
    let bytes = report.pack().unwrap();
    assert_eq!(bytes, [0b101, 0x80, 0x7F]);
    assert_eq!(BootMouseReport::unpack(&bytes), Ok(report));
    assert_eq!(BootMouseReport::unpack_from_slice(&bytes), Ok(report));
    assert_eq!(BootMouseReport::default().pack(), Ok([0, 0, 0]));
    assert_eq!(
        BootMouseReport::unpack(&[0xFF, 0xFF, 0x01]),
        Ok(BootMouseReport { buttons: 0xFF, x: -1, y: 1 })
    );
}

#[test]
fn wheel_mouse_report_round_trip() {
    let report = WheelMouseReport {
        buttons: 0x80,
        x: -1,
        y: 1,
        vertical_wheel: -127,
        horizontal_wheel: 0,
    };
    let bytes = report.pack().unwrap();
    assert_eq!(bytes, [0x80, 0xFF, 0x01, 0x81, 0x00]);
    assert_eq!(WheelMouseReport::unpack(&bytes), Ok(report));
    assert_eq!(WheelMouseReport::unpack_from_slice(&bytes), Ok(report));
    assert_eq!(WheelMouseReport::default().pack(), Ok([0; 5]));
}

#[test]
fn mouse_reports_unpack_wrong_length() {
    assert_eq!(
        BootMouseReport::unpack_from_slice(&[1, 2]),
        Err(PackingError::BufferSizeMismatch { expected: 3, actual: 2 })
    );
    assert_eq!(
        WheelMouseReport::unpack_from_slice(&[1, 2, 3, 4, 5, 6]),
        Err(PackingError::BufferSizeMismatch { expected: 5, actual: 6 })
    );
}

#[test]
fn mouse_field_reports_need_room() {
    let report = BootMouseReportNew { buttons: 1, x: -2, y: 3 };
    let mut short = [7u8; 2];
    assert_eq!(report.serialize(&mut short), Err(MarshalError::EndOfStream));
    assert_eq!(short, [7, 7]);
    let mut long = [7u8; 4];
    assert_eq!(report.serialize(&mut long), Ok(3));
    assert_eq!(long, [1, 0xFE, 3, 7]);
    let report = WheelMouseReportNew {
        buttons: 0,
        x: 0,
        y: 0,
        vertical_wheel: -128,
        horizontal_wheel: 127,
    };
    assert_eq!(report.serialize(&mut [0u8; 4]), Err(MarshalError::EndOfStream));
    let mut buf = [0u8; 5];
    assert_eq!(report.serialize(&mut buf), Ok(5));
    assert_eq!(buf, [0, 0, 0, 0x80, 0x7F]);
    assert_eq!(BootMouseReportNew::default(), BootMouseReportNew { buttons: 0, x: 0, y: 0 });
}

#[test]
fn mouse_report_descriptors_describe_the_reports() {
    assert_eq!(BOOT_MOUSE_REPORT_DESCRIPTOR.len(), 50);
    assert_eq!(&BOOT_MOUSE_REPORT_DESCRIPTOR[..4], &[0x05, 0x01, 0x09, 0x02]);
    assert_eq!(&BOOT_MOUSE_REPORT_DESCRIPTOR[48..], &[0xC0, 0xC0]);
    assert_eq!(WHEEL_MOUSE_REPORT_DESCRIPTOR.len(), 65);
    // the pan control is usage 0x0238 of the consumer page
    assert_eq!(&WHEEL_MOUSE_REPORT_DESCRIPTOR[54..59], &[0x05, 0x0C, 0x0A, 0x38, 0x02]);
}
