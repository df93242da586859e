use usbd_human_interface_device::device::consumer::{
    FixedFunctionReport, MultipleConsumerReport, MULTIPLE_CODE_REPORT_DESCRIPTOR,
};
use usbd_human_interface_device::marshal::MarshalError;

#[test]
fn multiple_consumer_report_ser() {
    let report = MultipleConsumerReport {
        codes: [0x0299, 0x1AB, 0x029b, 0x029c],
    };
    let mut buf = [0u8; 8];
    let size = report.serialize(&mut buf).unwrap();
    assert_eq!(size, 8);
    assert_eq!(
        &buf[..size],
        &[0x99, 0x02, 0xab, 0x01, 0x9b, 0x02, 0x9c, 0x02]
    );
}

#[test]
fn fixed_function_report_ser() {
    let report = FixedFunctionReport {
        codes: 0b00100100, // Stop, VolumeIncrement
    };
    let mut buf = [0u8; 1];
    let size = report.serialize(&mut buf).unwrap();
    assert_eq!(size, 1);
    assert_eq!(&buf[..size], &[0b00100100]);
}

#[test]
fn fixed_function_report_descriptor() {
    let expected = &[
        0x05, 0x0C, //        Usage Page (Consumer Devices)
        0x09, 0x01, //        Usage (Consumer Control)
        0xA1, 0x01, //        Collection (Application)
        0x05, 0x0C, //            Usage Page (Consumer Devices)
        0x09, 0xB5, //            Usage (Scan Next Track)
        0x09, 0xB6, //            Usage (Scan Previous Track)
        0x09, 0xB7, //            Usage (Stop)
        0x09, 0xCD, //            Usage (Play/Pause)
        0x09, 0xE2, //            Usage (Mute)
        0x09, 0xE9, //            Usage (Volume Increment)
        0x09, 0xEA, //            Usage (Volume Decrement)
        0x15, 0x00, //            Logical Minimum (0)
        0x25, 0x01, //            Logical Maximum (1)
        0x75, 0x01, //            Report Size (1)
        0x95, 0x07, //            Report Count (7)
        0x81, 0x02, //            Input (Data,Var,Abs,NWrp,Lin,Pref,NNul,Bit)
        0x95, 0x01, //            Report Count (1)
        0x81, 0x03, //            Input (Const,Var,Abs)
        0xC0, //        End Collection
    ];
    assert_eq!(FixedFunctionReport::desc(), expected);
}

#[test]
fn multiple_consumer_report_descriptor() {
    let expected = &[
        0x05, 0x0C, // Usage Page (Consumer),
        0x09, 0x01, // Usage (Consumer Control),
        0xA1, 0x01, // Collection (Application),
        0x75, 0x10, //     Report Size(16)
        0x95, 0x04, //     Report Count(4)
        0x15, 0x00, //     Logical Minimum(0)
        0x26, 0x9C, 0x02, //     Logical Maximum(0x029C)
        0x19, 0x00, //     Usage Minimum(0)
        0x2A, 0x9C, 0x02, //     Usage Maximum(0x029C)
        0x81, 0x00, //     Input (Array, Data, Variable)
        0xC0, // End Collection
    ];
    assert_eq!(MultipleConsumerReport::desc(), expected);
    assert_eq!(&MULTIPLE_CODE_REPORT_DESCRIPTOR[..], expected);
}

#[test]
fn consumer_reports_byte_order_and_room() {
    let report = MultipleConsumerReport { codes: [0xFFFE, 0x0001, 0x0100, 0x0000] };
    let mut long = [0x55u8; 9];
    assert_eq!(report.serialize(&mut long), Ok(8));
    assert_eq!(long, [0xFE, 0xFF, 0x01, 0x00, 0x00, 0x01, 0x00, 0x00, 0x55]);
    let mut short = [0x55u8; 7];
    assert_eq!(report.serialize(&mut short), Err(MarshalError::EndOfStream));
    assert_eq!(short, [0x55; 7]);
    assert_eq!(
        FixedFunctionReport { codes: 1 }.serialize(&mut []),
        Err(MarshalError::EndOfStream)
    );
    assert_eq!(MultipleConsumerReport::default().codes, [0; 4]);
    assert_eq!(FixedFunctionReport::default().codes, 0);
}
