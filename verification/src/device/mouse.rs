//!HID mice

use crate::codec::PackingError;
use crate::hid_class::descriptor::InterfaceProtocol;
use crate::hid_class::UsbPacketSize;
use crate::interface::raw::{
    EndpointConfig, RawInterface, RawInterfaceBuilder, RawInterfaceConfig, RawInterfaceView,
};
use crate::interface::{InterfaceKind, WrappedInterfaceConfig};
use crate::marshal::{
    byte_of_signed, lemma_signed_byte_round_trip, put_i8, put_u8, signed_byte, signed_from_byte,
    signed_of_byte, MarshalError,
};
use crate::UsbHidError;
use vstd::prelude::*;

verus! {

/// HID Mouse report descriptor conforming to the Boot specification
///
/// This aims to be compatible with BIOS and other reduced functionality USB hosts
///
/// This is defined in Appendix B.2 & E.10 of [Device Class Definition for Human
/// Interface Devices (Hid) Version 1.11](<https://www.usb.org/sites/default/files/hid1_11.pdf>)
pub const BOOT_MOUSE_REPORT_DESCRIPTOR: [u8; 50] = [
    0x05, 0x01,                    // Usage Page (Generic Desktop)
    0x09, 0x02,                    // Usage (Mouse)
    0xA1, 0x01,                    // Collection (Application)
    0x09, 0x01,                    //   Usage (Pointer)
    0xA1, 0x00,                    //   Collection (Physical)
    0x95, 0x03,                    //     Report Count (3)
    0x75, 0x01,                    //     Report Size (1)
    0x05, 0x09,                    //     Usage Page (Buttons)
    0x19, 0x01,                    //     Usage Minimum (1)
    0x29, 0x03,                    //     Usage Maximum (3)
    0x15, 0x00,                    //     Logical Minimum (0)
    0x25, 0x01,                    //     Logical Maximum (1)
    0x81, 0x02,                    //     Input (Data, Variable, Absolute)
    0x95, 0x01,                    //     Report Count (1)
    0x75, 0x05,                    //     Report Size (5)
    0x81, 0x01,                    //     Input (Constant)
    0x75, 0x08,                    //     Report Size (8)
    0x95, 0x02,                    //     Report Count (2)
    0x05, 0x01,                    //     Usage Page (Generic Desktop)
    0x09, 0x30,                    //     Usage (X)
    0x09, 0x31,                    //     Usage (Y)
    0x15, 0x81,                    //     Logical Minimum (-127)
    0x25, 0x7F,                    //     Logical Maximum (127)
    0x81, 0x06,                    //     Input (Data, Variable, Relative)
    0xC0,                          //   End Collection
    0xC0,                          // End Collection
];

/// Boot compatible mouse with wheel, pan and eight buttons
pub const WHEEL_MOUSE_REPORT_DESCRIPTOR: [u8; 65] = [
    0x05, 0x01,                    // Usage Page (Generic Desktop)
    0x09, 0x02,                    // Usage (Mouse)
    0xA1, 0x01,                    // Collection (Application)
    0x09, 0x01,                    //   Usage (Pointer)
    0xA1, 0x00,                    //   Collection (Physical)
    0x95, 0x08,                    //     Report Count (8)
    0x75, 0x01,                    //     Report Size (1)
    0x05, 0x09,                    //     Usage Page (Buttons)
    0x19, 0x01,                    //     Usage Minimum (1)
    0x29, 0x08,                    //     Usage Maximum (8)
    0x15, 0x00,                    //     Logical Minimum (0)
    0x25, 0x01,                    //     Logical Maximum (1)
    0x81, 0x02,                    //     Input (Data, Variable, Absolute)
    0x75, 0x08,                    //     Report Size (8)
    0x95, 0x02,                    //     Report Count (2)
    0x05, 0x01,                    //     Usage Page (Generic Desktop)
    0x09, 0x30,                    //     Usage (X)
    0x09, 0x31,                    //     Usage (Y)
    0x15, 0x81,                    //     Logical Minimum (-127)
    0x25, 0x7F,                    //     Logical Maximum (127)
    0x81, 0x06,                    //     Input (Data, Variable, Relative)
    0x15, 0x81,                    //     Logical Minimum (-127)
    0x25, 0x7F,                    //     Logical Maximum (127)
    0x09, 0x38,                    //     Usage (Wheel)
    0x75, 0x08,                    //     Report Size (8)
    0x95, 0x01,                    //     Report Count (1)
    0x81, 0x06,                    //     Input (Data,Var,Rel,No Wrap,Linear,Preferred State,No Null Position)
    0x05, 0x0C,                    //     Usage Page (Consumer)
    0x0A, 0x38, 0x02,              //     Usage (AC Pan)
    0x95, 0x01,                    //     Report Count (1)
    0x81, 0x06,                    //     Input (Data,Var,Rel,No Wrap,Linear,Preferred State,No Null Position)
    0xC0,                          //   End Collection
    0xC0,                          // End Collection
];

/// Report descriptor of [`BootMouseReportNew`]: the boot mouse described field by field.
pub const BOOT_MOUSE_FIELDS_REPORT_DESCRIPTOR: [u8; 53] = [
    0x05, 0x01,                    // Usage Page (Generic Desktop Ctrls)
    0x09, 0x02,                    // Usage (Mouse)
    0xA1, 0x01,                    // Collection (Application)
    0x09, 0x01,                    //   Usage (Pointer)
    0xA1, 0x00,                    //   Collection (Physical)
    0x05, 0x09,                    //     Usage Page (Button)
    0x19, 0x01,                    //     Usage Minimum (0x01)
    0x29, 0x03,                    //     Usage Maximum (0x03)
    0x15, 0x00,                    //     Logical Minimum (0)
    0x25, 0x01,                    //     Logical Maximum (1)
    0x75, 0x01,                    //     Report Size (1)
    0x95, 0x03,                    //     Report Count (3)
    0x81, 0x02,                    //     Input (Data,Var,Abs,No Wrap,Linear,Preferred State,No Null Position)
    0x95, 0x05,                    //     Report Count (5)
    0x81, 0x03,                    //     Input (Const,Var,Abs,No Wrap,Linear,Preferred State,No Null Position)
    0x05, 0x01,                    //     Usage Page (Generic Desktop Ctrls)
    0x09, 0x30,                    //     Usage (X)
    0x17, 0x81, 0xFF, 0xFF, 0xFF,  //     Logical Minimum (-128)
    0x25, 0x7F,                    //     Logical Maximum (127)
    0x75, 0x08,                    //     Report Size (8)
    0x95, 0x01,                    //     Report Count (1)
    0x81, 0x06,                    //     Input (Data,Var,Rel,No Wrap,Linear,Preferred State,No Null Position)
    0x09, 0x31,                    //     Usage (Y)
    0x81, 0x06,                    //     Input (Data,Var,Rel,No Wrap,Linear,Preferred State,No Null Position)
    0xC0,                          //   End Collection
    0xC0,                          // End Collection
];

/// Report descriptor of [`WheelMouseReportNew`]: the wheel mouse described field by field.
pub const WHEEL_MOUSE_FIELDS_REPORT_DESCRIPTOR: [u8; 60] = [
    0x05, 0x01,                    // Usage Page (Generic Desktop Ctrls)
    0x09, 0x02,                    // Usage (Mouse)
    0xA1, 0x01,                    // Collection (Application)
    0x09, 0x01,                    //   Usage (Pointer)
    0xA1, 0x00,                    //   Collection (Physical)
    0x05, 0x09,                    //     Usage Page (Button)
    0x19, 0x01,                    //     Usage Minimum (0x01)
    0x29, 0x08,                    //     Usage Maximum (0x08)
    0x15, 0x00,                    //     Logical Minimum (0)
    0x25, 0x01,                    //     Logical Maximum (1)
    0x75, 0x01,                    //     Report Size (1)
    0x95, 0x08,                    //     Report Count (8)
    0x81, 0x02,                    //     Input (Data,Var,Abs,No Wrap,Linear,Preferred State,No Null Position)
    0x05, 0x01,                    //     Usage Page (Generic Desktop Ctrls)
    0x09, 0x30,                    //     Usage (X)
    0x17, 0x81, 0xFF, 0xFF, 0xFF,  //     Logical Minimum (-128)
    0x25, 0x7F,                    //     Logical Maximum (127)
    0x75, 0x08,                    //     Report Size (8)
    0x95, 0x01,                    //     Report Count (1)
    0x81, 0x06,                    //     Input (Data,Var,Rel,No Wrap,Linear,Preferred State,No Null Position)
    0x09, 0x31,                    //     Usage (Y)
    0x81, 0x06,                    //     Input (Data,Var,Rel,No Wrap,Linear,Preferred State,No Null Position)
    0x09, 0x38,                    //     Usage (Wheel)
    0x81, 0x06,                    //     Input (Data,Var,Rel,No Wrap,Linear,Preferred State,No Null Position)
    0x05, 0x0C,                    //     Usage Page (Consumer)
    0x0A, 0x38, 0x02,              //     Usage (AC Pan)
    0x81, 0x06,                    //     Input (Data,Var,Rel,No Wrap,Linear,Preferred State,No Null Position)
    0xC0,                          //   End Collection
    0xC0,                          // End Collection
];

/// The report of a boot mouse: three buttons and the movement since the last report.
#[derive(Clone, Copy, Debug, PartialEq, Eq, Structural)]
pub struct BootMouseReport {
    /// The buttons, button 1 in bit 0.
    pub buttons: u8,
    /// Movement to the right.
    pub x: i8,
    /// Movement towards the user.
    pub y: i8,
}

impl BootMouseReport {
    /// Length of the packed report in bytes.
    pub const SIZE: usize = 3;

    /// The packed report: the buttons, then `x` and `y` in two's complement.
    pub open spec fn packed(self) -> Seq<u8> {
        seq![self.buttons, signed_byte(self.x), signed_byte(self.y)]
    }

    /// The report that `bytes` encode. Every buffer of the right length encodes one.
    pub open spec fn unpacked(bytes: Seq<u8>) -> Result<BootMouseReport, PackingError> {
        if bytes.len() != 3 {
            Err(PackingError::BufferSizeMismatch { expected: 3, actual: bytes.len() as usize })
        } else {
            Ok(
                BootMouseReport {
                    buttons: bytes[0],
                    x: signed_of_byte(bytes[1]),
                    y: signed_of_byte(bytes[2]),
                },
            )
        }
    }

    /// Packs the report. Every report can be packed.
    pub fn pack(&self) -> (result: Result<[u8; 3], PackingError>)
        ensures
            result matches Ok(bytes) && bytes@ == self.packed(),
    {
        let bytes = [self.buttons, byte_of_signed(self.x), byte_of_signed(self.y)];
        assert(bytes@ =~= self.packed());
        Ok(bytes)
    }

    /// Unpacks a report from a buffer of exactly its size.
    pub fn unpack(bytes: &[u8; 3]) -> (result: Result<BootMouseReport, PackingError>)
        ensures
            result == BootMouseReport::unpacked(bytes@),
    {
        Ok(
            BootMouseReport {
                buttons: bytes[0],
                x: signed_from_byte(bytes[1]),
                y: signed_from_byte(bytes[2]),
            },
        )
    }

    /// Unpacks a report from a slice, which has to have the length of the report.
    pub fn unpack_from_slice(bytes: &[u8]) -> (result: Result<BootMouseReport, PackingError>)
        ensures
            result == BootMouseReport::unpacked(bytes@),
    {
        if bytes.len() != 3 {
            Err(PackingError::BufferSizeMismatch { expected: 3, actual: bytes.len() })
        } else {
            Ok(
                BootMouseReport {
                    buttons: bytes[0],
                    x: signed_from_byte(bytes[1]),
                    y: signed_from_byte(bytes[2]),
                },
            )
        }
    }

    /// Unpacking a packed report gives the report back.
    pub proof fn lemma_round_trip(self)
        ensures
            BootMouseReport::unpacked(self.packed()) == Ok::<BootMouseReport, PackingError>(self),
    {
        lemma_signed_byte_round_trip(self.x, 0);
        lemma_signed_byte_round_trip(self.y, 0);
    }

    /// Packing an unpacked report gives the bytes back: the encoding has no spare bits.
    pub proof fn lemma_bytes_round_trip(bytes: Seq<u8>)
        requires
            bytes.len() == 3,
        ensures
            BootMouseReport::unpacked(bytes).unwrap().packed() == bytes,
    {
        lemma_signed_byte_round_trip(0, bytes[1]);
        lemma_signed_byte_round_trip(0, bytes[2]);
        assert(BootMouseReport::unpacked(bytes).unwrap().packed() =~= bytes);
    }
}

impl Default for BootMouseReport {
    fn default() -> (report: BootMouseReport)
        ensures
            report == (BootMouseReport { buttons: 0, x: 0, y: 0 }),
    {
        BootMouseReport { buttons: 0, x: 0, y: 0 }
    }
}

/// The boot mouse report as a list of fields, written with the field encoding of
/// [`crate::marshal`].
#[derive(Clone, Copy, Debug, PartialEq, Eq, Structural)]
pub struct BootMouseReportNew {
    /// The buttons, button 1 in bit 0.
    pub buttons: u8,
    /// Movement to the right.
    pub x: i8,
    /// Movement towards the user.
    pub y: i8,
}

impl BootMouseReportNew {
    /// Length of the serialized report in bytes.
    pub const SIZE: usize = 3;

    /// The serialized report: the fields in order, each at its own width.
    pub open spec fn serialized(self) -> Seq<u8> {
        seq![self.buttons, signed_byte(self.x), signed_byte(self.y)]
    }

    /// The report descriptor.
    pub fn desc() -> (descriptor: &'static [u8])
        ensures
            descriptor@ == BOOT_MOUSE_FIELDS_REPORT_DESCRIPTOR@,
    {
        &BOOT_MOUSE_FIELDS_REPORT_DESCRIPTOR
    }

    /// Writes the report to the front of `buf` and returns the number of bytes written.
    ///
    /// Fails with `EndOfStream` exactly when `buf` is shorter than the report; `buf` is
    /// then untouched.
    pub fn serialize(&self, buf: &mut [u8]) -> (result: Result<usize, MarshalError>)
        ensures
            result == if old(buf)@.len() < 3 {
                Err::<usize, MarshalError>(MarshalError::EndOfStream)
            } else {
                Ok::<usize, MarshalError>(3)
            },
            final(buf)@ == if old(buf)@.len() < 3 {
                old(buf)@
            } else {
                self.serialized() + old(buf)@.skip(3)
            },
    {
        if buf.len() < 3 {
            return Err(MarshalError::EndOfStream);
        }
        let at = put_u8(buf, 0, self.buttons)?;
        let at = put_i8(buf, at, self.x)?;
        let at = put_i8(buf, at, self.y)?;
        assert(buf@ =~= self.serialized() + old(buf)@.skip(3));
        Ok(at)
    }
}

impl Default for BootMouseReportNew {
    fn default() -> (report: BootMouseReportNew)
        ensures
            report == (BootMouseReportNew { buttons: 0, x: 0, y: 0 }),
    {
        BootMouseReportNew { buttons: 0, x: 0, y: 0 }
    }
}

/// The report of a mouse with eight buttons, a wheel and a pan control.
#[derive(Clone, Copy, Debug, PartialEq, Eq, Structural)]
pub struct WheelMouseReport {
    /// The buttons, button 1 in bit 0.
    pub buttons: u8,
    /// Movement to the right.
    pub x: i8,
    /// Movement towards the user.
    pub y: i8,
    /// Movement of the wheel.
    pub vertical_wheel: i8,
    /// Movement of the pan control.
    pub horizontal_wheel: i8,
}

impl WheelMouseReport {
    /// Length of the packed report in bytes.
    pub const SIZE: usize = 5;

    /// The packed report: the buttons, then the four movements in two's complement.
    pub open spec fn packed(self) -> Seq<u8> {
        seq![
            self.buttons,
            signed_byte(self.x),
            signed_byte(self.y),
            signed_byte(self.vertical_wheel),
            signed_byte(self.horizontal_wheel),
        ]
    }

    /// The report that `bytes` encode. Every buffer of the right length encodes one.
    pub open spec fn unpacked(bytes: Seq<u8>) -> Result<WheelMouseReport, PackingError> {
        if bytes.len() != 5 {
            Err(PackingError::BufferSizeMismatch { expected: 5, actual: bytes.len() as usize })
        } else {
            Ok(
                WheelMouseReport {
                    buttons: bytes[0],
                    x: signed_of_byte(bytes[1]),
                    y: signed_of_byte(bytes[2]),
                    vertical_wheel: signed_of_byte(bytes[3]),
                    horizontal_wheel: signed_of_byte(bytes[4]),
                },
            )
        }
    }

    /// Packs the report. Every report can be packed.
    pub fn pack(&self) -> (result: Result<[u8; 5], PackingError>)
        ensures
            result matches Ok(bytes) && bytes@ == self.packed(),
    {
        let bytes = [
            self.buttons,
            byte_of_signed(self.x),
            byte_of_signed(self.y),
            byte_of_signed(self.vertical_wheel),
            byte_of_signed(self.horizontal_wheel),
        ];
        assert(bytes@ =~= self.packed());
        Ok(bytes)
    }

    /// Unpacks a report from a buffer of exactly its size.
    pub fn unpack(bytes: &[u8; 5]) -> (result: Result<WheelMouseReport, PackingError>)
        ensures
            result == WheelMouseReport::unpacked(bytes@),
    {
        Ok(
            WheelMouseReport {
                buttons: bytes[0],
                x: signed_from_byte(bytes[1]),
                y: signed_from_byte(bytes[2]),
                vertical_wheel: signed_from_byte(bytes[3]),
                horizontal_wheel: signed_from_byte(bytes[4]),
            },
        )
    }

    /// Unpacks a report from a slice, which has to have the length of the report.
    pub fn unpack_from_slice(bytes: &[u8]) -> (result: Result<WheelMouseReport, PackingError>)
        ensures
            result == WheelMouseReport::unpacked(bytes@),
    {
        if bytes.len() != 5 {
            Err(PackingError::BufferSizeMismatch { expected: 5, actual: bytes.len() })
        } else {
            Ok(
                WheelMouseReport {
                    buttons: bytes[0],
                    x: signed_from_byte(bytes[1]),
                    y: signed_from_byte(bytes[2]),
                    vertical_wheel: signed_from_byte(bytes[3]),
                    horizontal_wheel: signed_from_byte(bytes[4]),
                },
            )
        }
    }

    /// Unpacking a packed report gives the report back.
    pub proof fn lemma_round_trip(self)
        ensures
            WheelMouseReport::unpacked(self.packed()) == Ok::<WheelMouseReport, PackingError>(
                self,
            ),
    {
        lemma_signed_byte_round_trip(self.x, 0);
        lemma_signed_byte_round_trip(self.y, 0);
        lemma_signed_byte_round_trip(self.vertical_wheel, 0);
        lemma_signed_byte_round_trip(self.horizontal_wheel, 0);
    }

    /// Packing an unpacked report gives the bytes back: the encoding has no spare bits.
    pub proof fn lemma_bytes_round_trip(bytes: Seq<u8>)
        requires
            bytes.len() == 5,
        ensures
            WheelMouseReport::unpacked(bytes).unwrap().packed() == bytes,
    {
        lemma_signed_byte_round_trip(0, bytes[1]);
        lemma_signed_byte_round_trip(0, bytes[2]);
        lemma_signed_byte_round_trip(0, bytes[3]);
        lemma_signed_byte_round_trip(0, bytes[4]);
        assert(WheelMouseReport::unpacked(bytes).unwrap().packed() =~= bytes);
    }
}

impl Default for WheelMouseReport {
    fn default() -> (report: WheelMouseReport)
        ensures
            report == (WheelMouseReport {
                buttons: 0,
                x: 0,
                y: 0,
                vertical_wheel: 0,
                horizontal_wheel: 0,
            }),
    {
        WheelMouseReport { buttons: 0, x: 0, y: 0, vertical_wheel: 0, horizontal_wheel: 0 }
    }
}

/// The wheel mouse report as a list of fields, written with the field encoding of
/// [`crate::marshal`].
#[derive(Clone, Copy, Debug, PartialEq, Eq, Structural)]
pub struct WheelMouseReportNew {
    /// The buttons, button 1 in bit 0.
    pub buttons: u8,
    /// Movement to the right.
    pub x: i8,
    /// Movement towards the user.
    pub y: i8,
    /// Movement of the wheel.
    pub vertical_wheel: i8,
    /// Movement of the pan control.
    pub horizontal_wheel: i8,
}

impl WheelMouseReportNew {
    /// Length of the serialized report in bytes.
    pub const SIZE: usize = 5;

    /// The serialized report: the fields in order, each at its own width.
    pub open spec fn serialized(self) -> Seq<u8> {
        seq![
            self.buttons,
            signed_byte(self.x),
            signed_byte(self.y),
            signed_byte(self.vertical_wheel),
            signed_byte(self.horizontal_wheel),
        ]
    }

    /// The report descriptor.
    pub fn desc() -> (descriptor: &'static [u8])
        ensures
            descriptor@ == WHEEL_MOUSE_FIELDS_REPORT_DESCRIPTOR@,
    {
        &WHEEL_MOUSE_FIELDS_REPORT_DESCRIPTOR
    }

    /// Writes the report to the front of `buf` and returns the number of bytes written.
    ///
    /// Fails with `EndOfStream` exactly when `buf` is shorter than the report; `buf` is
    /// then untouched.
    pub fn serialize(&self, buf: &mut [u8]) -> (result: Result<usize, MarshalError>)
        ensures
            result == if old(buf)@.len() < 5 {
                Err::<usize, MarshalError>(MarshalError::EndOfStream)
            } else {
                Ok::<usize, MarshalError>(5)
            },
            final(buf)@ == if old(buf)@.len() < 5 {
                old(buf)@
            } else {
                self.serialized() + old(buf)@.skip(5)
            },
    {
        if buf.len() < 5 {
            return Err(MarshalError::EndOfStream);
        }
        let at = put_u8(buf, 0, self.buttons)?;
        let at = put_i8(buf, at, self.x)?;
        let at = put_i8(buf, at, self.y)?;
        let at = put_i8(buf, at, self.vertical_wheel)?;
        let at = put_i8(buf, at, self.horizontal_wheel)?;
        assert(buf@ =~= self.serialized() + old(buf)@.skip(5));
        Ok(at)
    }
}

impl Default for WheelMouseReportNew {
    fn default() -> (report: WheelMouseReportNew)
        ensures
            report == (WheelMouseReportNew {
                buttons: 0,
                x: 0,
                y: 0,
                vertical_wheel: 0,
                horizontal_wheel: 0,
            }),
    {
        WheelMouseReportNew { buttons: 0, x: 0, y: 0, vertical_wheel: 0, horizontal_wheel: 0 }
    }
}

/// The settings of a mouse interface: a boot mouse without idle reports, with an 8-byte
/// IN endpoint polled every 10 ms and no OUT endpoint.
pub open spec fn mouse_config(
    report_descriptor: &'static [u8],
    description: &'static str,
) -> RawInterfaceConfig {
    RawInterfaceConfig {
        report_descriptor,
        description: Some(description),
        protocol: InterfaceProtocol::Mouse,
        idle_default: 0,
        out_endpoint: None,
        in_endpoint: EndpointConfig { poll_interval: 10, max_packet_size: UsbPacketSize::Bytes8 },
    }
}

/// What `write_report` of a mouse answers when the IN endpoint answered `written`: the
/// number of bytes is dropped, `WouldBlock` keeps its meaning and every other failure
/// is passed on.
pub open spec fn mouse_write_outcome(written: Result<usize, crate::usb::UsbError>) -> Result<
    (),
    UsbHidError,
> {
    match written {
        Ok(_) => Ok(()),
        Err(error) => Err(UsbHidError::of_usb_error(error)),
    }
}

/// Interface of a boot mouse.
#[derive(Debug)]
pub struct BootMouseInterface {
    inner: RawInterface,
}

impl View for BootMouseInterface {
    type V = RawInterfaceView;

    closed spec fn view(&self) -> RawInterfaceView {
        self.inner@
    }
}

impl BootMouseInterface {
    /// Wraps an allocated raw interface.
    pub fn new(interface: RawInterface) -> (mouse: BootMouseInterface)
        ensures
            mouse@ == interface@,
    {
        BootMouseInterface { inner: interface }
    }

    /// The raw interface underneath.
    pub fn raw(&self) -> (raw: &RawInterface)
        ensures
            raw@ == self@,
    {
        &self.inner
    }

    /// The raw interface underneath, for the dispatcher to update.
    pub fn raw_mut(&mut self) -> (raw: &mut RawInterface)
        ensures
            raw@ == old(self)@,
            final(self)@ == final(raw)@,
    {
        &mut self.inner
    }

    /// Reports buttons and movement to the host.
    ///
    /// Fails with `WouldBlock` while the IN endpoint still holds an earlier report; the
    /// report is then not queued and has to be written again.
    pub fn write_report(&mut self, report: &BootMouseReport) -> (result: Result<(), UsbHidError>)
        ensures
            result == mouse_write_outcome(old(self)@.in_endpoint.put_result(report.packed())),
            final(self)@ == old(self)@.write_report(report.packed()),
    {
        let data = match report.pack() {
            Ok(data) => data,
            Err(_) => {
                return Err(UsbHidError::SerializationError);
            },
        };
        match self.inner.write_report(data.as_slice()) {
            Ok(_) => Ok(()),
            Err(error) => Err(crate::interface::managed::usb_hid_error(error)),
        }
    }

    /// The settings of a boot mouse, see [`mouse_config`].
    pub fn default_config() -> (config: WrappedInterfaceConfig)
        ensures
            config.kind == InterfaceKind::BootMouse,
            config.inner.report_descriptor@ == BOOT_MOUSE_REPORT_DESCRIPTOR@,
            config.inner == mouse_config(config.inner.report_descriptor, "Mouse"),
    {
        let builder = RawInterfaceBuilder::new(&BOOT_MOUSE_REPORT_DESCRIPTOR).boot_device(
            InterfaceProtocol::Mouse,
        ).description("Mouse").in_endpoint(UsbPacketSize::Bytes8, 10).unwrap().without_out_endpoint();
        WrappedInterfaceConfig::new(InterfaceKind::BootMouse, builder.build())
    }
}

/// Interface of a mouse with wheel and pan.
#[derive(Debug)]
pub struct WheelMouseInterface {
    inner: RawInterface,
}

impl View for WheelMouseInterface {
    type V = RawInterfaceView;

    closed spec fn view(&self) -> RawInterfaceView {
        self.inner@
    }
}

impl WheelMouseInterface {
    /// Wraps an allocated raw interface.
    pub fn new(interface: RawInterface) -> (mouse: WheelMouseInterface)
        ensures
            mouse@ == interface@,
    {
        WheelMouseInterface { inner: interface }
    }

    /// The raw interface underneath.
    pub fn raw(&self) -> (raw: &RawInterface)
        ensures
            raw@ == self@,
    {
        &self.inner
    }

    /// The raw interface underneath, for the dispatcher to update.
    pub fn raw_mut(&mut self) -> (raw: &mut RawInterface)
        ensures
            raw@ == old(self)@,
            final(self)@ == final(raw)@,
    {
        &mut self.inner
    }

    /// Reports buttons and movement to the host.
    ///
    /// Fails with `WouldBlock` while the IN endpoint still holds an earlier report; the
    /// report is then not queued and has to be written again.
    pub fn write_report(&mut self, report: &WheelMouseReport) -> (result: Result<(), UsbHidError>)
        ensures
            result == mouse_write_outcome(old(self)@.in_endpoint.put_result(report.packed())),
            final(self)@ == old(self)@.write_report(report.packed()),
    {
        let data = match report.pack() {
            Ok(data) => data,
            Err(_) => {
                return Err(UsbHidError::SerializationError);
            },
        };
        match self.inner.write_report(data.as_slice()) {
            Ok(_) => Ok(()),
            Err(error) => Err(crate::interface::managed::usb_hid_error(error)),
        }
    }

    /// The settings of a wheel mouse, see [`mouse_config`].
    pub fn default_config() -> (config: WrappedInterfaceConfig)
        ensures
            config.kind == InterfaceKind::WheelMouse,
            config.inner.report_descriptor@ == WHEEL_MOUSE_REPORT_DESCRIPTOR@,
            config.inner == mouse_config(config.inner.report_descriptor, "Wheel Mouse"),
    {
        let builder = RawInterfaceBuilder::new(&WHEEL_MOUSE_REPORT_DESCRIPTOR).boot_device(
            InterfaceProtocol::Mouse,
        ).description("Wheel Mouse").in_endpoint(
            UsbPacketSize::Bytes8,
            10,
        ).unwrap().without_out_endpoint();
        WrappedInterfaceConfig::new(InterfaceKind::WheelMouse, builder.build())
    }
}

} // verus!
