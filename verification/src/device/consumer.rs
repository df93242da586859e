//!HID consumer control devices

use crate::hid_class::descriptor::InterfaceProtocol;
use crate::hid_class::UsbPacketSize;
use crate::interface::raw::{
    EndpointConfig, RawInterface, RawInterfaceBuilder, RawInterfaceConfig, RawInterfaceView,
};
use crate::interface::{InterfaceKind, WrappedInterfaceConfig};
use crate::codec::{high_byte, low_byte};
use crate::marshal::{put_u16, put_u8, MarshalError};
use crate::usb::UsbError;
use vstd::prelude::*;

verus! {

/// Consumer control report descriptor - Four `u16` consumer control usage codes as an array (8 bytes)
pub const MULTIPLE_CODE_REPORT_DESCRIPTOR: [u8; 23] = [
    0x05, 0x0C,                    // Usage Page (Consumer)
    0x09, 0x01,                    // Usage (Consumer Control)
    0xA1, 0x01,                    // Collection (Application)
    0x75, 0x10,                    //     Report Size(16)
    0x95, 0x04,                    //     Report Count(4)
    0x15, 0x00,                    //     Logical Minimum(0)
    0x26, 0x9C, 0x02,              //     Logical Maximum(0x029C)
    0x19, 0x00,                    //     Usage Minimum(0)
    0x2A, 0x9C, 0x02,              //     Usage Maximum(0x029C)
    0x81, 0x00,                    //     Input (Array, Data, Variable)
    0xC0,                          // End Collection
];

/// Fixed functionality consumer control report descriptor
///
/// One bit each for seven functions of a media keyboard, see [`FixedFunctionReport`].
pub const FIXED_FUNCTION_REPORT_DESCRIPTOR: [u8; 37] = [
    0x05, 0x0C,                    //        Usage Page (Consumer Devices)
    0x09, 0x01,                    //        Usage (Consumer Control)
    0xA1, 0x01,                    //        Collection (Application)
    0x05, 0x0C,                    //            Usage Page (Consumer Devices)
    0x09, 0xB5,                    //            Usage (Scan Next Track)
    0x09, 0xB6,                    //            Usage (Scan Previous Track)
    0x09, 0xB7,                    //            Usage (Stop)
    0x09, 0xCD,                    //            Usage (Play/Pause)
    0x09, 0xE2,                    //            Usage (Mute)
    0x09, 0xE9,                    //            Usage (Volume Increment)
    0x09, 0xEA,                    //            Usage (Volume Decrement)
    0x15, 0x00,                    //            Logical Minimum (0)
    0x25, 0x01,                    //            Logical Maximum (1)
    0x75, 0x01,                    //            Report Size (1)
    0x95, 0x07,                    //            Report Count (7)
    0x81, 0x02,                    //            Input (Data,Var,Abs,NWrp,Lin,Pref,NNul,Bit)
    0x95, 0x01,                    //            Report Count (1)
    0x81, 0x03,                    //            Input (Const,Var,Abs)
    0xC0,                          //        End Collection
];

/// Consumer control report descriptor - Four `u16` consumer control usage codes as an array (8 bytes)
#[derive(Clone, Copy, Debug, PartialEq, Eq)]
pub struct MultipleConsumerReport {
    /// The usage codes of the controls in use; 0 for an unused entry.
    pub codes: [u16; 4],
}

impl MultipleConsumerReport {
    /// Length of the serialized report in bytes.
    pub const SIZE: usize = 8;

    /// The serialized report: the four codes in order, the low byte of each first.
    pub open spec fn serialized(self) -> Seq<u8> {
        seq![
            low_byte(self.codes[0]),
            high_byte(self.codes[0]),
            low_byte(self.codes[1]),
            high_byte(self.codes[1]),
            low_byte(self.codes[2]),
            high_byte(self.codes[2]),
            low_byte(self.codes[3]),
            high_byte(self.codes[3]),
        ]
    }

    /// The report descriptor.
    pub fn desc() -> (descriptor: &'static [u8])
        ensures
            descriptor@ == MULTIPLE_CODE_REPORT_DESCRIPTOR@,
    {
        &MULTIPLE_CODE_REPORT_DESCRIPTOR
    }

    /// Writes the report to the front of `buf` and returns the number of bytes written.
    ///
    /// Fails with `EndOfStream` exactly when `buf` is shorter than the report; `buf` is
    /// then untouched.
    pub fn serialize(&self, buf: &mut [u8]) -> (result: Result<usize, MarshalError>)
        ensures
            result == if old(buf)@.len() < 8 {
                Err::<usize, MarshalError>(MarshalError::EndOfStream)
            } else {
                Ok::<usize, MarshalError>(8)
            },
            final(buf)@ == if old(buf)@.len() < 8 {
                old(buf)@
            } else {
                self.serialized() + old(buf)@.skip(8)
            },
    {
        if buf.len() < 8 {
            return Err(MarshalError::EndOfStream);
        }
        let at = put_u16(buf, 0, self.codes[0])?;
        let at = put_u16(buf, at, self.codes[1])?;
        let at = put_u16(buf, at, self.codes[2])?;
        let at = put_u16(buf, at, self.codes[3])?;
        assert(buf@ =~= self.serialized() + old(buf)@.skip(8));
        Ok(at)
    }
}

impl Default for MultipleConsumerReport {
    fn default() -> (report: MultipleConsumerReport)
        ensures
            report.codes@ == seq![0u16, 0u16, 0u16, 0u16],
    {
        let codes = [0u16, 0u16, 0u16, 0u16];
        assert(codes@ =~= seq![0u16, 0u16, 0u16, 0u16]);
        MultipleConsumerReport { codes }
    }
}

/// Fixed functionality consumer control report
///
/// Single bit packed `u8` report
/// * Bit 0 - Scan Next Track
/// * Bit 1 - Scan Previous Track
/// * Bit 2 - Stop
/// * Bit 3 - Play/Pause
/// * Bit 4 - Mute
/// * Bit 5 - Volume Increment
/// * Bit 6 - Volume Decrement
/// * Bit 7 - Reserved
#[derive(Clone, Copy, Debug, PartialEq, Eq, Structural)]
pub struct FixedFunctionReport {
    /// One bit for each function.
    pub codes: u8,
}

impl FixedFunctionReport {
    /// Length of the serialized report in bytes.
    pub const SIZE: usize = 1;

    /// The serialized report: the one byte of `codes`.
    pub open spec fn serialized(self) -> Seq<u8> {
        seq![self.codes]
    }

    /// The report descriptor.
    pub fn desc() -> (descriptor: &'static [u8])
        ensures
            descriptor@ == FIXED_FUNCTION_REPORT_DESCRIPTOR@,
    {
        &FIXED_FUNCTION_REPORT_DESCRIPTOR
    }

    /// Writes the report to the front of `buf` and returns the number of bytes written.
    ///
    /// Fails with `EndOfStream` exactly when `buf` is empty.
    pub fn serialize(&self, buf: &mut [u8]) -> (result: Result<usize, MarshalError>)
        ensures
            result == if old(buf)@.len() < 1 {
                Err::<usize, MarshalError>(MarshalError::EndOfStream)
            } else {
                Ok::<usize, MarshalError>(1)
            },
            final(buf)@ == if old(buf)@.len() < 1 {
                old(buf)@
            } else {
                self.serialized() + old(buf)@.skip(1)
            },
    {
        if buf.len() < 1 {
            return Err(MarshalError::EndOfStream);
        }
        let at = put_u8(buf, 0, self.codes)?;
        assert(buf@ =~= self.serialized() + old(buf)@.skip(1));
        Ok(at)
    }
}

impl Default for FixedFunctionReport {
    fn default() -> (report: FixedFunctionReport)
        ensures
            report == (FixedFunctionReport { codes: 0 }),
    {
        FixedFunctionReport { codes: 0 }
    }
}

/// The settings of a consumer control interface: no boot protocol, no idle reports, an
/// 8-byte IN endpoint polled every 50 ms and no OUT endpoint.
pub open spec fn consumer_config(report_descriptor: &'static [u8]) -> RawInterfaceConfig {
    RawInterfaceConfig {
        report_descriptor,
        description: Some("Consumer Control"),
        protocol: InterfaceProtocol::NoProtocol,
        idle_default: 0,
        out_endpoint: None,
        in_endpoint: EndpointConfig { poll_interval: 50, max_packet_size: UsbPacketSize::Bytes8 },
    }
}

/// Interface of a consumer control that reports usage codes.
#[derive(Debug)]
pub struct ConsumerControlInterface {
    inner: RawInterface,
}

impl View for ConsumerControlInterface {
    type V = RawInterfaceView;

    closed spec fn view(&self) -> RawInterfaceView {
        self.inner@
    }
}

impl ConsumerControlInterface {
    /// Wraps an allocated raw interface.
    pub fn new(interface: RawInterface) -> (control: ConsumerControlInterface)
        ensures
            control@ == interface@,
    {
        ConsumerControlInterface { inner: interface }
    }

    /// The raw interface underneath.
    pub fn raw(&self) -> (raw: &RawInterface)
        ensures
            raw@ == self@,
    {
        &self.inner
    }

    /// The raw interface underneath, for the dispatcher to update.
    pub fn raw_mut(&mut self) -> (raw: &mut RawInterface)
        ensures
            raw@ == old(self)@,
            final(self)@ == final(raw)@,
    {
        &mut self.inner
    }

    /// Reports the controls in use to the host and returns the number of bytes queued.
    ///
    /// Fails with `WouldBlock` while the IN endpoint still holds an earlier report; the
    /// report is then not queued and has to be written again.
    pub fn write_report(&mut self, report: &MultipleConsumerReport) -> (result: Result<
        usize,
        UsbError,
    >)
        ensures
            result == old(self)@.in_endpoint.put_result(report.serialized()),
            final(self)@ == old(self)@.write_report(report.serialized()),
    {
        let mut data = [0u8;8];
        let size = match report.serialize(&mut data) {
            Ok(size) => size,
            Err(_) => {
                return Err(UsbError::ParseError);
            },
        };
        let written = vstd::slice::slice_subrange(data.as_slice(), 0, size);
        assert(written@ =~= report.serialized());
        self.inner.write_report(written)
    }

    /// The settings of the interface, see [`consumer_config`].
    pub fn default_config() -> (config: WrappedInterfaceConfig)
        ensures
            config.kind == InterfaceKind::ConsumerControl,
            config.inner.report_descriptor@ == MULTIPLE_CODE_REPORT_DESCRIPTOR@,
            config.inner == consumer_config(config.inner.report_descriptor),
    {
        let builder = RawInterfaceBuilder::new(&MULTIPLE_CODE_REPORT_DESCRIPTOR).description(
            "Consumer Control",
        ).in_endpoint(UsbPacketSize::Bytes8, 50).unwrap().without_out_endpoint();
        WrappedInterfaceConfig::new(InterfaceKind::ConsumerControl, builder.build())
    }
}

/// Interface of a consumer control with a fixed set of functions.
#[derive(Debug)]
pub struct ConsumerControlFixedInterface {
    inner: RawInterface,
}

impl View for ConsumerControlFixedInterface {
    type V = RawInterfaceView;

    closed spec fn view(&self) -> RawInterfaceView {
        self.inner@
    }
}

impl ConsumerControlFixedInterface {
    /// Wraps an allocated raw interface.
    pub fn new(interface: RawInterface) -> (control: ConsumerControlFixedInterface)
        ensures
            control@ == interface@,
    {
        ConsumerControlFixedInterface { inner: interface }
    }

    /// The raw interface underneath.
    pub fn raw(&self) -> (raw: &RawInterface)
        ensures
            raw@ == self@,
    {
        &self.inner
    }

    /// The raw interface underneath, for the dispatcher to update.
    pub fn raw_mut(&mut self) -> (raw: &mut RawInterface)
        ensures
            raw@ == old(self)@,
            final(self)@ == final(raw)@,
    {
        &mut self.inner
    }

    /// Reports the functions in use to the host and returns the number of bytes queued.
    ///
    /// Fails with `WouldBlock` while the IN endpoint still holds an earlier report; the
    /// report is then not queued and has to be written again.
    pub fn write_report(&mut self, report: &FixedFunctionReport) -> (result: Result<
        usize,
        UsbError,
    >)
        ensures
            result == old(self)@.in_endpoint.put_result(report.serialized()),
            final(self)@ == old(self)@.write_report(report.serialized()),
    {
        let mut data = [0u8;1];
        let size = match report.serialize(&mut data) {
            Ok(size) => size,
            Err(_) => {
                return Err(UsbError::ParseError);
            },
        };
        let written = vstd::slice::slice_subrange(data.as_slice(), 0, size);
        assert(written@ =~= report.serialized());
        self.inner.write_report(written)
    }

    /// The settings of the interface, see [`consumer_config`].
    pub fn default_config() -> (config: WrappedInterfaceConfig)
        ensures
            config.kind == InterfaceKind::ConsumerControlFixed,
            config.inner.report_descriptor@ == FIXED_FUNCTION_REPORT_DESCRIPTOR@,
            config.inner == consumer_config(config.inner.report_descriptor),
    {
        let builder = RawInterfaceBuilder::new(FixedFunctionReport::desc()).description(
            "Consumer Control",
        ).in_endpoint(UsbPacketSize::Bytes8, 50).unwrap().without_out_endpoint();
        WrappedInterfaceConfig::new(InterfaceKind::ConsumerControlFixed, builder.build())
    }
}

} // verus!
