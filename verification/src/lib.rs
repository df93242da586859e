//! USB Human Interface Device class engine.
//!
//! The engine keeps the state of a set of HID interfaces (keyboard, mouse, consumer
//! control), answers the class's control requests, runs the idle timer and encodes
//! reports bit for bit. It performs no I/O: the firmware glue feeds it control requests
//! and received packets, and carries away the packets and answers it produces.

pub mod codec;
pub mod device;
pub mod hid_class;
pub mod interface;
pub mod marshal;
pub mod page;
pub mod usb;

use crate::usb::UsbError;
use vstd::prelude::*;

verus! {

/// Errors reported to the firmware that writes reports.
#[derive(Clone, Copy, Debug, PartialEq, Eq, Structural)]
pub enum UsbHidError {
    /// The endpoint still holds an earlier report; write again later.
    WouldBlock,
    /// Any other failure of the transport.
    UsbError(UsbError),
    /// The report could not be encoded.
    SerializationError,
}

impl UsbHidError {
    /// The error a transport failure is reported as: `WouldBlock` keeps its meaning, every
    /// other failure is passed on unchanged.
    pub open spec fn of_usb_error(error: UsbError) -> UsbHidError {
        match error {
            UsbError::WouldBlock => UsbHidError::WouldBlock,
            _ => UsbHidError::UsbError(error),
        }
    }
}

impl From<UsbError> for UsbHidError {
    fn from(error: UsbError) -> (out: UsbHidError) {
        match error {
            UsbError::WouldBlock => UsbHidError::WouldBlock,
            _ => UsbHidError::UsbError(error),
        }
    }
}

impl vstd::std_specs::convert::FromSpecImpl<UsbError> for UsbHidError {
    open spec fn obeys_from_spec() -> bool {
        true
    }

    open spec fn from_spec(error: UsbError) -> UsbHidError {
        UsbHidError::of_usb_error(error)
    }
}

} // verus!
