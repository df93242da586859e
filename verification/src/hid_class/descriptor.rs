//! Numbers of the HID class definition that appear in descriptors and control requests.

use vstd::prelude::*;

verus! {

/// USB class code of a HID interface.
pub const USB_CLASS_HID: u8 = 0x03;

/// HID specification release 1.11, in binary-coded decimal.
pub const SPEC_VERSION_1_11: u16 = 0x0111;

/// Country code of hardware that is not localised.
pub const COUNTRY_CODE_NOT_SUPPORTED: u8 = 0x00;

/// Alternate setting used by every interface of this class.
pub const DEFAULT_ALTERNATE_SETTING: u8 = 0x00;

/// Length in bytes of a HID descriptor that announces one report descriptor.
pub const HID_DESCRIPTOR_LEN: usize = 9;

/// Whether an interface supports the boot protocol.
#[derive(Clone, Copy, Debug, PartialEq, Eq, Structural)]
pub enum InterfaceSubClass {
    /// Report protocol only.
    NoSubClass,
    /// The interface can be driven by a BIOS.
    Boot,
}

impl InterfaceSubClass {
    /// The subclass code in the interface descriptor.
    pub open spec fn code(self) -> u8 {
        match self {
            InterfaceSubClass::NoSubClass => 0x00,
            InterfaceSubClass::Boot => 0x01,
        }
    }

    /// The subclass of a device that implements `protocol`: boot for keyboards and
    /// mice, none otherwise.
    pub open spec fn of_protocol(protocol: InterfaceProtocol) -> InterfaceSubClass {
        match protocol {
            InterfaceProtocol::NoProtocol => InterfaceSubClass::NoSubClass,
            _ => InterfaceSubClass::Boot,
        }
    }

    /// Returns the subclass code in the interface descriptor.
    pub fn as_u8(self) -> (code: u8)
        ensures
            code == self.code(),
    {
        match self {
            InterfaceSubClass::NoSubClass => 0x00,
            InterfaceSubClass::Boot => 0x01,
        }
    }

    /// Returns the subclass of a device that implements `protocol`.
    pub fn from_protocol(protocol: InterfaceProtocol) -> (sub_class: InterfaceSubClass)
        ensures
            sub_class == InterfaceSubClass::of_protocol(protocol),
    {
        match protocol {
            InterfaceProtocol::NoProtocol => InterfaceSubClass::NoSubClass,
            _ => InterfaceSubClass::Boot,
        }
    }
}

/// The boot device an interface can stand in for.
#[derive(Clone, Copy, Debug, PartialEq, Eq, Structural)]
pub enum InterfaceProtocol {
    /// Not a boot device.
    NoProtocol,
    /// A boot keyboard.
    Keyboard,
    /// A boot mouse.
    Mouse,
}

impl InterfaceProtocol {
    /// The protocol code in the interface descriptor.
    pub open spec fn code(self) -> u8 {
        match self {
            InterfaceProtocol::NoProtocol => 0x00,
            InterfaceProtocol::Keyboard => 0x01,
            InterfaceProtocol::Mouse => 0x02,
        }
    }

    /// Returns the protocol code in the interface descriptor.
    pub fn as_u8(self) -> (code: u8)
        ensures
            code == self.code(),
    {
        match self {
            InterfaceProtocol::NoProtocol => 0x00,
            InterfaceProtocol::Keyboard => 0x01,
            InterfaceProtocol::Mouse => 0x02,
        }
    }
}

/// The class descriptors a host can ask an interface for.
#[derive(Clone, Copy, Debug, PartialEq, Eq, Structural)]
pub enum DescriptorType {
    /// The HID descriptor.
    Hid,
    /// The report descriptor.
    Report,
}

impl DescriptorType {
    /// The descriptor type code.
    pub open spec fn code(self) -> u8 {
        match self {
            DescriptorType::Hid => 0x21,
            DescriptorType::Report => 0x22,
        }
    }

    /// The descriptor type with code `code`, if this class serves it.
    pub open spec fn of_code(code: u8) -> Option<DescriptorType> {
        if code == 0x21 {
            Some(DescriptorType::Hid)
        } else if code == 0x22 {
            Some(DescriptorType::Report)
        } else {
            None
        }
    }

    /// Returns the descriptor type code.
    pub fn as_u8(self) -> (code: u8)
        ensures
            code == self.code(),
    {
        match self {
            DescriptorType::Hid => 0x21,
            DescriptorType::Report => 0x22,
        }
    }

    /// Looks a descriptor type code up.
    pub fn from_code(code: u8) -> (descriptor: Option<DescriptorType>)
        ensures
            descriptor == DescriptorType::of_code(code),
    {
        if code == 0x21 {
            Some(DescriptorType::Hid)
        } else if code == 0x22 {
            Some(DescriptorType::Report)
        } else {
            None
        }
    }
}

/// The protocol an interface currently speaks.
#[derive(Clone, Copy, Debug, PartialEq, Eq, Structural)]
pub enum HidProtocol {
    /// The reduced protocol understood by a BIOS.
    Boot,
    /// The protocol described by the report descriptor.
    Report,
}

impl HidProtocol {
    /// The protocol code used by `GetProtocol` and `SetProtocol`.
    pub open spec fn code(self) -> u8 {
        match self {
            HidProtocol::Boot => 0x00,
            HidProtocol::Report => 0x01,
        }
    }

    /// The protocol with code `code`; only `0` and `1` are defined.
    pub open spec fn of_code(code: u8) -> Option<HidProtocol> {
        if code == 0x00 {
            Some(HidProtocol::Boot)
        } else if code == 0x01 {
            Some(HidProtocol::Report)
        } else {
            None
        }
    }

    /// Returns the protocol code.
    pub fn as_u8(self) -> (code: u8)
        ensures
            code == self.code(),
    {
        match self {
            HidProtocol::Boot => 0x00,
            HidProtocol::Report => 0x01,
        }
    }

    /// Looks a protocol code up.
    pub fn from_code(code: u8) -> (protocol: Option<HidProtocol>)
        ensures
            protocol == HidProtocol::of_code(code),
    {
        if code == 0x00 {
            Some(HidProtocol::Boot)
        } else if code == 0x01 {
            Some(HidProtocol::Report)
        } else {
            None
        }
    }
}

impl Default for HidProtocol {
    fn default() -> (protocol: HidProtocol)
        ensures
            protocol == HidProtocol::Report,
    {
        HidProtocol::Report
    }
}

} // verus!
