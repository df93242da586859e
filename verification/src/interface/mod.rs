//! Interfaces: the state the class keeps for each HID function of the device.

pub mod managed;
pub mod raw;

use crate::device::consumer::{ConsumerControlFixedInterface, ConsumerControlInterface};
use crate::device::keyboard::{BootKeyboardInterface, NKROBootKeyboardInterface};
use crate::device::mouse::{BootMouseInterface, WheelMouseInterface};
use crate::interface::managed::{IdleManagerView, ManagedInterface, ManagedInterfaceView};
use crate::interface::raw::{RawInterface, RawInterfaceConfig, RawInterfaceView};
use crate::UsbHidError;
use vstd::prelude::*;

verus! {

/// The devices an interface can be.
#[derive(Clone, Copy, Debug, PartialEq, Eq, Structural)]
pub enum InterfaceKind {
    /// A boot keyboard.
    BootKeyboard,
    /// A keyboard with a key bitmap after the boot report.
    NkroBootKeyboard,
    /// A boot mouse.
    BootMouse,
    /// A mouse with wheel and pan.
    WheelMouse,
    /// A consumer control that reports usage codes.
    ConsumerControl,
    /// A consumer control with a fixed set of functions.
    ConsumerControlFixed,
}

impl InterfaceKind {
    /// Whether interfaces of this kind run an idle timer. Keyboards do.
    pub open spec fn is_managed(self) -> bool {
        self == InterfaceKind::BootKeyboard || self == InterfaceKind::NkroBootKeyboard
    }
}

/// The settings of an interface together with the device it is to become.
#[derive(Clone, Copy, Debug)]
pub struct WrappedInterfaceConfig {
    /// The device the interface becomes when it is allocated.
    pub kind: InterfaceKind,
    /// The settings of the raw interface underneath.
    pub inner: RawInterfaceConfig,
}

impl WrappedInterfaceConfig {
    /// Puts the settings of a raw interface together with the device it is to become.
    pub fn new(kind: InterfaceKind, inner: RawInterfaceConfig) -> (config: WrappedInterfaceConfig)
        ensures
            config == (WrappedInterfaceConfig { kind, inner }),
    {
        WrappedInterfaceConfig { kind, inner }
    }
}

/// The state of an [`Interface`] as plain values.
pub struct InterfaceView {
    /// The device the interface is.
    pub kind: InterfaceKind,
    /// The raw interface underneath.
    pub raw: RawInterfaceView,
    /// The idle timer, for the kinds that run one.
    pub idle: Option<IdleManagerView>,
}

impl InterfaceView {
    /// The state of a freshly allocated interface.
    pub open spec fn allocated(
        config: WrappedInterfaceConfig,
        id: u8,
        description_index: Option<u8>,
    ) -> InterfaceView {
        InterfaceView {
            kind: config.kind,
            raw: RawInterfaceView::allocated(config.inner, id, description_index),
            idle: if config.kind.is_managed() {
                Some(IdleManagerView { last_report: None, elapsed: 0 })
            } else {
                None
            },
        }
    }

    /// The same interface with another state of the raw interface underneath.
    pub open spec fn with_raw(self, raw: RawInterfaceView) -> InterfaceView {
        InterfaceView { raw, ..self }
    }

    /// The interface with its idle timer, for the kinds that run one.
    pub open spec fn managed(self) -> Option<ManagedInterfaceView> {
        match self.idle {
            Some(idle) => Some(ManagedInterfaceView { raw: self.raw, idle }),
            None => None,
        }
    }

    /// The state after one tick: managed interfaces advance their idle timer, the others
    /// stay as they are.
    pub open spec fn tick(self) -> InterfaceView {
        match self.managed() {
            Some(managed) => InterfaceView {
                raw: managed.tick().raw,
                idle: Some(managed.tick().idle),
                ..self
            },
            None => self,
        }
    }

    /// The answer of the next tick.
    pub open spec fn tick_result(self) -> Result<(), UsbHidError> {
        match self.managed() {
            Some(managed) => managed.tick_result(),
            None => Ok(()),
        }
    }
}

/// An interface of any of the kinds this crate implements.
#[derive(Debug)]
pub enum Interface {
    /// A boot keyboard.
    BootKeyboard(BootKeyboardInterface),
    /// A keyboard with a key bitmap after the boot report.
    NkroBootKeyboard(NKROBootKeyboardInterface),
    /// A boot mouse.
    BootMouse(BootMouseInterface),
    /// A mouse with wheel and pan.
    WheelMouse(WheelMouseInterface),
    /// A consumer control that reports usage codes.
    ConsumerControl(ConsumerControlInterface),
    /// A consumer control with a fixed set of functions.
    ConsumerControlFixed(ConsumerControlFixedInterface),
}

impl View for Interface {
    type V = InterfaceView;

    open spec fn view(&self) -> InterfaceView {
        match self {
            Interface::BootKeyboard(keyboard) => InterfaceView {
                kind: InterfaceKind::BootKeyboard,
                raw: keyboard@.raw,
                idle: Some(keyboard@.idle),
            },
            Interface::NkroBootKeyboard(keyboard) => InterfaceView {
                kind: InterfaceKind::NkroBootKeyboard,
                raw: keyboard@.raw,
                idle: Some(keyboard@.idle),
            },
            Interface::BootMouse(mouse) => InterfaceView {
                kind: InterfaceKind::BootMouse,
                raw: mouse@,
                idle: None,
            },
            Interface::WheelMouse(mouse) => InterfaceView {
                kind: InterfaceKind::WheelMouse,
                raw: mouse@,
                idle: None,
            },
            Interface::ConsumerControl(control) => InterfaceView {
                kind: InterfaceKind::ConsumerControl,
                raw: control@,
                idle: None,
            },
            Interface::ConsumerControlFixed(control) => InterfaceView {
                kind: InterfaceKind::ConsumerControlFixed,
                raw: control@,
                idle: None,
            },
        }
    }
}

impl Interface {
    /// Allocates the interface described by `config`: gives it its number and, for a
    /// named interface, the index of the string descriptor that will carry the name.
    pub fn allocate(config: WrappedInterfaceConfig, id: u8, description_index: Option<u8>) -> (interface:
        Interface)
        ensures
            interface@ == InterfaceView::allocated(config, id, description_index),
    {
        match config.kind {
            InterfaceKind::BootKeyboard => Interface::BootKeyboard(
                BootKeyboardInterface::new(
                    ManagedInterface::new(config.inner, id, description_index),
                ),
            ),
            InterfaceKind::NkroBootKeyboard => Interface::NkroBootKeyboard(
                NKROBootKeyboardInterface::new(
                    ManagedInterface::new(config.inner, id, description_index),
                ),
            ),
            InterfaceKind::BootMouse => Interface::BootMouse(
                BootMouseInterface::new(RawInterface::new(config.inner, id, description_index)),
            ),
            InterfaceKind::WheelMouse => Interface::WheelMouse(
                WheelMouseInterface::new(RawInterface::new(config.inner, id, description_index)),
            ),
            InterfaceKind::ConsumerControl => Interface::ConsumerControl(
                ConsumerControlInterface::new(
                    RawInterface::new(config.inner, id, description_index),
                ),
            ),
            InterfaceKind::ConsumerControlFixed => Interface::ConsumerControlFixed(
                ConsumerControlFixedInterface::new(
                    RawInterface::new(config.inner, id, description_index),
                ),
            ),
        }
    }

    /// The device the interface is.
    pub fn kind(&self) -> (kind: InterfaceKind)
        ensures
            kind == self@.kind,
    {
        match self {
            Interface::BootKeyboard(_) => InterfaceKind::BootKeyboard,
            Interface::NkroBootKeyboard(_) => InterfaceKind::NkroBootKeyboard,
            Interface::BootMouse(_) => InterfaceKind::BootMouse,
            Interface::WheelMouse(_) => InterfaceKind::WheelMouse,
            Interface::ConsumerControl(_) => InterfaceKind::ConsumerControl,
            Interface::ConsumerControlFixed(_) => InterfaceKind::ConsumerControlFixed,
        }
    }

    /// The raw interface underneath.
    pub fn raw(&self) -> (raw: &RawInterface)
        ensures
            raw@ == self@.raw,
    {
        match self {
            Interface::BootKeyboard(keyboard) => keyboard.raw(),
            Interface::NkroBootKeyboard(keyboard) => keyboard.raw(),
            Interface::BootMouse(mouse) => mouse.raw(),
            Interface::WheelMouse(mouse) => mouse.raw(),
            Interface::ConsumerControl(control) => control.raw(),
            Interface::ConsumerControlFixed(control) => control.raw(),
        }
    }

    /// The raw interface underneath, for the dispatcher to update. Nothing else about
    /// the interface changes through it.
    pub fn raw_mut(&mut self) -> (raw: &mut RawInterface)
        ensures
            raw@ == old(self)@.raw,
            final(self)@ == old(self)@.with_raw(final(raw)@),
    {
        match self {
            Interface::BootKeyboard(keyboard) => keyboard.raw_mut(),
            Interface::NkroBootKeyboard(keyboard) => keyboard.raw_mut(),
            Interface::BootMouse(mouse) => mouse.raw_mut(),
            Interface::WheelMouse(mouse) => mouse.raw_mut(),
            Interface::ConsumerControl(control) => control.raw_mut(),
            Interface::ConsumerControlFixed(control) => control.raw_mut(),
        }
    }

    /// Advances the idle timer of a managed interface by one millisecond; see
    /// [`ManagedInterface::tick`]. Does nothing for the other kinds.
    pub fn tick(&mut self) -> (result: Result<(), UsbHidError>)
        ensures
            result == old(self)@.tick_result(),
            final(self)@ == old(self)@.tick(),
    {
        match self {
            Interface::BootKeyboard(keyboard) => keyboard.tick(),
            Interface::NkroBootKeyboard(keyboard) => keyboard.tick(),
            _ => Ok(()),
        }
    }
}

} // verus!
