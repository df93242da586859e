use usbd_human_interface_device::device::consumer::{
    ConsumerControlFixedInterface, ConsumerControlInterface, FixedFunctionReport,
    MultipleConsumerReport, FIXED_FUNCTION_REPORT_DESCRIPTOR, MULTIPLE_CODE_REPORT_DESCRIPTOR,
};
use usbd_human_interface_device::device::keyboard::{
    BootKeyboardInterface, KeyboardLedsReport, NKROBootKeyboardInterface,
    BOOT_KEYBOARD_REPORT_DESCRIPTOR, NKRO_BOOT_KEYBOARD_REPORT_DESCRIPTOR,
};
use usbd_human_interface_device::device::mouse::{
    BootMouseInterface, BootMouseReport, WheelMouseInterface, WheelMouseReport,
    BOOT_MOUSE_REPORT_DESCRIPTOR, WHEEL_MOUSE_REPORT_DESCRIPTOR,
};
use usbd_human_interface_device::hid_class::descriptor::{
    HidProtocol, InterfaceProtocol, InterfaceSubClass,
};
use usbd_human_interface_device::hid_class::{UsbHidBuilderError, UsbPacketSize};
use usbd_human_interface_device::interface::managed::{IdleManager, ManagedInterface};
use usbd_human_interface_device::interface::raw::{RawInterface, RawInterfaceBuilder};
use usbd_human_interface_device::interface::{Interface, InterfaceKind};
use usbd_human_interface_device::page::Keyboard;
use usbd_human_interface_device::usb::{PacketBuffer, UsbError};
use usbd_human_interface_device::UsbHidError;

static DESCRIPTOR: [u8; 4] = [0x05, 0x01, 0x09, 0x06];

fn raw_with_out_endpoint() -> RawInterface {
    let config = RawInterfaceBuilder::new(&DESCRIPTOR)
        .description("Test")
        .idle_default(40)
        .unwrap()
        .in_endpoint(UsbPacketSize::Bytes8, 10)
        .unwrap()
        .with_out_endpoint(UsbPacketSize::Bytes16, 100)
        .unwrap()
        .build();
    RawInterface::new(config, 3, Some(7))
}

fn boot_keyboard() -> BootKeyboardInterface {
    let config = BootKeyboardInterface::default_config();
    BootKeyboardInterface::new(ManagedInterface::new(config.inner, 0, Some(4)))
}

#[test]
fn packet_buffer_holds_one_packet() {
    let mut buffer = PacketBuffer::new(4);
    assert_eq!(buffer.capacity(), 4);
    assert!(buffer.is_empty());
    assert_eq!(buffer.put(&[1, 2, 3]), Ok(3));
    assert!(!buffer.is_empty());
    assert_eq!(buffer.put(&[9]), Err(UsbError::WouldBlock));
    assert_eq!(buffer.take(), Some(vec![1, 2, 3]));
    assert_eq!(buffer.take(), None);
    assert_eq!(buffer.put(&[]), Ok(0));
    assert_eq!(buffer.take(), Some(vec![]));
}

#[test]
fn packet_buffer_refuses_long_packets() {
    let mut buffer = PacketBuffer::new(2);
    assert_eq!(buffer.put(&[1, 2, 3]), Err(UsbError::BufferOverflow));
    assert!(buffer.is_empty());
    assert_eq!(buffer.put(&[1, 2]), Ok(2));
    // a full buffer answers WouldBlock before it looks at the length
    assert_eq!(buffer.put(&[1, 2, 3]), Err(UsbError::WouldBlock));
}

#[test]
fn packet_buffer_read_and_copy() {
    let mut buffer = PacketBuffer::new(8);
    let mut data = [0xEEu8; 4];
    assert_eq!(buffer.read(&mut data), Err(UsbError::WouldBlock));
    assert_eq!(buffer.copy_to(&mut data), Err(UsbError::WouldBlock));
    assert_eq!(buffer.put(&[1, 2, 3]), Ok(3));
    let mut short = [0xEEu8; 2];
    assert_eq!(buffer.read(&mut short), Err(UsbError::BufferOverflow));
    assert_eq!(short, [0xEE; 2]);
    assert_eq!(buffer.copy_to(&mut data), Ok(3));
    assert_eq!(data, [1, 2, 3, 0xEE]);
    assert!(!buffer.is_empty());
    let mut again = [0x11u8; 3];
    assert_eq!(buffer.read(&mut again), Ok(3));
    assert_eq!(again, [1, 2, 3]);
    assert!(buffer.is_empty());
    assert_eq!(buffer.put(&[5]), Ok(1));
    buffer.clear();
    assert!(buffer.is_empty());
}

#[test]
fn raw_interface_builder_defaults() {
    let config = RawInterfaceBuilder::new(&DESCRIPTOR).build();
    assert_eq!(config.report_descriptor, &DESCRIPTOR);
    assert_eq!(config.description, None);
    assert_eq!(config.protocol, InterfaceProtocol::NoProtocol);
    assert_eq!(config.idle_default, 0);
    assert_eq!(config.out_endpoint, None);
    assert_eq!(config.in_endpoint.poll_interval, 20);
    assert_eq!(config.in_endpoint.max_packet_size, UsbPacketSize::Bytes8);
}

#[test]
fn raw_interface_builder_settings() {
    let config = RawInterfaceBuilder::new(&DESCRIPTOR)
        .boot_device(InterfaceProtocol::Mouse)
        .description("Pointer")
        .idle_default(1023)
        .unwrap()
        .in_endpoint(UsbPacketSize::Bytes64, 255)
        .unwrap()
        .with_out_endpoint(UsbPacketSize::Bytes32, 0)
        .unwrap()
        .build();
    assert_eq!(config.protocol, InterfaceProtocol::Mouse);
    assert_eq!(config.description, Some("Pointer"));
    // 1023 ms are 255 whole units of 4 ms
    assert_eq!(config.idle_default, 255);
    assert_eq!(config.in_endpoint.poll_interval, 255);
    assert_eq!(config.in_endpoint.max_packet_size, UsbPacketSize::Bytes64);
    let out = config.out_endpoint.unwrap();
    assert_eq!(out.poll_interval, 0);
    assert_eq!(out.max_packet_size, UsbPacketSize::Bytes32);
    let config = RawInterfaceBuilder::new(&DESCRIPTOR)
        .with_out_endpoint(UsbPacketSize::Bytes8, 1)
        .unwrap()
        .without_out_endpoint()
        .build();
    assert_eq!(config.out_endpoint, None);
}

#[test]
fn raw_interface_builder_value_overflow() {
    assert_eq!(
        RawInterfaceBuilder::new(&DESCRIPTOR).idle_default(1024).err(),
        Some(UsbHidBuilderError::ValueOverflow)
    );
    assert_eq!(
        RawInterfaceBuilder::new(&DESCRIPTOR)
            .in_endpoint(UsbPacketSize::Bytes8, 256)
            .err(),
        Some(UsbHidBuilderError::ValueOverflow)
    );
    assert_eq!(
        RawInterfaceBuilder::new(&DESCRIPTOR)
            .with_out_endpoint(UsbPacketSize::Bytes8, 1000)
            .err(),
        Some(UsbHidBuilderError::ValueOverflow)
    );
    assert_eq!(
        RawInterfaceBuilder::new(&DESCRIPTOR)
            .idle_default(500)
            .unwrap()
            .build()
            .idle_default,
        125
    );
}

#[test]
fn raw_interface_starts_at_defaults() {
    let raw = raw_with_out_endpoint();
    assert_eq!(raw.id(), 3);
    assert_eq!(raw.description_index(), Some(7));
    assert_eq!(raw.get_protocol(), HidProtocol::Report);
    assert_eq!(raw.global_idle(), 10);
    assert_eq!(raw.get_idle(0), 10);
    assert_eq!(raw.get_idle(200), 10);
    assert_eq!(raw.report_descriptor(), &DESCRIPTOR);
    assert_eq!(raw.config().idle_default, 10);
    assert_eq!(raw.sub_class(), InterfaceSubClass::NoSubClass);
}

#[test]
fn raw_interface_idle_table() {
    let mut raw = raw_with_out_endpoint();
    raw.set_idle(5, 77);
    assert_eq!(raw.get_idle(5), 77);
    assert_eq!(raw.get_idle(4), 10);
    assert_eq!(raw.get_idle(0), 10);
    // report id 0 addresses every report
    raw.set_idle(0, 20);
    assert_eq!(raw.get_idle(0), 20);
    assert_eq!(raw.get_idle(5), 20);
    assert_eq!(raw.get_idle(255), 20);
    raw.set_idle(255, 1);
    assert_eq!(raw.get_idle(255), 1);
    assert_eq!(raw.global_idle(), 20);
}

#[test]
fn raw_interface_reset_restores_defaults() {
    let mut raw = raw_with_out_endpoint();
    raw.set_idle(0, 99);
    raw.set_idle(9, 3);
    raw.set_protocol(HidProtocol::Boot);
    assert_eq!(raw.write_report(&[1, 2]), Ok(2));
    raw.reset();
    assert_eq!(raw.get_protocol(), HidProtocol::Report);
    assert_eq!(raw.get_idle(0), 10);
    assert_eq!(raw.get_idle(9), 10);
    // a report on its way to the host survives the reset
    assert_eq!(raw.take_in_packet(), Some(vec![1, 2]));
}

#[test]
fn raw_interface_write_report() {
    let mut raw = raw_with_out_endpoint();
    assert_eq!(raw.write_report(&[1, 2, 3]), Ok(3));
    assert_eq!(raw.write_report(&[4]), Err(UsbError::WouldBlock));
    assert_eq!(raw.take_in_packet(), Some(vec![1, 2, 3]));
    assert_eq!(raw.take_in_packet(), None);
    assert_eq!(raw.write_report(&[0; 9]), Err(UsbError::BufferOverflow));
    assert_eq!(raw.take_in_packet(), None);
    assert_eq!(raw.write_report(&[0; 8]), Ok(8));
}

#[test]
fn raw_interface_get_report() {
    let mut raw = raw_with_out_endpoint();
    let mut data = [0u8; 64];
    assert_eq!(raw.get_report(&mut data), Err(UsbError::WouldBlock));
    assert_eq!(raw.write_report(&[7, 8]), Ok(2));
    // the report stays on offer until its delivery is acknowledged
    assert_eq!(raw.get_report(&mut data), Ok(2));
    assert_eq!(&data[..2], &[7, 8]);
    assert_eq!(raw.get_report(&mut [0u8; 1]), Err(UsbError::BufferOverflow));
    assert_eq!(raw.get_report(&mut data), Ok(2));
    // a later report does not replace the one on offer
    assert_eq!(raw.take_in_packet(), Some(vec![7, 8]));
    assert_eq!(raw.write_report(&[9]), Ok(1));
    assert_eq!(raw.get_report(&mut data), Ok(2));
    assert_eq!(raw.get_report_ack(), Ok(()));
    assert_eq!(raw.get_report(&mut data), Err(UsbError::WouldBlock));
    // a report the endpoint refuses is still offered to GetReport
    assert_eq!(raw.write_report(&[5, 5, 5]), Err(UsbError::WouldBlock));
    assert_eq!(raw.get_report(&mut data), Ok(3));
    assert_eq!(&data[..3], &[5, 5, 5]);
}

#[test]
fn raw_interface_read_report() {
    let mut raw = raw_with_out_endpoint();
    let mut data = [0u8; 4];
    assert_eq!(raw.read_report(&mut data), Err(UsbError::WouldBlock));
    assert_eq!(raw.receive_out_packet(&[1, 2]), Ok(2));
    assert_eq!(raw.receive_out_packet(&[3]), Err(UsbError::WouldBlock));
    assert_eq!(raw.set_report(&[9, 9, 9]), Ok(()));
    assert_eq!(raw.set_report(&[8]), Err(UsbError::WouldBlock));
    // the report from SetReport comes first
    assert_eq!(raw.read_report(&mut [0u8; 2]), Err(UsbError::BufferOverflow));
    assert_eq!(raw.read_report(&mut data), Ok(3));
    assert_eq!(data, [9, 9, 9, 0]);
    assert_eq!(raw.read_report(&mut data), Ok(2));
    assert_eq!(data, [1, 2, 9, 0]);
    assert_eq!(raw.read_report(&mut data), Err(UsbError::WouldBlock));
    assert_eq!(raw.receive_out_packet(&[0; 17]), Err(UsbError::BufferOverflow));
    assert_eq!(raw.set_report(&[0; 65]), Err(UsbError::BufferOverflow));
    assert_eq!(raw.set_report(&[0; 64]), Ok(()));
}

#[test]
fn raw_interface_without_out_endpoint() {
    let config = RawInterfaceBuilder::new(&DESCRIPTOR).build();
    let mut raw = RawInterface::new(config, 0, None);
    let mut data = [0u8; 4];
    assert_eq!(raw.read_report(&mut data), Err(UsbError::InvalidEndpoint));
    assert_eq!(raw.receive_out_packet(&[1]), Err(UsbError::InvalidEndpoint));
    // SetReport still reaches the firmware
    assert_eq!(raw.set_report(&[4, 2]), Ok(()));
    assert_eq!(raw.read_report(&mut data), Ok(2));
    assert_eq!(&data[..2], &[4, 2]);
    assert_eq!(raw.read_report(&mut data), Err(UsbError::InvalidEndpoint));
}

#[test]
fn raw_interface_hid_descriptor_body() {
    let raw = raw_with_out_endpoint();
    assert_eq!(raw.hid_descriptor_body(), [0x11, 0x01, 0x00, 0x01, 0x22, 4, 0]);
    let keyboard = boot_keyboard();
    assert_eq!(
        keyboard.raw().hid_descriptor_body(),
        [0x11, 0x01, 0x00, 0x01, 0x22, 65, 0]
    );
    assert_eq!(keyboard.raw().sub_class(), InterfaceSubClass::Boot);
}

#[test]
fn raw_interface_get_string() {
    let raw = raw_with_out_endpoint();
    assert_eq!(raw.get_string(7, 0x0409), Some("Test"));
    assert_eq!(raw.get_string(7, 0), Some("Test"));
    assert_eq!(raw.get_string(6, 0x0409), None);
    let unnamed = RawInterface::new(RawInterfaceBuilder::new(&DESCRIPTOR).build(), 0, None);
    assert_eq!(unnamed.get_string(0, 0x0409), None);
}

#[test]
fn idle_manager_counts_ticks() {
    let mut idle = IdleManager::new();
    assert_eq!(idle.last_report(), None);
    idle.report_written(&[1, 2]);
    assert_eq!(idle.last_report(), Some(&vec![1, 2]));
    // rate 1 is a period of 4 ticks
    let due: Vec<bool> = (0..9).map(|_| idle.tick(1)).collect();
    assert_eq!(
        due,
        vec![false, false, false, true, false, false, false, true, false]
    );
    // rate 0 never is due and restarts the count
    assert!(!idle.tick(0));
    let due: Vec<bool> = (0..4).map(|_| idle.tick(1)).collect();
    assert_eq!(due, vec![false, false, false, true]);
}

#[test]
fn managed_interface_retransmits_every_idle_period() {
    let mut keyboard = boot_keyboard();
    assert_eq!(keyboard.raw().global_idle(), 125);
    assert_eq!(keyboard.write_report(&[Keyboard::A]), Ok(()));
    let report = vec![0, 0, 4, 0, 0, 0, 0, 0];
    assert_eq!(keyboard.raw_mut().take_in_packet(), Some(report.clone()));
    let mut sent_at = Vec::new();
    for tick in 1..=1500 {
        assert_eq!(keyboard.tick(), Ok(()));
        match keyboard.raw_mut().take_in_packet() {
            Some(packet) => {
                assert_eq!(packet, report);
                sent_at.push(tick);
            }
            None => {}
        }
    }
    // rate 125 is 500 ms
    assert_eq!(sent_at, vec![500, 1000, 1500]);
}

#[test]
fn managed_interface_rate_zero_never_retransmits() {
    let mut keyboard = boot_keyboard();
    keyboard.raw_mut().set_idle(0, 0);
    assert_eq!(keyboard.write_report(&[Keyboard::A]), Ok(()));
    assert!(keyboard.raw_mut().take_in_packet().is_some());
    for _ in 0..3000 {
        assert_eq!(keyboard.tick(), Ok(()));
        assert_eq!(keyboard.raw_mut().take_in_packet(), None);
    }
}

#[test]
fn managed_interface_write_restarts_the_period() {
    let mut keyboard = boot_keyboard();
    keyboard.raw_mut().set_idle(0, 2);
    assert_eq!(keyboard.write_report(&[Keyboard::A]), Ok(()));
    keyboard.raw_mut().take_in_packet();
    for _ in 0..7 {
        assert_eq!(keyboard.tick(), Ok(()));
        assert_eq!(keyboard.raw_mut().take_in_packet(), None);
    }
    assert_eq!(keyboard.write_report(&[Keyboard::B]), Ok(()));
    assert_eq!(
        keyboard.raw_mut().take_in_packet(),
        Some(vec![0, 0, 5, 0, 0, 0, 0, 0])
    );
    for _ in 0..7 {
        assert_eq!(keyboard.tick(), Ok(()));
        assert_eq!(keyboard.raw_mut().take_in_packet(), None);
    }
    assert_eq!(keyboard.tick(), Ok(()));
    assert_eq!(
        keyboard.raw_mut().take_in_packet(),
        Some(vec![0, 0, 5, 0, 0, 0, 0, 0])
    );
}

#[test]
fn managed_interface_tick_never_blocks() {
    let mut keyboard = boot_keyboard();
    keyboard.raw_mut().set_idle(0, 1);
    assert_eq!(keyboard.write_report(&[Keyboard::A]), Ok(()));
    // the report is never taken out: the endpoint stays busy
    for _ in 0..3 {
        assert_eq!(keyboard.tick(), Ok(()));
    }
    assert_eq!(keyboard.tick(), Err(UsbHidError::WouldBlock));
    // the skipped repetition is not tried again before the next period ends
    for _ in 0..3 {
        assert_eq!(keyboard.tick(), Ok(()));
    }
    assert_eq!(keyboard.tick(), Err(UsbHidError::WouldBlock));
    assert_eq!(
        keyboard.raw_mut().take_in_packet(),
        Some(vec![0, 0, 4, 0, 0, 0, 0, 0])
    );
}

#[test]
fn managed_interface_without_report_sends_nothing() {
    let mut keyboard = boot_keyboard();
    for _ in 0..1000 {
        assert_eq!(keyboard.tick(), Ok(()));
        assert_eq!(keyboard.raw_mut().take_in_packet(), None);
    }
}

#[test]
fn managed_interface_write_errors() {
    let config = RawInterfaceBuilder::new(&DESCRIPTOR).build();
    let mut managed = ManagedInterface::new(config, 0, None);
    assert_eq!(
        managed.write_report(&[0; 9]),
        Err(UsbHidError::UsbError(UsbError::BufferOverflow))
    );
    assert_eq!(managed.last_report(), None);
    assert_eq!(managed.write_report(&[1]), Ok(1));
    assert_eq!(managed.last_report(), Some(&vec![1]));
    assert_eq!(managed.write_report(&[2]), Err(UsbHidError::WouldBlock));
    // a refused report is not remembered
    assert_eq!(managed.last_report(), Some(&vec![1]));
    assert_eq!(managed.raw().id(), 0);
    assert_eq!(UsbHidError::from(UsbError::WouldBlock), UsbHidError::WouldBlock);
    assert_eq!(
        UsbHidError::from(UsbError::InvalidState),
        UsbHidError::UsbError(UsbError::InvalidState)
    );
    let mut data = [0u8; 2];
    assert_eq!(managed.read_report(&mut data), Err(UsbError::InvalidEndpoint));
}

#[test]
fn keyboard_interface_write_report_is_busy_until_sent() {
    let mut keyboard = boot_keyboard();
    assert_eq!(keyboard.write_report(&[Keyboard::LeftShift, Keyboard::A]), Ok(()));
    assert_eq!(keyboard.write_report(&[Keyboard::B]), Err(UsbHidError::WouldBlock));
    assert_eq!(
        keyboard.raw_mut().take_in_packet(),
        Some(vec![0x02, 0, 4, 0, 0, 0, 0, 0])
    );
    assert_eq!(keyboard.write_report(&[Keyboard::B]), Ok(()));
    assert_eq!(
        keyboard.raw_mut().take_in_packet(),
        Some(vec![0, 0, 5, 0, 0, 0, 0, 0])
    );
}

#[test]
fn keyboard_interface_reads_leds() {
    let mut keyboard = boot_keyboard();
    assert_eq!(keyboard.read_report(), Err(UsbError::WouldBlock));
    assert_eq!(keyboard.raw_mut().receive_out_packet(&[0b0000_0011]), Ok(1));
    assert_eq!(
        keyboard.read_report(),
        Ok(KeyboardLedsReport {
            num_lock: true,
            caps_lock: true,
            scroll_lock: false,
            compose: false,
            kana: false,
        })
    );
    assert_eq!(keyboard.read_report(), Err(UsbError::WouldBlock));
    // a report of two bytes does not fit the one byte of the LED report
    assert_eq!(keyboard.raw_mut().set_report(&[1, 2]), Ok(()));
    assert_eq!(keyboard.read_report(), Err(UsbError::BufferOverflow));
}

#[test]
fn nkro_keyboard_interface() {
    let config = NKROBootKeyboardInterface::default_config();
    let mut keyboard =
        NKROBootKeyboardInterface::new(ManagedInterface::new(config.inner, 1, None));
    assert_eq!(keyboard.write_report(&[Keyboard::A, Keyboard::RightAlt]), Ok(()));
    let mut report = vec![0u8; 25];
    report[0] = 0x40;
    report[2] = 4;
    report[8] = 0x10;
    assert_eq!(keyboard.raw_mut().take_in_packet(), Some(report.clone()));
    keyboard.raw_mut().set_idle(0, 1);
    for _ in 0..3 {
        assert_eq!(keyboard.tick(), Ok(()));
    }
    assert_eq!(keyboard.raw_mut().take_in_packet(), None);
    assert_eq!(keyboard.tick(), Ok(()));
    assert_eq!(keyboard.raw_mut().take_in_packet(), Some(report));
    assert_eq!(keyboard.raw_mut().set_report(&[4]), Ok(()));
    assert!(keyboard.read_report().unwrap().scroll_lock);
    assert_eq!(keyboard.raw().id(), 1);
}

#[test]
fn mouse_interfaces_write_reports() {
    let config = BootMouseInterface::default_config();
    let mut mouse = BootMouseInterface::new(RawInterface::new(config.inner, 2, None));
    let report = BootMouseReport { buttons: 1, x: -1, y: 2 };
    assert_eq!(mouse.write_report(&report), Ok(()));
    assert_eq!(mouse.write_report(&report), Err(UsbHidError::WouldBlock));
    assert_eq!(mouse.raw_mut().take_in_packet(), Some(vec![1, 0xFF, 2]));
    assert_eq!(mouse.raw().id(), 2);
    let config = WheelMouseInterface::default_config();
    let mut mouse = WheelMouseInterface::new(RawInterface::new(config.inner, 3, None));
    let report = WheelMouseReport {
        buttons: 2,
        x: 3,
        y: -4,
        vertical_wheel: 5,
        horizontal_wheel: -6,
    };
    assert_eq!(mouse.write_report(&report), Ok(()));
    assert_eq!(mouse.write_report(&report), Err(UsbHidError::WouldBlock));
    assert_eq!(mouse.raw_mut().take_in_packet(), Some(vec![2, 3, 0xFC, 5, 0xFA]));
    assert_eq!(mouse.raw().id(), 3);
}

#[test]
fn consumer_interfaces_write_reports() {
    let config = ConsumerControlInterface::default_config();
    let mut control = ConsumerControlInterface::new(RawInterface::new(config.inner, 0, None));
    let report = MultipleConsumerReport { codes: [0x00E9, 0x00CD, 0, 0] };
    assert_eq!(control.write_report(&report), Ok(8));
    assert_eq!(control.write_report(&report), Err(UsbError::WouldBlock));
    assert_eq!(
        control.raw_mut().take_in_packet(),
        Some(vec![0xE9, 0, 0xCD, 0, 0, 0, 0, 0])
    );
    assert_eq!(control.raw().id(), 0);
    let config = ConsumerControlFixedInterface::default_config();
    let mut control =
        ConsumerControlFixedInterface::new(RawInterface::new(config.inner, 1, None));
    assert_eq!(control.write_report(&FixedFunctionReport { codes: 0x10 }), Ok(1));
    assert_eq!(
        control.write_report(&FixedFunctionReport { codes: 0 }),
        Err(UsbError::WouldBlock)
    );
    assert_eq!(control.raw_mut().take_in_packet(), Some(vec![0x10]));
    assert_eq!(control.raw().id(), 1);
}

#[test]
fn default_configs() {
    let config = BootKeyboardInterface::default_config();
    assert_eq!(config.kind, InterfaceKind::BootKeyboard);
    assert_eq!(config.inner.report_descriptor, &BOOT_KEYBOARD_REPORT_DESCRIPTOR);
    assert_eq!(config.inner.description, Some("Keyboard"));
    assert_eq!(config.inner.protocol, InterfaceProtocol::Keyboard);
    assert_eq!(config.inner.idle_default, 125);
    assert_eq!(config.inner.in_endpoint.max_packet_size, UsbPacketSize::Bytes8);
    assert_eq!(config.inner.in_endpoint.poll_interval, 10);
    assert_eq!(config.inner.out_endpoint.unwrap().max_packet_size, UsbPacketSize::Bytes8);
    assert_eq!(config.inner.out_endpoint.unwrap().poll_interval, 100);

    let config = NKROBootKeyboardInterface::default_config();
    assert_eq!(config.kind, InterfaceKind::NkroBootKeyboard);
    assert_eq!(config.inner.report_descriptor, &NKRO_BOOT_KEYBOARD_REPORT_DESCRIPTOR);
    assert_eq!(config.inner.description, Some("NKRO Keyboard"));
    assert_eq!(config.inner.protocol, InterfaceProtocol::Keyboard);
    assert_eq!(config.inner.idle_default, 125);
    assert_eq!(config.inner.in_endpoint.max_packet_size, UsbPacketSize::Bytes32);
    assert_eq!(config.inner.in_endpoint.poll_interval, 10);
    assert_eq!(config.inner.out_endpoint.unwrap().poll_interval, 100);

    let config = BootMouseInterface::default_config();
    assert_eq!(config.kind, InterfaceKind::BootMouse);
    assert_eq!(config.inner.report_descriptor, &BOOT_MOUSE_REPORT_DESCRIPTOR);
    assert_eq!(config.inner.description, Some("Mouse"));
    assert_eq!(config.inner.protocol, InterfaceProtocol::Mouse);
    assert_eq!(config.inner.idle_default, 0);
    assert_eq!(config.inner.in_endpoint.poll_interval, 10);
    assert_eq!(config.inner.out_endpoint, None);

    let config = WheelMouseInterface::default_config();
    assert_eq!(config.kind, InterfaceKind::WheelMouse);
    assert_eq!(config.inner.report_descriptor, &WHEEL_MOUSE_REPORT_DESCRIPTOR);
    assert_eq!(config.inner.description, Some("Wheel Mouse"));
    assert_eq!(config.inner.protocol, InterfaceProtocol::Mouse);

    let config = ConsumerControlInterface::default_config();
    assert_eq!(config.kind, InterfaceKind::ConsumerControl);
    assert_eq!(config.inner.report_descriptor, &MULTIPLE_CODE_REPORT_DESCRIPTOR);
    assert_eq!(config.inner.description, Some("Consumer Control"));
    assert_eq!(config.inner.protocol, InterfaceProtocol::NoProtocol);
    assert_eq!(config.inner.in_endpoint.poll_interval, 50);
    assert_eq!(config.inner.out_endpoint, None);

    let config = ConsumerControlFixedInterface::default_config();
    assert_eq!(config.kind, InterfaceKind::ConsumerControlFixed);
    assert_eq!(config.inner.report_descriptor, &FIXED_FUNCTION_REPORT_DESCRIPTOR);
    assert_eq!(config.inner.in_endpoint.max_packet_size, UsbPacketSize::Bytes8);
}

#[test]
fn interface_allocates_every_kind() {
    let configs = [
        BootKeyboardInterface::default_config(),
        NKROBootKeyboardInterface::default_config(),
        BootMouseInterface::default_config(),
        WheelMouseInterface::default_config(),
        ConsumerControlInterface::default_config(),
        ConsumerControlFixedInterface::default_config(),
    ];
    for (n, config) in configs.into_iter().enumerate() {
        let mut interface = Interface::allocate(config, n as u8, Some(n as u8 + 10));
        assert_eq!(interface.kind(), config.kind);
        assert_eq!(interface.raw().id(), n as u8);
        assert_eq!(interface.raw().description_index(), Some(n as u8 + 10));
        assert_eq!(interface.raw().global_idle(), config.inner.idle_default);
        interface.raw_mut().set_protocol(HidProtocol::Boot);
        assert_eq!(interface.raw().get_protocol(), HidProtocol::Boot);
        assert_eq!(interface.tick(), Ok(()));
    }
}

#[test]
fn interface_tick_runs_the_idle_timer_of_keyboards() {
    let mut interface = Interface::allocate(BootKeyboardInterface::default_config(), 0, None);
    interface.raw_mut().set_idle(0, 1);
    match &mut interface {
        Interface::BootKeyboard(keyboard) => {
            assert_eq!(keyboard.write_report(&[Keyboard::Z]), Ok(()))
        }
        _ => unreachable!(),
    }
    assert!(interface.raw_mut().take_in_packet().is_some());
    for _ in 0..3 {
        assert_eq!(interface.tick(), Ok(()));
        assert_eq!(interface.raw_mut().take_in_packet(), None);
    }
    assert_eq!(interface.tick(), Ok(()));
    assert_eq!(
        interface.raw_mut().take_in_packet(),
        Some(vec![0, 0, 0x1D, 0, 0, 0, 0, 0])
    );
}
