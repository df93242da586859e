//! The raw interface: descriptor, idle-rate table, protocol mode and packet buffers of one
//! HID interface, without any knowledge of what its reports mean.

use crate::hid_class::descriptor::{
    DescriptorType, HidProtocol, InterfaceProtocol, InterfaceSubClass,
    COUNTRY_CODE_NOT_SUPPORTED,
};
use crate::hid_class::{UsbHidBuilderError, UsbPacketSize};
use crate::usb::{PacketBuffer, PacketBufferView, UsbError};
use vstd::prelude::*;

verus! {

/// Size of the buffers that carry reports over the control pipe.
pub const CONTROL_BUFFER_LEN: usize = 64;

/// Number of entries of the idle-rate table: one for each report id.
pub const IDLE_TABLE_LEN: usize = 256;

/// Settings of an interrupt endpoint.
#[derive(Clone, Copy, Debug, PartialEq, Eq, Structural)]
pub struct EndpointConfig {
    /// Polling interval in milliseconds.
    pub poll_interval: u8,
    /// Largest packet of the endpoint.
    pub max_packet_size: UsbPacketSize,
}

/// Everything about an interface that is fixed when the device is built.
#[derive(Clone, Copy, Debug)]
pub struct RawInterfaceConfig {
    /// The report descriptor sent to the host.
    pub report_descriptor: &'static [u8],
    /// Human-readable name of the interface, if it has one.
    pub description: Option<&'static str>,
    /// The boot device the interface can stand in for.
    pub protocol: InterfaceProtocol,
    /// Idle rate after a reset, in units of 4 ms.
    pub idle_default: u8,
    /// The OUT endpoint, if the interface has one.
    pub out_endpoint: Option<EndpointConfig>,
    /// The IN endpoint.
    pub in_endpoint: EndpointConfig,
}

/// Builds a [`RawInterfaceConfig`] step by step.
#[must_use]
#[derive(Clone, Copy, Debug)]
pub struct RawInterfaceBuilder {
    config: RawInterfaceConfig,
}

impl View for RawInterfaceBuilder {
    type V = RawInterfaceConfig;

    closed spec fn view(&self) -> RawInterfaceConfig {
        self.config
    }
}

impl RawInterfaceBuilder {
    /// The settings of an interface that has only been given its report descriptor: no
    /// name, no boot protocol, idle reporting off, an 8-byte IN endpoint polled every
    /// 20 ms and no OUT endpoint.
    pub open spec fn initial(report_descriptor: &'static [u8]) -> RawInterfaceConfig {
        RawInterfaceConfig {
            report_descriptor,
            description: None,
            protocol: InterfaceProtocol::NoProtocol,
            idle_default: 0,
            out_endpoint: None,
            in_endpoint: EndpointConfig {
                poll_interval: 20,
                max_packet_size: UsbPacketSize::Bytes8,
            },
        }
    }

    /// Starts from the settings of [`RawInterfaceBuilder::initial`].
    pub fn new(report_descriptor: &'static [u8]) -> (builder: RawInterfaceBuilder)
        ensures
            builder@ == RawInterfaceBuilder::initial(report_descriptor),
    {
        RawInterfaceBuilder {
            config: RawInterfaceConfig {
                report_descriptor,
                description: None,
                protocol: InterfaceProtocol::NoProtocol,
                idle_default: 0,
                out_endpoint: None,
                in_endpoint: EndpointConfig {
                    poll_interval: 20,
                    max_packet_size: UsbPacketSize::Bytes8,
                },
            },
        }
    }

    /// Declares the boot device the interface can stand in for.
    pub fn boot_device(self, protocol: InterfaceProtocol) -> (builder: RawInterfaceBuilder)
        ensures
            builder@ == (RawInterfaceConfig { protocol, ..self@ }),
    {
        let mut builder = self;
        builder.config.protocol = protocol;
        builder
    }

    /// Sets the idle rate after a reset from a period in milliseconds.
    ///
    /// The rate is the period in whole units of 4 ms. Fails with `ValueOverflow` exactly
    /// when that number does not fit a byte, that is for periods of 1024 ms and more.
    pub fn idle_default(self, period_ms: u32) -> (result: Result<
        RawInterfaceBuilder,
        UsbHidBuilderError,
    >)
        ensures
            result.is_ok() <==> period_ms / 4 <= u8::MAX,
            result matches Ok(builder) ==> builder@ == (RawInterfaceConfig {
                idle_default: (period_ms / 4) as u8,
                ..self@
            }),
            result matches Err(error) ==> error == UsbHidBuilderError::ValueOverflow,
    {
        let rate = period_ms / 4;
        if rate > 255 {
            Err(UsbHidBuilderError::ValueOverflow)
        } else {
            let mut builder = self;
            builder.config.idle_default = rate as u8;
            Ok(builder)
        }
    }

    /// Names the interface.
    pub fn description(self, description: &'static str) -> (builder: RawInterfaceBuilder)
        ensures
            builder@ == (RawInterfaceConfig { description: Some(description), ..self@ }),
    {
        let mut builder = self;
        builder.config.description = Some(description);
        builder
    }

    /// Gives the interface an OUT endpoint.
    ///
    /// Fails with `ValueOverflow` exactly when the polling interval does not fit a byte.
    pub fn with_out_endpoint(self, max_packet_size: UsbPacketSize, poll_interval_ms: u32) -> (result:
        Result<RawInterfaceBuilder, UsbHidBuilderError>)
        ensures
            result.is_ok() <==> poll_interval_ms <= u8::MAX,
            result matches Ok(builder) ==> builder@ == (RawInterfaceConfig {
                out_endpoint: Some(
                    EndpointConfig { poll_interval: poll_interval_ms as u8, max_packet_size },
                ),
                ..self@
            }),
            result matches Err(error) ==> error == UsbHidBuilderError::ValueOverflow,
    {
        if poll_interval_ms > 255 {
            Err(UsbHidBuilderError::ValueOverflow)
        } else {
            let mut builder = self;
            builder.config.out_endpoint = Some(
                EndpointConfig { poll_interval: poll_interval_ms as u8, max_packet_size },
            );
            Ok(builder)
        }
    }

    /// Leaves the interface without an OUT endpoint.
    pub fn without_out_endpoint(self) -> (builder: RawInterfaceBuilder)
        ensures
            builder@ == (RawInterfaceConfig { out_endpoint: None, ..self@ }),
    {
        let mut builder = self;
        builder.config.out_endpoint = None;
        builder
    }

    /// Sets packet size and polling interval of the IN endpoint.
    ///
    /// Fails with `ValueOverflow` exactly when the polling interval does not fit a byte.
    pub fn in_endpoint(self, max_packet_size: UsbPacketSize, poll_interval_ms: u32) -> (result:
        Result<RawInterfaceBuilder, UsbHidBuilderError>)
        ensures
            result.is_ok() <==> poll_interval_ms <= u8::MAX,
            result matches Ok(builder) ==> builder@ == (RawInterfaceConfig {
                in_endpoint: EndpointConfig {
                    poll_interval: poll_interval_ms as u8,
                    max_packet_size,
                },
                ..self@
            }),
            result matches Err(error) ==> error == UsbHidBuilderError::ValueOverflow,
    {
        if poll_interval_ms > 255 {
            Err(UsbHidBuilderError::ValueOverflow)
        } else {
            let mut builder = self;
            builder.config.in_endpoint = EndpointConfig {
                poll_interval: poll_interval_ms as u8,
                max_packet_size,
            };
            Ok(builder)
        }
    }

    /// Hands the finished settings out.
    pub fn build(self) -> (config: RawInterfaceConfig)
        ensures
            config == self@,
    {
        self.config
    }
}

/// The state of a [`RawInterface`] as plain values.
pub struct RawInterfaceView {
    /// The interface number.
    pub id: u8,
    /// The settings the interface was built with.
    pub config: RawInterfaceConfig,
    /// Index of the string descriptor that names the interface, if it has a name.
    pub description_index: Option<u8>,
    /// The protocol the host selected.
    pub protocol: HidProtocol,
    /// The idle rate of each report id, in units of 4 ms; always 256 entries.
    pub idle: Seq<u8>,
    /// The IN endpoint: reports on their way to the host.
    pub in_endpoint: PacketBufferView,
    /// The OUT endpoint, if there is one: reports that arrived from the host.
    pub out_endpoint: Option<PacketBufferView>,
    /// The report offered to the host's next `GetReport`.
    pub control_in_report: PacketBufferView,
    /// The report received by the last `SetReport` and not read yet.
    pub control_out_report: PacketBufferView,
}

impl RawInterfaceView {
    /// What holds of the state of every raw interface: the idle-rate table has an entry
    /// for each report id.
    pub open spec fn wf(self) -> bool {
        self.idle.len() == IDLE_TABLE_LEN
    }

    /// The state of a freshly allocated interface: report protocol, every idle rate at
    /// its default, all buffers empty.
    pub open spec fn allocated(
        config: RawInterfaceConfig,
        id: u8,
        description_index: Option<u8>,
    ) -> RawInterfaceView {
        RawInterfaceView {
            id,
            config,
            description_index,
            protocol: HidProtocol::Report,
            idle: Seq::new(IDLE_TABLE_LEN as nat, |i: int| config.idle_default),
            in_endpoint: PacketBufferView {
                capacity: config.in_endpoint.max_packet_size.bytes(),
                packet: None,
            },
            out_endpoint: match config.out_endpoint {
                Some(endpoint) => Some(
                    PacketBufferView { capacity: endpoint.max_packet_size.bytes(), packet: None },
                ),
                None => None,
            },
            control_in_report: PacketBufferView { capacity: CONTROL_BUFFER_LEN, packet: None },
            control_out_report: PacketBufferView { capacity: CONTROL_BUFFER_LEN, packet: None },
        }
    }

    /// The state after a bus reset: protocol and idle rates are back at their defaults,
    /// everything else is kept.
    pub open spec fn reset(self) -> RawInterfaceView {
        RawInterfaceView {
            protocol: HidProtocol::Report,
            idle: Seq::new(IDLE_TABLE_LEN as nat, |i: int| self.config.idle_default),
            ..self
        }
    }

    /// The idle rate of report `report_id`.
    pub open spec fn get_idle(self, report_id: u8) -> u8 {
        self.idle[report_id as int]
    }

    /// The state after `SetIdle`: report id 0 addresses every report, any other id only
    /// itself.
    pub open spec fn set_idle(self, report_id: u8, value: u8) -> RawInterfaceView {
        RawInterfaceView {
            idle: if report_id == 0 {
                Seq::new(IDLE_TABLE_LEN as nat, |i: int| value)
            } else {
                self.idle.update(report_id as int, value)
            },
            ..self
        }
    }

    /// The state after the host selected `protocol`.
    pub open spec fn set_protocol(self, protocol: HidProtocol) -> RawInterfaceView {
        RawInterfaceView { protocol, ..self }
    }

    /// The state after the firmware wrote the report `data`: the report waits in the IN
    /// endpoint if that was free, and is offered to `GetReport` if no earlier report
    /// was.
    pub open spec fn write_report(self, data: Seq<u8>) -> RawInterfaceView {
        RawInterfaceView {
            in_endpoint: self.in_endpoint.put(data),
            control_in_report: self.control_in_report.put(data),
            ..self
        }
    }

    /// The state after the payload `data` of a `SetReport` arrived.
    pub open spec fn set_report(self, data: Seq<u8>) -> RawInterfaceView {
        RawInterfaceView { control_out_report: self.control_out_report.put(data), ..self }
    }

    /// The state after a `GetReport` was answered.
    pub open spec fn get_report_ack(self) -> RawInterfaceView {
        RawInterfaceView { control_in_report: self.control_in_report.cleared(), ..self }
    }

    /// The answer to the payload `data` of a `SetReport`.
    pub open spec fn set_report_result(self, data: Seq<u8>) -> Result<(), UsbError> {
        match self.control_out_report.put_result(data) {
            Ok(_) => Ok(()),
            Err(error) => Err(error),
        }
    }

    /// The answer to an attempt to read a report into `room` bytes: a report from
    /// `SetReport` comes first, then one from the OUT endpoint; without either source
    /// the interface has no endpoint to read.
    pub open spec fn read_result(self, room: nat) -> Result<usize, UsbError> {
        if self.control_out_report.packet.is_some() {
            self.control_out_report.copy_result(room)
        } else {
            match self.out_endpoint {
                Some(endpoint) => endpoint.copy_result(room),
                None => Err(UsbError::InvalidEndpoint),
            }
        }
    }

    /// What the caller's buffer `dest` holds after an attempt to read a report into it.
    pub open spec fn read_into(self, dest: Seq<u8>) -> Seq<u8> {
        if self.control_out_report.packet.is_some() {
            self.control_out_report.copied_into(dest)
        } else {
            match self.out_endpoint {
                Some(endpoint) => endpoint.copied_into(dest),
                None => dest,
            }
        }
    }

    /// The state after an attempt to read a report into `room` bytes.
    pub open spec fn read_report(self, room: nat) -> RawInterfaceView {
        if self.control_out_report.packet.is_some() {
            RawInterfaceView { control_out_report: self.control_out_report.read(room), ..self }
        } else {
            match self.out_endpoint {
                Some(endpoint) => RawInterfaceView {
                    out_endpoint: Some(endpoint.read(room)),
                    ..self
                },
                None => self,
            }
        }
    }

    /// The seven bytes of the HID descriptor that follow its length and type: release
    /// 1.11, no country code, one class descriptor, namely the report descriptor with
    /// its length, both numbers little-endian.
    pub open spec fn hid_descriptor_body(self) -> Seq<u8> {
        seq![
            0x11u8,
            0x01u8,
            COUNTRY_CODE_NOT_SUPPORTED,
            1u8,
            DescriptorType::Report.code(),
            (self.config.report_descriptor@.len() % 256) as u8,
            (self.config.report_descriptor@.len() / 256 % 256) as u8,
        ]
    }

    /// The name of the interface if `index` is the string descriptor that carries it.
    pub open spec fn get_string(self, index: u8) -> Option<&'static str> {
        if self.description_index == Some(index) {
            self.config.description
        } else {
            None
        }
    }
}

/// One HID interface: report descriptor, idle-rate table, protocol mode and packet
/// buffers.
#[derive(Debug)]
pub struct RawInterface {
    id: u8,
    config: RawInterfaceConfig,
    description_index: Option<u8>,
    protocol: HidProtocol,
    idle: [u8; 256],
    in_endpoint: PacketBuffer,
    out_endpoint: Option<PacketBuffer>,
    control_in_report: PacketBuffer,
    control_out_report: PacketBuffer,
}

impl View for RawInterface {
    type V = RawInterfaceView;

    closed spec fn view(&self) -> RawInterfaceView {
        RawInterfaceView {
            id: self.id,
            config: self.config,
            description_index: self.description_index,
            protocol: self.protocol,
            idle: self.idle@,
            in_endpoint: self.in_endpoint@,
            out_endpoint: match self.out_endpoint {
                Some(endpoint) => Some(endpoint@),
                None => None,
            },
            control_in_report: self.control_in_report@,
            control_out_report: self.control_out_report@,
        }
    }
}

impl RawInterface {
    /// The state of a raw interface is always well formed.
    pub proof fn lemma_view_wf(&self)
        ensures
            self@.wf(),
    {
    }

    /// Allocates the interface: gives it its number and, for a named interface, the
    /// index of the string descriptor that will carry the name.
    pub fn new(config: RawInterfaceConfig, id: u8, description_index: Option<u8>) -> (interface:
        RawInterface)
        ensures
            interface@ == RawInterfaceView::allocated(config, id, description_index),
    {
        let out_endpoint = match config.out_endpoint {
            Some(endpoint) => Some(PacketBuffer::new(endpoint.max_packet_size.as_usize())),
            None => None,
        };
        let interface = RawInterface {
            id,
            config,
            description_index,
            protocol: HidProtocol::Report,
            idle: [config.idle_default;256],
            in_endpoint: PacketBuffer::new(config.in_endpoint.max_packet_size.as_usize()),
            out_endpoint,
            control_in_report: PacketBuffer::new(CONTROL_BUFFER_LEN),
            control_out_report: PacketBuffer::new(CONTROL_BUFFER_LEN),
        };
        assert(interface@.idle =~= RawInterfaceView::allocated(
            config,
            id,
            description_index,
        ).idle);
        interface
    }

    /// The interface number.
    pub fn id(&self) -> (id: u8)
        ensures
            id == self@.id,
    {
        self.id
    }

    /// The settings the interface was built with.
    pub fn config(&self) -> (config: &RawInterfaceConfig)
        ensures
            *config == self@.config,
    {
        &self.config
    }

    /// The report descriptor.
    pub fn report_descriptor(&self) -> (descriptor: &'static [u8])
        ensures
            descriptor == self@.config.report_descriptor,
    {
        self.config.report_descriptor
    }

    /// The body of the HID descriptor.
    pub fn hid_descriptor_body(&self) -> (body: [u8; 7])
        ensures
            body@ == self@.hid_descriptor_body(),
    {
        let len = self.config.report_descriptor.len();
        let low = (len & 0xFF) as u8;
        let high = ((len >> 8) & 0xFF) as u8;
        assert((len & 0xFF) as u8 == (len % 256) as u8) by (bit_vector);
        assert(((len >> 8) & 0xFF) as u8 == (len / 256 % 256) as u8) by (bit_vector);
        let body = [0x11, 0x01, COUNTRY_CODE_NOT_SUPPORTED, 1, DescriptorType::Report.as_u8(), low, high];
        assert(body@ =~= self@.hid_descriptor_body());
        body
    }

    /// The subclass code of the interface descriptor.
    pub fn sub_class(&self) -> (sub_class: InterfaceSubClass)
        ensures
            sub_class == InterfaceSubClass::of_protocol(self@.config.protocol),
    {
        InterfaceSubClass::from_protocol(self.config.protocol)
    }

    /// Index of the string descriptor that names the interface.
    pub fn description_index(&self) -> (index: Option<u8>)
        ensures
            index == self@.description_index,
    {
        self.description_index
    }

    /// The string the descriptor with index `index` carries for this interface. The
    /// language is not looked at: the name exists in one language only.
    pub fn get_string(&self, index: u8, _lang_id: u16) -> (name: Option<&'static str>)
        ensures
            name == self@.get_string(index),
    {
        match self.description_index {
            Some(own) => if own == index {
                self.config.description
            } else {
                None
            },
            None => None,
        }
    }

    /// Handles a bus reset.
    pub fn reset(&mut self)
        ensures
            final(self)@ == old(self)@.reset(),
    {
        self.protocol = HidProtocol::Report;
        self.idle = [self.config.idle_default;256];
        assert(self@.idle =~= old(self)@.reset().idle);
    }

    /// Stores the payload of a `SetReport` until the firmware reads it.
    ///
    /// Fails with `WouldBlock` if the previous payload has not been read and with
    /// `BufferOverflow` if the payload is longer than 64 bytes.
    pub fn set_report(&mut self, data: &[u8]) -> (result: Result<(), UsbError>)
        ensures
            result == old(self)@.set_report_result(data@),
            final(self)@ == old(self)@.set_report(data@),
    {
        match self.control_out_report.put(data) {
            Ok(_) => Ok(()),
            Err(error) => Err(error),
        }
    }

    /// Copies the report offered to `GetReport` to the front of `data`.
    ///
    /// Fails with `WouldBlock` if no report was written since the last one was fetched
    /// and with `BufferOverflow` if `data` is too short.
    pub fn get_report(&self, data: &mut [u8]) -> (result: Result<usize, UsbError>)
        ensures
            result == self@.control_in_report.copy_result(old(data)@.len()),
            final(data)@ == self@.control_in_report.copied_into(old(data)@),
    {
        self.control_in_report.copy_to(data)
    }

    /// Notes that the answer to a `GetReport` reached the host: the report is not
    /// offered again.
    pub fn get_report_ack(&mut self) -> (result: Result<(), UsbError>)
        ensures
            final(self)@ == old(self)@.get_report_ack(),
            result.is_ok(),
    {
        self.control_in_report.clear();
        Ok(())
    }

    /// Sets the idle rate of report `report_id`, or of all reports for id 0.
    pub fn set_idle(&mut self, report_id: u8, value: u8)
        ensures
            final(self)@ == old(self)@.set_idle(report_id, value),
    {
        if report_id == 0 {
            self.idle = [value;256];
        } else {
            self.idle[report_id as usize] = value;
        }
        assert(self@.idle =~= old(self)@.set_idle(report_id, value).idle);
    }

    /// The idle rate of report `report_id`.
    pub fn get_idle(&self, report_id: u8) -> (rate: u8)
        ensures
            rate == self@.get_idle(report_id),
    {
        self.idle[report_id as usize]
    }

    /// The idle rate that applies to a device with a single report, in units of 4 ms.
    pub fn global_idle(&self) -> (rate: u8)
        ensures
            rate == self@.get_idle(0),
    {
        self.idle[0]
    }

    /// Selects the protocol.
    pub fn set_protocol(&mut self, protocol: HidProtocol)
        ensures
            final(self)@ == old(self)@.set_protocol(protocol),
    {
        self.protocol = protocol;
    }

    /// The protocol the host selected.
    pub fn get_protocol(&self) -> (protocol: HidProtocol)
        ensures
            protocol == self@.protocol,
    {
        self.protocol
    }

    /// Hands a report to the IN endpoint.
    ///
    /// Fails with `WouldBlock` while the endpoint still holds an earlier report and with
    /// `BufferOverflow` if the report is longer than a packet; the report is then not
    /// queued and the caller has to write it again. Independently of that the report is
    /// offered to the host's next `GetReport` unless an earlier one still is.
    pub fn write_report(&mut self, data: &[u8]) -> (result: Result<usize, UsbError>)
        ensures
            result == old(self)@.in_endpoint.put_result(data@),
            final(self)@ == old(self)@.write_report(data@),
    {
        let _ = self.control_in_report.put(data);
        self.in_endpoint.put(data)
    }

    /// Reads a report sent by the host to the front of `data`.
    ///
    /// A report that came with `SetReport` is returned first, then one from the OUT
    /// endpoint. Fails with `InvalidEndpoint` if there is neither such a report nor an
    /// OUT endpoint, with `WouldBlock` if the endpoint is empty and with
    /// `BufferOverflow` if `data` is too short for the report, which then stays where it
    /// is.
    pub fn read_report(&mut self, data: &mut [u8]) -> (result: Result<usize, UsbError>)
        ensures
            result == old(self)@.read_result(old(data)@.len()),
            final(data)@ == old(self)@.read_into(old(data)@),
            final(self)@ == old(self)@.read_report(old(data)@.len()),
    {
        if !self.control_out_report.is_empty() {
            self.control_out_report.read(data)
        } else {
            match &mut self.out_endpoint {
                Some(endpoint) => endpoint.read(data),
                None => Err(UsbError::InvalidEndpoint),
            }
        }
    }

    /// The report that waits in the IN endpoint. It stays there until it is taken with
    /// [`RawInterface::take_in_packet`].
    pub fn in_packet(&self) -> (packet: Option<&Vec<u8>>)
        ensures
            match packet {
                Some(bytes) => self@.in_endpoint.packet == Some(bytes@),
                None => self@.in_endpoint.packet.is_none(),
            },
    {
        self.in_endpoint.peek()
    }

    /// Whether the OUT endpoint exists and is free to receive a packet.
    pub fn can_receive(&self) -> (free: bool)
        ensures
            free == (self@.out_endpoint matches Some(endpoint) && endpoint.packet.is_none()),
    {
        match &self.out_endpoint {
            Some(endpoint) => endpoint.is_empty(),
            None => false,
        }
    }

    /// Takes the report that waits in the IN endpoint, for the bus to transmit.
    pub fn take_in_packet(&mut self) -> (packet: Option<Vec<u8>>)
        ensures
            final(self)@ == (RawInterfaceView {
                in_endpoint: old(self)@.in_endpoint.cleared(),
                ..old(self)@
            }),
            match packet {
                Some(bytes) => old(self)@.in_endpoint.packet == Some(bytes@),
                None => old(self)@.in_endpoint.packet.is_none(),
            },
    {
        self.in_endpoint.take()
    }

    /// Stores a packet that the bus received on the OUT endpoint.
    ///
    /// Fails with `InvalidEndpoint` if the interface has no OUT endpoint, with
    /// `WouldBlock` if the previous packet has not been read and with `BufferOverflow`
    /// if the packet is longer than the endpoint allows.
    pub fn receive_out_packet(&mut self, data: &[u8]) -> (result: Result<usize, UsbError>)
        ensures
            match old(self)@.out_endpoint {
                Some(endpoint) => {
                    &&& result == endpoint.put_result(data@)
                    &&& final(self)@ == (RawInterfaceView {
                        out_endpoint: Some(endpoint.put(data@)),
                        ..old(self)@
                    })
                },
                None => {
                    &&& result == Err::<usize, UsbError>(UsbError::InvalidEndpoint)
                    &&& final(self)@ == old(self)@
                },
            },
    {
        match &mut self.out_endpoint {
            Some(endpoint) => endpoint.put(data),
            None => Err(UsbError::InvalidEndpoint),
        }
    }
}

} // verus!
