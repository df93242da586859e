//! The HID class as the USB stack sees it: request codes, the builder that lays the
//! interfaces out, and the dispatcher that routes control transfers to them.

pub mod descriptor;

use crate::codec::{high_byte, high_byte_of, low_byte, low_byte_of};
use crate::hid_class::descriptor::{DescriptorType, HidProtocol, HID_DESCRIPTOR_LEN};
use crate::interface::raw::{RawInterface, RawInterfaceView, CONTROL_BUFFER_LEN};
use crate::interface::{Interface, InterfaceView, WrappedInterfaceConfig};
use crate::usb::{Recipient, Request, RequestType, GET_DESCRIPTOR};
use vstd::prelude::*;
use vstd::slice::{slice_subrange, slice_to_vec};

verus! {

/// The class requests of HID 1.11, section 7.2.
#[derive(Clone, Copy, Debug, PartialEq, Eq, Structural)]
pub enum HidRequest {
    /// The host reads a report over the control pipe.
    GetReport,
    /// The host reads the idle rate of a report.
    GetIdle,
    /// The host reads the active protocol.
    GetProtocol,
    /// The host sends a report over the control pipe.
    SetReport,
    /// The host sets the idle rate of a report.
    SetIdle,
    /// The host selects the boot or the report protocol.
    SetProtocol,
}

impl HidRequest {
    /// The request code on the wire.
    pub open spec fn code(self) -> u8 {
        match self {
            HidRequest::GetReport => 0x01,
            HidRequest::GetIdle => 0x02,
            HidRequest::GetProtocol => 0x03,
            HidRequest::SetReport => 0x09,
            HidRequest::SetIdle => 0x0A,
            HidRequest::SetProtocol => 0x0B,
        }
    }

    /// The request with code `code`, if HID defines one.
    pub open spec fn of_code(code: u8) -> Option<HidRequest> {
        if code == 0x01 {
            Some(HidRequest::GetReport)
        } else if code == 0x02 {
            Some(HidRequest::GetIdle)
        } else if code == 0x03 {
            Some(HidRequest::GetProtocol)
        } else if code == 0x09 {
            Some(HidRequest::SetReport)
        } else if code == 0x0A {
            Some(HidRequest::SetIdle)
        } else if code == 0x0B {
            Some(HidRequest::SetProtocol)
        } else {
            None
        }
    }

    /// Returns the request code on the wire.
    pub fn as_u8(self) -> (code: u8)
        ensures
            code == self.code(),
    {
        match self {
            HidRequest::GetReport => 0x01,
            HidRequest::GetIdle => 0x02,
            HidRequest::GetProtocol => 0x03,
            HidRequest::SetReport => 0x09,
            HidRequest::SetIdle => 0x0A,
            HidRequest::SetProtocol => 0x0B,
        }
    }

    /// Looks a request code up.
    pub fn from_code(code: u8) -> (request: Option<HidRequest>)
        ensures
            request == HidRequest::of_code(code),
    {
        if code == 0x01 {
            Some(HidRequest::GetReport)
        } else if code == 0x02 {
            Some(HidRequest::GetIdle)
        } else if code == 0x03 {
            Some(HidRequest::GetProtocol)
        } else if code == 0x09 {
            Some(HidRequest::SetReport)
        } else if code == 0x0A {
            Some(HidRequest::SetIdle)
        } else if code == 0x0B {
            Some(HidRequest::SetProtocol)
        } else {
            None
        }
    }
}

/// The packet sizes a full-speed interrupt endpoint can have.
#[derive(Clone, Copy, Debug, PartialEq, Eq, Structural)]
pub enum UsbPacketSize {
    /// 8 bytes.
    Bytes8,
    /// 16 bytes.
    Bytes16,
    /// 32 bytes.
    Bytes32,
    /// 64 bytes.
    Bytes64,
}

impl UsbPacketSize {
    /// The size in bytes.
    pub open spec fn bytes(self) -> usize {
        match self {
            UsbPacketSize::Bytes8 => 8,
            UsbPacketSize::Bytes16 => 16,
            UsbPacketSize::Bytes32 => 32,
            UsbPacketSize::Bytes64 => 64,
        }
    }

    /// Returns the size in bytes.
    pub fn as_usize(self) -> (bytes: usize)
        ensures
            bytes == self.bytes(),
    {
        match self {
            UsbPacketSize::Bytes8 => 8,
            UsbPacketSize::Bytes16 => 16,
            UsbPacketSize::Bytes32 => 32,
            UsbPacketSize::Bytes64 => 64,
        }
    }
}

/// Why a builder refused a setting.
#[derive(Clone, Copy, Debug, PartialEq, Eq, Structural)]
pub enum UsbHidBuilderError {
    /// The value does not fit the field that carries it on the wire.
    ValueOverflow,
}

/// What the class decided about a host-to-device control transfer.
#[derive(Clone, Copy, Debug, PartialEq, Eq, Structural)]
pub enum ControlOutResponse {
    /// The transfer is not for this class, or the class has no use for it. It is left
    /// alone.
    Ignored,
    /// The request was carried out; the transfer is to be acknowledged.
    Accepted,
    /// The request asks for something the class does not support. Nothing was changed
    /// and the transfer is left unanswered, which the host sees as a stall.
    Unsupported,
}

/// What the class decided about a device-to-host control transfer, as plain values.
pub enum ControlInReply {
    /// The transfer is left unanswered.
    Ignored,
    /// The transfer is to be answered with these bytes.
    Data(Seq<u8>),
    /// The transfer is to be answered with this report. Once the answer has reached the
    /// host the class is to be told with [`UsbHidClass::get_report_ack`].
    Report(Seq<u8>),
}

/// What the class decided about a device-to-host control transfer.
#[derive(Debug, PartialEq, Eq)]
pub enum ControlInResponse {
    /// The transfer is left unanswered.
    Ignored,
    /// The transfer is to be answered with these bytes.
    Data(Vec<u8>),
    /// The transfer is to be answered with this report. Once the answer has reached the
    /// host the class is to be told with [`UsbHidClass::get_report_ack`].
    Report(Vec<u8>),
}

impl View for ControlInResponse {
    type V = ControlInReply;

    open spec fn view(&self) -> ControlInReply {
        match self {
            ControlInResponse::Ignored => ControlInReply::Ignored,
            ControlInResponse::Data(data) => ControlInReply::Data(data@),
            ControlInResponse::Report(data) => ControlInReply::Report(data@),
        }
    }
}

/// Position of the first interface with number `id`, if there is one.
/// [`lemma_position`] says so.
pub open spec fn position(interfaces: Seq<InterfaceView>, id: u8) -> Option<int>
    decreases interfaces.len(),
{
    if interfaces.len() == 0 {
        None
    } else if interfaces[0].raw.id == id {
        Some(0)
    } else {
        match position(interfaces.skip(1), id) {
            Some(i) => Some(i + 1),
            None => None,
        }
    }
}

/// `position` finds the first interface with the number asked for, and finds none only
/// if there is none.
pub proof fn lemma_position(interfaces: Seq<InterfaceView>, id: u8)
    ensures
        match position(interfaces, id) {
            Some(i) => {
                &&& 0 <= i < interfaces.len()
                &&& interfaces[i].raw.id == id
                &&& forall|j: int| 0 <= j < i ==> (#[trigger] interfaces[j]).raw.id != id
            },
            None => forall|j: int|
                0 <= j < interfaces.len() ==> (#[trigger] interfaces[j]).raw.id != id,
        },
    decreases interfaces.len(),
{
    if interfaces.len() > 0 && interfaces[0].raw.id != id {
        let rest = interfaces.skip(1);
        lemma_position(rest, id);
        match position(rest, id) {
            Some(i) => {
                assert forall|j: int| 0 <= j < i + 1 implies (#[trigger] interfaces[j]).raw.id
                    != id by {
                    if j > 0 {
                        assert(rest[j - 1] == interfaces[j]);
                    }
                }
            },
            None => {
                assert forall|j: int| 0 <= j < interfaces.len() implies (
                #[trigger] interfaces[j]).raw.id != id by {
                    if j > 0 {
                        assert(rest[j - 1] == interfaces[j]);
                    }
                }
            },
        }
    }
}

/// The first interface with a given number is at `at` if the interface there has that
/// number and none before it has.
proof fn lemma_position_is(interfaces: Seq<InterfaceView>, id: u8, at: int)
    requires
        0 <= at < interfaces.len(),
        interfaces[at].raw.id == id,
        forall|j: int| 0 <= j < at ==> (#[trigger] interfaces[j]).raw.id != id,
    ensures
        position(interfaces, id) == Some(at),
{
    lemma_position(interfaces, id);
}

/// The interface a request is addressed to: the one whose number is the request's
/// index. An index that is no interface number addresses nothing.
pub open spec fn addressed(interfaces: Seq<InterfaceView>, request: Request) -> Option<int> {
    if request.index > u8::MAX {
        None
    } else {
        position(interfaces, request.index as u8)
    }
}

/// Whether a host-to-device request is one for this class: a class request to an
/// interface.
pub open spec fn is_class_request(request: Request) -> bool {
    request.request_type == RequestType::Class && request.recipient == Recipient::Interface
}

/// What a host-to-device request does to the raw interface it is addressed to, if it
/// does anything.
///
/// `SetReport` stores the payload for the firmware, `SetIdle` sets the idle rate in the
/// high byte of the value for the report id in its low byte, `SetProtocol` selects the
/// protocol named by the low byte of the value if that is boot or report. No other
/// request changes anything.
pub open spec fn control_out_effect(
    raw: RawInterfaceView,
    request: Request,
    data: Seq<u8>,
) -> Option<RawInterfaceView> {
    match HidRequest::of_code(request.request) {
        Some(HidRequest::SetReport) => Some(raw.set_report(data)),
        Some(HidRequest::SetIdle) => Some(
            raw.set_idle(low_byte(request.value), high_byte(request.value)),
        ),
        Some(HidRequest::SetProtocol) => match HidProtocol::of_code(low_byte(request.value)) {
            Some(protocol) => Some(raw.set_protocol(protocol)),
            None => None,
        },
        _ => None,
    }
}

/// The answer to a host-to-device control transfer.
///
/// Requests that are not class requests to one of the interfaces are ignored. Of the
/// others the three requests of [`control_out_effect`] are accepted, except a
/// `SetProtocol` for an unknown protocol, which is unsupported. Every other class
/// request is ignored.
pub open spec fn control_out_response(
    interfaces: Seq<InterfaceView>,
    request: Request,
    data: Seq<u8>,
) -> ControlOutResponse {
    if !is_class_request(request) || addressed(interfaces, request).is_none() {
        ControlOutResponse::Ignored
    } else {
        match HidRequest::of_code(request.request) {
            Some(HidRequest::SetReport) => ControlOutResponse::Accepted,
            Some(HidRequest::SetIdle) => ControlOutResponse::Accepted,
            Some(HidRequest::SetProtocol) => if HidProtocol::of_code(
                low_byte(request.value),
            ).is_some() {
                ControlOutResponse::Accepted
            } else {
                ControlOutResponse::Unsupported
            },
            _ => ControlOutResponse::Ignored,
        }
    }
}

/// The interfaces after a host-to-device control transfer: the addressed interface has
/// taken the effect of the request, all others are as they were.
pub open spec fn after_control_out(
    interfaces: Seq<InterfaceView>,
    request: Request,
    data: Seq<u8>,
) -> Seq<InterfaceView> {
    if !is_class_request(request) {
        interfaces
    } else {
        match addressed(interfaces, request) {
            None => interfaces,
            Some(i) => match control_out_effect(interfaces[i].raw, request, data) {
                Some(raw) => interfaces.update(i, interfaces[i].with_raw(raw)),
                None => interfaces,
            },
        }
    }
}

/// Interfaces that carry the same numbers in the same order are found at the same
/// positions.
proof fn lemma_position_same_ids(a: Seq<InterfaceView>, b: Seq<InterfaceView>, id: u8)
    requires
        a.len() == b.len(),
        forall|i: int| 0 <= i < a.len() ==> (#[trigger] a[i]).raw.id == b[i].raw.id,
    ensures
        position(a, id) == position(b, id),
    decreases a.len(),
{
    if a.len() > 0 {
        assert(a[0].raw.id == b[0].raw.id);
        assert forall|i: int| 0 <= i < a.skip(1).len() implies (#[trigger] a.skip(1)[i]).raw.id
            == b.skip(1)[i].raw.id by {
            assert(a[i + 1].raw.id == b[i + 1].raw.id);
        }
        lemma_position_same_ids(a.skip(1), b.skip(1), id);
    }
}

/// A host-to-device control transfer reaches at most the interface it is addressed to,
/// and changes nothing about it but the state of its raw interface: every interface
/// keeps its place, kind, number, settings and idle timer, and every interface with
/// another number than the request's index is exactly as it was.
pub proof fn lemma_control_out_touches_only_addressed(
    interfaces: Seq<InterfaceView>,
    request: Request,
    data: Seq<u8>,
)
    ensures
        after_control_out(interfaces, request, data).len() == interfaces.len(),
        forall|i: int|
            0 <= i < interfaces.len() && interfaces[i].raw.id != request.index ==> (
            #[trigger] after_control_out(interfaces, request, data)[i]) == interfaces[i],
        forall|i: int|
            0 <= i < interfaces.len() ==> {
                let after = #[trigger] after_control_out(interfaces, request, data)[i];
                &&& after == interfaces[i].with_raw(after.raw)
                &&& after.raw.id == interfaces[i].raw.id
                &&& after.raw.config == interfaces[i].raw.config
            },
{
    if request.index <= u8::MAX {
        lemma_position(interfaces, request.index as u8);
    }
}

/// A request whose index is no interface number changes nothing and is not answered,
/// whatever else it says.
pub proof fn lemma_unknown_interface_is_ignored(
    interfaces: Seq<InterfaceView>,
    request: Request,
    data: Seq<u8>,
)
    requires
        forall|i: int| 0 <= i < interfaces.len() ==> (#[trigger] interfaces[i]).raw.id != request.index,
    ensures
        after_control_out(interfaces, request, data) == interfaces,
        control_out_response(interfaces, request, data) == ControlOutResponse::Ignored,
        control_in_reply(interfaces, request) == ControlInReply::Ignored,
{
    if request.index <= u8::MAX {
        lemma_position(interfaces, request.index as u8);
    }
}

/// A `SetIdle` to an interface is accepted and changes the idle rates of that interface
/// and nothing else; a `GetIdle` to the same interface for the same report id then
/// answers the rate that was set. Here `set` is the `SetIdle` and `get` any `GetIdle`
/// with the same index and the same report id in the low byte of its value.
pub proof fn lemma_set_idle_then_get_idle(
    interfaces: Seq<InterfaceView>,
    set: Request,
    data: Seq<u8>,
    get: Request,
)
    requires
        is_class_request(set),
        set.request == HidRequest::SetIdle.code(),
        addressed(interfaces, set).is_some(),
        is_class_request(get),
        get.request == HidRequest::GetIdle.code(),
        get.index == set.index,
        low_byte(get.value) == low_byte(set.value),
        forall|i: int| 0 <= i < interfaces.len() ==> (#[trigger] interfaces[i]).raw.wf(),
    ensures
        control_out_response(interfaces, set, data) == ControlOutResponse::Accepted,
        forall|i: int|
            0 <= i < interfaces.len() ==> {
                let after = #[trigger] after_control_out(interfaces, set, data)[i];
                after == interfaces[i].with_raw(
                    RawInterfaceView { idle: after.raw.idle, ..interfaces[i].raw },
                )
            },
        control_in_reply(after_control_out(interfaces, set, data), get) == ControlInReply::Data(
            seq![high_byte(set.value)],
        ),
{
    let id = set.index as u8;
    let after = after_control_out(interfaces, set, data);
    lemma_position(interfaces, id);
    lemma_control_out_touches_only_addressed(interfaces, set, data);
    lemma_position_same_ids(after, interfaces, id);
    let at = position(interfaces, id).unwrap();
    assert(interfaces[at].raw.wf());
    assert(after[at].raw == interfaces[at].raw.set_idle(low_byte(set.value), high_byte(set.value)));
    assert(after[at].raw.get_idle(low_byte(get.value)) == high_byte(set.value));
    assert(seq![after[at].raw.get_idle(low_byte(get.value))] =~= seq![high_byte(set.value)]);
}

/// A `SetProtocol` that names neither the boot nor the report protocol changes nothing,
/// the protocol of the addressed interface included, and is not acknowledged.
pub proof fn lemma_unsupported_protocol_changes_nothing(
    interfaces: Seq<InterfaceView>,
    request: Request,
    data: Seq<u8>,
)
    requires
        is_class_request(request),
        request.request == HidRequest::SetProtocol.code(),
        low_byte(request.value) > 1,
    ensures
        after_control_out(interfaces, request, data) == interfaces,
        control_out_response(interfaces, request, data) == if addressed(
            interfaces,
            request,
        ).is_some() {
            ControlOutResponse::Unsupported
        } else {
            ControlOutResponse::Ignored
        },
{
}

/// The answer to a `GET_DESCRIPTOR` request to an interface: the report descriptor, or
/// the HID descriptor, which is its length 9, its type and the body supplied by the
/// interface. The descriptor type is the high byte of the request's value; requests for
/// any other type are ignored.
pub open spec fn descriptor_reply(raw: RawInterfaceView, request: Request) -> ControlInReply {
    match DescriptorType::of_code(high_byte(request.value)) {
        Some(DescriptorType::Report) => ControlInReply::Data(raw.config.report_descriptor@),
        Some(DescriptorType::Hid) => ControlInReply::Data(
            seq![HID_DESCRIPTOR_LEN as u8, DescriptorType::Hid.code()]
                + raw.hid_descriptor_body(),
        ),
        None => ControlInReply::Ignored,
    }
}

/// The answer to a class request read by the host: the report offered to `GetReport`
/// if there is one and it fits the 64 bytes of a control transfer, the idle rate of the
/// report id in the low byte of the value, or the code of the active protocol. Every
/// other request is ignored.
pub open spec fn class_reply(raw: RawInterfaceView, request: Request) -> ControlInReply {
    match HidRequest::of_code(request.request) {
        Some(HidRequest::GetReport) => match raw.control_in_report.copy_result(
            CONTROL_BUFFER_LEN as nat,
        ) {
            Ok(_) => ControlInReply::Report(raw.control_in_report.packet.unwrap()),
            Err(_) => ControlInReply::Ignored,
        },
        Some(HidRequest::GetIdle) => ControlInReply::Data(
            seq![raw.get_idle(low_byte(request.value))],
        ),
        Some(HidRequest::GetProtocol) => ControlInReply::Data(seq![raw.protocol.code()]),
        _ => ControlInReply::Ignored,
    }
}

/// The answer to a device-to-host control transfer.
///
/// Only requests to one of the interfaces are answered: the standard request
/// `GET_DESCRIPTOR` with [`descriptor_reply`], class requests with [`class_reply`].
/// Everything else is ignored.
pub open spec fn control_in_reply(interfaces: Seq<InterfaceView>, request: Request) -> ControlInReply {
    if request.recipient != Recipient::Interface {
        ControlInReply::Ignored
    } else {
        match addressed(interfaces, request) {
            None => ControlInReply::Ignored,
            Some(i) => match request.request_type {
                RequestType::Standard => if request.request == GET_DESCRIPTOR {
                    descriptor_reply(interfaces[i].raw, request)
                } else {
                    ControlInReply::Ignored
                },
                RequestType::Class => class_reply(interfaces[i].raw, request),
                _ => ControlInReply::Ignored,
            },
        }
    }
}

/// Number of interfaces with a name among the first `count` of `configs`.
pub open spec fn named_before(configs: Seq<WrappedInterfaceConfig>, count: int) -> int
    decreases count,
{
    if count <= 0 {
        0
    } else {
        named_before(configs, count - 1) + if configs[count - 1].inner.description.is_some() {
            1int
        } else {
            0int
        }
    }
}

/// The string descriptor index of interface `at`: named interfaces are given the
/// indices from `first_string` on in their order, the others have none.
pub open spec fn string_index(
    configs: Seq<WrappedInterfaceConfig>,
    first_string: u8,
    at: int,
) -> Option<u8> {
    if configs[at].inner.description.is_some() {
        Some((first_string + named_before(configs, at)) as u8)
    } else {
        None
    }
}

/// The interfaces that are built from `configs`: numbered from `first_interface` on in
/// the order they were added, each in its freshly allocated state.
pub open spec fn allocated_interfaces(
    configs: Seq<WrappedInterfaceConfig>,
    first_interface: u8,
    first_string: u8,
) -> Seq<InterfaceView> {
    Seq::new(
        configs.len(),
        |i: int|
            InterfaceView::allocated(
                configs[i],
                (first_interface + i) as u8,
                string_index(configs, first_string, i),
            ),
    )
}

/// Whether the numbers and string indices of the interfaces built from `configs` fit a
/// byte.
pub open spec fn fits(configs: Seq<WrappedInterfaceConfig>, first_interface: u8, first_string: u8) -> bool {
    first_interface + configs.len() <= 256 && first_string + named_before(
        configs,
        configs.len() as int,
    ) <= 256
}

/// The number of named interfaces grows with the number of interfaces looked at.
proof fn lemma_named_before_monotonic(configs: Seq<WrappedInterfaceConfig>, i: int, j: int)
    requires
        i <= j,
    ensures
        0 <= named_before(configs, i) <= named_before(configs, j),
    decreases j - i,
{
    if i < j {
        lemma_named_before_monotonic(configs, i, j - 1);
    } else {
        lemma_named_before_nonnegative(configs, i);
    }
}

/// A count is not negative.
proof fn lemma_named_before_nonnegative(configs: Seq<WrappedInterfaceConfig>, i: int)
    ensures
        0 <= named_before(configs, i),
    decreases i,
{
    if i > 0 {
        lemma_named_before_nonnegative(configs, i - 1);
    }
}

/// Collects the interfaces of a device before they are allocated.
#[must_use]
#[derive(Debug)]
pub struct UsbHidClassBuilder {
    interface_list: Vec<WrappedInterfaceConfig>,
}

impl View for UsbHidClassBuilder {
    type V = Seq<WrappedInterfaceConfig>;

    closed spec fn view(&self) -> Seq<WrappedInterfaceConfig> {
        self.interface_list@
    }
}

impl UsbHidClassBuilder {
    /// A builder without interfaces.
    pub fn new() -> (builder: UsbHidClassBuilder)
        ensures
            builder@ == Seq::<WrappedInterfaceConfig>::empty(),
    {
        UsbHidClassBuilder { interface_list: Vec::new() }
    }

    /// Adds an interface after those added before.
    pub fn add_interface(self, interface_config: WrappedInterfaceConfig) -> (builder:
        UsbHidClassBuilder)
        ensures
            builder@ == self@.push(interface_config),
    {
        let mut interface_list = self.interface_list;
        interface_list.push(interface_config);
        UsbHidClassBuilder { interface_list }
    }

    /// Allocates the interfaces and hands the class out.
    ///
    /// The interfaces are numbered from `first_interface` on in the order they were
    /// added, and the named ones are given the string descriptor indices from
    /// `first_string` on; see [`allocated_interfaces`]. Fails with `ValueOverflow`
    /// exactly when a number or an index would not fit a byte.
    pub fn build(self, first_interface: u8, first_string: u8) -> (result: Result<
        UsbHidClass,
        UsbHidBuilderError,
    >)
        ensures
            result.is_ok() == fits(self@, first_interface, first_string),
            result matches Ok(class) ==> class@ == allocated_interfaces(
                self@,
                first_interface,
                first_string,
            ) && class.wf(),
            result matches Err(error) ==> error == UsbHidBuilderError::ValueOverflow,
    {
        let count = self.interface_list.len();
        let ghost configs = self.interface_list@;
        if count > 256 - first_interface as usize {
            return Err(UsbHidBuilderError::ValueOverflow);
        }
        let mut interfaces: Vec<Interface> = Vec::new();
        let mut named: usize = 0;
        let mut i: usize = 0;
        while i < count
            invariant
                i <= count,
                count == self.interface_list@.len(),
                configs == self.interface_list@,
                first_interface + count <= 256,
                named == named_before(configs, i as int),
                first_string + named <= 256,
                named <= i,
                interfaces@.len() == i,
                forall|j: int|
                    0 <= j < i ==> (#[trigger] interfaces@[j])@ == InterfaceView::allocated(
                        configs[j],
                        (first_interface + j) as u8,
                        string_index(configs, first_string, j),
                    ),
            decreases count - i,
        {
            let config = self.interface_list[i];
            let description_index = if config.inner.description.is_some() {
                if first_string as usize + named > 255 {
                    proof {
                        lemma_named_before_monotonic(configs, i as int + 1, count as int);
                    }
                    return Err(UsbHidBuilderError::ValueOverflow);
                }
                let index = (first_string as usize + named) as u8;
                named = named + 1;
                Some(index)
            } else {
                None
            };
            let id = (first_interface as usize + i) as u8;
            interfaces.push(Interface::allocate(config, id, description_index));
            i += 1;
        }
        let class = UsbHidClass { interfaces };
        proof {
            assert(class@ =~= allocated_interfaces(self@, first_interface, first_string));
        }
        Ok(class)
    }
}

impl Default for UsbHidClassBuilder {
    fn default() -> (builder: UsbHidClassBuilder)
        ensures
            builder@ == Seq::<WrappedInterfaceConfig>::empty(),
    {
        UsbHidClassBuilder::new()
    }
}

/// USB Human Interface Device class
#[derive(Debug)]
pub struct UsbHidClass {
    interfaces: Vec<Interface>,
}

impl View for UsbHidClass {
    type V = Seq<InterfaceView>;

    closed spec fn view(&self) -> Seq<InterfaceView> {
        Seq::new(self.interfaces@.len(), |i: int| self.interfaces@[i]@)
    }
}

impl UsbHidClass {
    /// The interfaces carry consecutive numbers in their order, so no two of them share
    /// one.
    pub open spec fn wf(&self) -> bool {
        forall|i: int|
            0 <= i < self@.len() ==> (#[trigger] self@[i]).raw.id == self@[0].raw.id + i
    }

    /// The number of interfaces.
    pub fn len(&self) -> (count: usize)
        ensures
            count == self@.len(),
    {
        self.interfaces.len()
    }

    /// The interface at position `index`, counted in the order the interfaces were
    /// added.
    pub fn interface(&self, index: usize) -> (interface: Option<&Interface>)
        ensures
            match interface {
                Some(found) => index < self@.len() && found@ == self@[index as int],
                None => index >= self@.len(),
            },
    {
        if index < self.interfaces.len() {
            Some(&self.interfaces[index])
        } else {
            None
        }
    }

    /// The interface at position `index`, for the firmware to write reports to and to
    /// tick. The other interfaces are out of its reach.
    pub fn interface_mut(&mut self, index: usize) -> (interface: Option<&mut Interface>)
        ensures
            match interface {
                Some(found) => {
                    &&& index < old(self)@.len()
                    &&& found@ == old(self)@[index as int]
                    &&& final(self)@ == old(self)@.update(index as int, final(found)@)
                },
                None => index >= old(self)@.len() && final(self)@ == old(self)@,
            },
    {
        if index < self.interfaces.len() {
            Some(&mut self.interfaces[index])
        } else {
            None
        }
    }

    /// All interfaces, in the order they were added.
    pub fn interfaces(&self) -> (interfaces: &[Interface])
        ensures
            interfaces@.len() == self@.len(),
            forall|i: int| 0 <= i < self@.len() ==> (#[trigger] interfaces@[i])@ == self@[i],
    {
        self.interfaces.as_slice()
    }

    /// Position of the interface with number `id`.
    pub fn find(&self, id: u8) -> (found: Option<usize>)
        ensures
            match found {
                Some(i) => position(self@, id) == Some(i as int),
                None => position(self@, id).is_none(),
            },
    {
        let count = self.interfaces.len();
        let mut i: usize = 0;
        while i < count
            invariant
                i <= count,
                count == self@.len(),
                count == self.interfaces@.len(),
                forall|j: int| 0 <= j < i ==> (#[trigger] self@[j]).raw.id != id,
            decreases count - i,
        {
            if self.interfaces[i].raw().id() == id {
                proof {
                    lemma_position_is(self@, id, i as int);
                }
                return Some(i);
            }
            i += 1;
        }
        proof {
            lemma_position(self@, id);
        }
        None
    }

    /// The interface with number `id`. A number that no interface carries finds nothing.
    pub fn get_id(&self, id: u8) -> (interface: Option<&Interface>)
        ensures
            match interface {
                Some(found) => position(self@, id) matches Some(i) && found@ == self@[i],
                None => position(self@, id).is_none(),
            },
    {
        match self.find(id) {
            Some(i) => {
                proof {
                    lemma_position(self@, id);
                }
                Some(&self.interfaces[i])
            },
            None => None,
        }
    }

    /// The interface with number `id`, for the firmware to write reports to and to tick.
    /// A number that no interface carries finds nothing and changes nothing.
    pub fn get_id_mut(&mut self, id: u8) -> (interface: Option<&mut Interface>)
        ensures
            match interface {
                Some(found) => {
                    &&& position(old(self)@, id) matches Some(i)
                    &&& found@ == old(self)@[i]
                    &&& final(self)@ == old(self)@.update(i, final(found)@)
                },
                None => position(old(self)@, id).is_none() && final(self)@ == old(self)@,
            },
    {
        match self.find(id) {
            Some(i) => {
                proof {
                    lemma_position(self@, id);
                }
                self.interface_mut(i)
            },
            None => None,
        }
    }

    /// Position of the interface that `request` is addressed to.
    pub fn find_addressed(&self, request: &Request) -> (found: Option<usize>)
        ensures
            match found {
                Some(i) => addressed(self@, *request) == Some(i as int) && i < self@.len(),
                None => addressed(self@, *request).is_none(),
            },
    {
        if request.index > 255 {
            None
        } else {
            proof {
                lemma_position(self@, request.index as u8);
            }
            self.find(request.index as u8)
        }
    }

    /// The name that string descriptor `index` carries: that of the first interface whose
    /// name has this index.
    pub open spec fn string_of(interfaces: Seq<InterfaceView>, index: u8) -> Option<&'static str>
        decreases interfaces.len(),
    {
        if interfaces.len() == 0 {
            None
        } else {
            match interfaces[0].raw.get_string(index) {
                Some(name) => Some(name),
                None => Self::string_of(interfaces.skip(1), index),
            }
        }
    }

    /// The string that string descriptor `index` carries for this class.
    pub fn get_string(&self, index: u8, lang_id: u16) -> (name: Option<&'static str>)
        ensures
            name == Self::string_of(self@, index),
    {
        let count = self.interfaces.len();
        let mut i: usize = 0;
        proof {
            assert(self@.skip(0) =~= self@);
        }
        while i < count
            invariant
                i <= count,
                count == self@.len(),
                count == self.interfaces@.len(),
                Self::string_of(self@, index) == Self::string_of(self@.skip(i as int), index),
            decreases count - i,
        {
            proof {
                assert(self@.skip(i as int).skip(1) =~= self@.skip(i as int + 1));
            }
            match self.interfaces[i].raw().get_string(index, lang_id) {
                Some(name) => {
                    return Some(name);
                },
                None => {},
            }
            i += 1;
        }
        None
    }

    /// Handles a bus reset: every interface is back at the report protocol and its
    /// default idle rates. Reports that were sent or wait to be sent are kept.
    pub fn reset(&mut self)
        ensures
            final(self)@ == old(self)@.map_values(
                |interface: InterfaceView| interface.with_raw(interface.raw.reset()),
            ),
            old(self).wf() ==> final(self).wf(),
    {
        let count = self.interfaces.len();
        let mut i: usize = 0;
        while i < count
            invariant
                i <= count,
                count == self@.len(),
                count == old(self)@.len(),
                count == self.interfaces@.len(),
                forall|j: int|
                    0 <= j < i ==> (#[trigger] self.interfaces@[j])@ == old(self)@[j].with_raw(
                        old(self)@[j].raw.reset(),
                    ),
                forall|j: int|
                    i <= j < count ==> (#[trigger] self.interfaces@[j])@ == old(self)@[j],
            decreases count - i,
        {
            self.interfaces[i].raw_mut().reset();
            i += 1;
        }
        assert(self@ =~= old(self)@.map_values(
            |interface: InterfaceView| interface.with_raw(interface.raw.reset()),
        ));
        proof {
            if old(self).wf() {
                assert forall|i: int| 0 <= i < self@.len() implies (#[trigger] self@[i]).raw.id
                    == self@[0].raw.id + i by {
                    assert(old(self)@[i].raw.id == old(self)@[0].raw.id + i);
                }
            }
        }
    }

    /// Answers a `GET_DESCRIPTOR` request to `interface`; see [`descriptor_reply`].
    pub fn get_descriptor(request: &Request, interface: &RawInterface) -> (response:
        ControlInResponse)
        ensures
            response@ == descriptor_reply(interface@, *request),
    {
        match DescriptorType::from_code(high_byte_of(request.value)) {
            Some(DescriptorType::Report) => ControlInResponse::Data(
                slice_to_vec(interface.report_descriptor()),
            ),
            Some(DescriptorType::Hid) => {
                let body = interface.hid_descriptor_body();
                let mut buffer: Vec<u8> = Vec::new();
                buffer.push(HID_DESCRIPTOR_LEN as u8);
                buffer.push(DescriptorType::Hid.as_u8());
                let mut i: usize = 0;
                while i < 7
                    invariant
                        i <= 7,
                        buffer@ == seq![HID_DESCRIPTOR_LEN as u8, DescriptorType::Hid.code()]
                            + body@.take(i as int),
                    decreases 7 - i,
                {
                    buffer.push(body[i]);
                    assert(body@.take(i + 1) =~= body@.take(i as int).push(body@[i as int]));
                    assert(buffer@ =~= seq![HID_DESCRIPTOR_LEN as u8, DescriptorType::Hid.code()]
                        + body@.take(i + 1));
                    i += 1;
                }
                assert(body@.take(7) =~= body@);
                ControlInResponse::Data(buffer)
            },
            None => ControlInResponse::Ignored,
        }
    }

    /// Decides a host-to-device control transfer with the payload `data`.
    ///
    /// Class requests to one of the interfaces are routed to it: `SetReport` hands it
    /// the payload, `SetIdle` and `SetProtocol` update its idle rates and protocol. The
    /// response says whether the transfer is to be acknowledged. No other interface is
    /// touched, and a request that is ignored or unsupported changes nothing at all.
    pub fn control_out(&mut self, request: &Request, data: &[u8]) -> (response: ControlOutResponse)
        ensures
            response == control_out_response(old(self)@, *request, data@),
            final(self)@ == after_control_out(old(self)@, *request, data@),
            old(self).wf() ==> final(self).wf(),
    {
        //only respond to Class requests for this interface
        if !(request.request_type == RequestType::Class && request.recipient
            == Recipient::Interface) {
            return ControlOutResponse::Ignored;
        }
        let index = match self.find_addressed(request) {
            Some(index) => index,
            None => {
                return ControlOutResponse::Ignored;
            },
        };
        let ghost before = self@;
        let response = match HidRequest::from_code(request.request) {
            Some(HidRequest::SetReport) => {
                let _ = self.interfaces[index].raw_mut().set_report(data);
                ControlOutResponse::Accepted
            },
            Some(HidRequest::SetIdle) => {
                self.interfaces[index].raw_mut().set_idle(
                    low_byte_of(request.value),
                    high_byte_of(request.value),
                );
                ControlOutResponse::Accepted
            },
            Some(HidRequest::SetProtocol) => {
                match HidProtocol::from_code(low_byte_of(request.value)) {
                    Some(protocol) => {
                        self.interfaces[index].raw_mut().set_protocol(protocol);
                        ControlOutResponse::Accepted
                    },
                    None => ControlOutResponse::Unsupported,
                }
            },
            _ => ControlOutResponse::Ignored,
        };
        proof {
            assert(self@ =~= after_control_out(before, *request, data@));
            if old(self).wf() {
                assert forall|i: int| 0 <= i < self@.len() implies (#[trigger] self@[i]).raw.id
                    == self@[0].raw.id + i by {
                    assert(before[i].raw.id == before[0].raw.id + i);
                }
            }
        }
        response
    }

    /// Decides a device-to-host control transfer.
    ///
    /// Requests to one of the interfaces are answered from its state: the standard
    /// request `GET_DESCRIPTOR` with the report or the HID descriptor, the class
    /// requests `GetReport`, `GetIdle` and `GetProtocol` with the report on offer, an
    /// idle rate and the protocol. Everything else is left unanswered. Nothing changes;
    /// after a `Report` response has reached the host, call
    /// [`UsbHidClass::get_report_ack`].
    pub fn control_in(&self, request: &Request) -> (response: ControlInResponse)
        ensures
            response@ == control_in_reply(self@, *request),
    {
        //only respond to requests for this interface
        if !(request.recipient == Recipient::Interface) {
            return ControlInResponse::Ignored;
        }
        let index = match self.find_addressed(request) {
            Some(index) => index,
            None => {
                return ControlInResponse::Ignored;
            },
        };
        let interface = self.interfaces[index].raw();
        match request.request_type {
            RequestType::Standard => {
                if request.request == GET_DESCRIPTOR {
                    Self::get_descriptor(request, interface)
                } else {
                    ControlInResponse::Ignored
                }
            },
            RequestType::Class => {
                match HidRequest::from_code(request.request) {
                    Some(HidRequest::GetReport) => {
                        let mut data = [0u8;64];
                        match interface.get_report(&mut data) {
                            Ok(n) => {
                                let report = slice_to_vec(slice_subrange(data.as_slice(), 0, n));
                                assert(report@ =~= interface@.control_in_report.packet.unwrap());
                                ControlInResponse::Report(report)
                            },
                            Err(_) => ControlInResponse::Ignored,
                        }
                    },
                    Some(HidRequest::GetIdle) => {
                        let report_id = low_byte_of(request.value);
                        let idle = interface.get_idle(report_id);
                        let mut data: Vec<u8> = Vec::new();
                        data.push(idle);
                        assert(data@ =~= seq![idle]);
                        ControlInResponse::Data(data)
                    },
                    Some(HidRequest::GetProtocol) => {
                        let protocol = interface.get_protocol();
                        let mut data: Vec<u8> = Vec::new();
                        data.push(protocol.as_u8());
                        assert(data@ =~= seq![protocol.code()]);
                        ControlInResponse::Data(data)
                    },
                    _ => ControlInResponse::Ignored,
                }
            },
            _ => ControlInResponse::Ignored,
        }
    }

    /// Notes that the answer to the `GetReport` request `request` has reached the host:
    /// the addressed interface no longer offers the report.
    pub fn get_report_ack(&mut self, request: &Request)
        ensures
            final(self)@ == match addressed(old(self)@, *request) {
                Some(i) => old(self)@.update(
                    i,
                    old(self)@[i].with_raw(old(self)@[i].raw.get_report_ack()),
                ),
                None => old(self)@,
            },
            old(self).wf() ==> final(self).wf(),
    {
        match self.find_addressed(request) {
            Some(index) => {
                let ghost before = self@;
                let _ = self.interfaces[index].raw_mut().get_report_ack();
                proof {
                    assert(self@ =~= before.update(
                        index as int,
                        before[index as int].with_raw(before[index as int].raw.get_report_ack()),
                    ));
                    if old(self).wf() {
                        assert forall|i: int| 0 <= i < self@.len() implies (
                        #[trigger] self@[i]).raw.id == self@[0].raw.id + i by {
                            assert(before[i].raw.id == before[0].raw.id + i);
                        }
                    }
                }
            },
            None => {},
        }
    }
}

} // verus!
