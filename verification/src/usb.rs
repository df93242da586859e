//! The bus-facing vocabulary of the engine: control requests, transport errors and the
//! one-packet buffers that sit between an interface and the bus driver.
//!
//! Nothing here touches hardware. The firmware glue moves packets between these buffers
//! and the real peripheral, and turns the driver's own request and error values into the
//! ones below.

use vstd::prelude::*;
use vstd::slice::slice_to_vec;

verus! {

/// Direction of the data stage of a control transfer, seen from the host.
#[derive(Clone, Copy, Debug, PartialEq, Eq, Structural)]
pub enum UsbDirection {
    /// Host to device.
    Out,
    /// Device to host.
    In,
}

/// Who defines the meaning of a control request.
#[derive(Clone, Copy, Debug, PartialEq, Eq, Structural)]
pub enum RequestType {
    /// Defined by the USB standard.
    Standard,
    /// Defined by a device class, here HID.
    Class,
    /// Defined by the vendor.
    Vendor,
    /// Reserved.
    Reserved,
}

/// What a control request is addressed to.
#[derive(Clone, Copy, Debug, PartialEq, Eq, Structural)]
pub enum Recipient {
    /// The device as a whole.
    Device,
    /// One interface; the request's `index` carries its number.
    Interface,
    /// One endpoint.
    Endpoint,
    /// None of the above.
    Other,
    /// Reserved.
    Reserved,
}

/// The setup packet of a control transfer.
#[derive(Clone, Copy, Debug, PartialEq, Eq, Structural)]
pub struct Request {
    /// Direction of the data stage.
    pub direction: UsbDirection,
    /// Type of the request.
    pub request_type: RequestType,
    /// Recipient of the request.
    pub recipient: Recipient,
    /// Request code; its meaning depends on `request_type`.
    pub request: u8,
    /// Request value.
    pub value: u16,
    /// Request index; the interface number for an interface recipient.
    pub index: u16,
    /// Length of the data stage in bytes.
    pub length: u16,
}

/// Standard request code `GET_DESCRIPTOR`.
pub const GET_DESCRIPTOR: u8 = 6;

/// Errors of the transport below an interface.
#[derive(Clone, Copy, Debug, PartialEq, Eq, Structural)]
pub enum UsbError {
    /// The operation cannot complete now; try again later.
    WouldBlock,
    /// Malformed data.
    ParseError,
    /// The data does not fit the buffer it was meant for.
    BufferOverflow,
    /// No endpoint left to allocate.
    EndpointOverflow,
    /// No endpoint memory left to allocate.
    EndpointMemoryOverflow,
    /// The endpoint does not exist.
    InvalidEndpoint,
    /// The operation is not supported.
    Unsupported,
    /// The operation is not valid in the current state.
    InvalidState,
}

/// What a [`PacketBuffer`] holds, as plain values.
pub struct PacketBufferView {
    /// Largest packet the buffer accepts, in bytes.
    pub capacity: usize,
    /// The packet in the buffer, if any.
    pub packet: Option<Seq<u8>>,
}

impl PacketBufferView {
    /// The answer to an attempt to put `data` into the buffer.
    pub open spec fn put_result(self, data: Seq<u8>) -> Result<usize, UsbError> {
        if self.packet.is_some() {
            Err(UsbError::WouldBlock)
        } else if data.len() > self.capacity {
            Err(UsbError::BufferOverflow)
        } else {
            Ok(data.len() as usize)
        }
    }

    /// The buffer after an attempt to put `data` into it: a refused packet leaves it as
    /// it was.
    pub open spec fn put(self, data: Seq<u8>) -> PacketBufferView {
        if self.put_result(data).is_ok() {
            PacketBufferView { capacity: self.capacity, packet: Some(data) }
        } else {
            self
        }
    }

    /// The answer to an attempt to copy the packet into `room` bytes.
    pub open spec fn copy_result(self, room: nat) -> Result<usize, UsbError> {
        match self.packet {
            None => Err(UsbError::WouldBlock),
            Some(packet) => if packet.len() > room {
                Err(UsbError::BufferOverflow)
            } else {
                Ok(packet.len() as usize)
            },
        }
    }

    /// What a caller's buffer `dest` holds after an attempt to copy the packet to its
    /// front: the packet followed by the rest of `dest`, or `dest` untouched on failure.
    pub open spec fn copied_into(self, dest: Seq<u8>) -> Seq<u8> {
        match self.copy_result(dest.len()) {
            Ok(n) => self.packet.unwrap() + dest.skip(n as int),
            Err(_) => dest,
        }
    }

    /// The buffer after an attempt to read the packet into `room` bytes: emptied on
    /// success, untouched on failure.
    pub open spec fn read(self, room: nat) -> PacketBufferView {
        if self.copy_result(room).is_ok() {
            self.cleared()
        } else {
            self
        }
    }

    /// The same buffer without a packet.
    pub open spec fn cleared(self) -> PacketBufferView {
        PacketBufferView { capacity: self.capacity, packet: None }
    }
}

/// A buffer for at most one packet.
///
/// The IN and OUT endpoints of an interface and its two control-transfer report
/// buffers are all of this kind. One side puts a packet in, the other takes it out;
/// while a packet waits every further `put` is refused, so a report is never
/// overwritten or dropped without the writer being told.
#[derive(Debug)]
pub struct PacketBuffer {
    capacity: usize,
    packet: Option<Vec<u8>>,
}

impl View for PacketBuffer {
    type V = PacketBufferView;

    closed spec fn view(&self) -> PacketBufferView {
        PacketBufferView {
            capacity: self.capacity,
            packet: match self.packet {
                Some(packet) => Some(packet@),
                None => None,
            },
        }
    }
}

impl PacketBuffer {
    /// An empty buffer for packets of up to `capacity` bytes.
    pub fn new(capacity: usize) -> (buffer: PacketBuffer)
        ensures
            buffer@ == (PacketBufferView { capacity, packet: None }),
    {
        PacketBuffer { capacity, packet: None }
    }

    /// Largest packet the buffer accepts.
    pub fn capacity(&self) -> (capacity: usize)
        ensures
            capacity == self@.capacity,
    {
        self.capacity
    }

    /// True when no packet waits in the buffer.
    pub fn is_empty(&self) -> (empty: bool)
        ensures
            empty == self@.packet.is_none(),
    {
        self.packet.is_none()
    }

    /// Puts `data` into the buffer.
    ///
    /// Fails with `WouldBlock` while an earlier packet still waits and with
    /// `BufferOverflow` if `data` is longer than the capacity. A failed call changes
    /// nothing.
    pub fn put(&mut self, data: &[u8]) -> (result: Result<usize, UsbError>)
        ensures
            result == old(self)@.put_result(data@),
            final(self)@ == old(self)@.put(data@),
    {
        if self.packet.is_some() {
            Err(UsbError::WouldBlock)
        } else if data.len() > self.capacity {
            Err(UsbError::BufferOverflow)
        } else {
            self.packet = Some(slice_to_vec(data));
            Ok(data.len())
        }
    }

    /// Copies the waiting packet to the front of `data` and leaves it in the buffer.
    ///
    /// Fails with `WouldBlock` if the buffer is empty and with `BufferOverflow` if `data`
    /// is too short for the packet; `data` is then untouched.
    pub fn copy_to(&self, data: &mut [u8]) -> (result: Result<usize, UsbError>)
        ensures
            result == self@.copy_result(old(data)@.len()),
            final(data)@ == self@.copied_into(old(data)@),
    {
        match &self.packet {
            None => Err(UsbError::WouldBlock),
            Some(packet) => {
                let n = packet.len();
                if n > data.len() {
                    Err(UsbError::BufferOverflow)
                } else {
                    copy_to_front(data, packet);
                    Ok(n)
                }
            },
        }
    }

    /// Copies the waiting packet to the front of `data` and empties the buffer.
    ///
    /// Fails as [`PacketBuffer::copy_to`] does; the packet then stays in the buffer.
    pub fn read(&mut self, data: &mut [u8]) -> (result: Result<usize, UsbError>)
        ensures
            result == old(self)@.copy_result(old(data)@.len()),
            final(data)@ == old(self)@.copied_into(old(data)@),
            final(self)@ == old(self)@.read(old(data)@.len()),
    {
        let result = self.copy_to(data);
        if result.is_ok() {
            self.packet = None;
        }
        result
    }

    /// The waiting packet, which stays in the buffer.
    pub fn peek(&self) -> (packet: Option<&Vec<u8>>)
        ensures
            match packet {
                Some(bytes) => self@.packet == Some(bytes@),
                None => self@.packet.is_none(),
            },
    {
        self.packet.as_ref()
    }

    /// Removes the waiting packet and hands it out.
    pub fn take(&mut self) -> (packet: Option<Vec<u8>>)
        ensures
            final(self)@ == old(self)@.cleared(),
            match packet {
                Some(bytes) => old(self)@.packet == Some(bytes@),
                None => old(self)@.packet.is_none(),
            },
    {
        self.packet.take()
    }

    /// Discards the waiting packet, if any.
    pub fn clear(&mut self)
        ensures
            final(self)@ == old(self)@.cleared(),
    {
        self.packet = None;
    }
}

/// Overwrites the first `src.len()` bytes of `dst` with `src`.
pub(crate) fn copy_to_front(dst: &mut [u8], src: &Vec<u8>)
    requires
        src@.len() <= old(dst)@.len(),
    ensures
        final(dst)@ == src@ + old(dst)@.skip(src@.len() as int),
{
    let n = src.len();
    let mut i: usize = 0;
    while i < n
        invariant
            n == src@.len(),
            n <= dst@.len(),
            dst@.len() == old(dst)@.len(),
            i <= n,
            forall|j: int| 0 <= j < i ==> dst@[j] == src@[j],
            forall|j: int| i <= j < dst@.len() ==> dst@[j] == old(dst)@[j],
        decreases n - i,
    {
        dst[i] = src[i];
        i += 1;
    }
    assert(dst@ =~= src@ + old(dst)@.skip(n as int));
}

} // verus!
