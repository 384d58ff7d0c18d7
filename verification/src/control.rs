use vstd::prelude::*;

verus! {

/// Length of a USB _SETUP_ packet
pub const SETUP_LEN: usize = 8;

/// The most data that a control request can carry: with the _SETUP_ packet before it, its length is
/// the greatest `i16`
pub const DATA_MAX: usize = 0x7fff - SETUP_LEN;

/// The direction in which the request seeks to send data
#[derive(Clone, Copy, PartialEq, Eq, Debug)]
pub enum TransferDirection {
    /// A request sending data to the USB device
    HostToDevice,
    /// A request to receive data from the USB device
    DeviceToHost,
}

/// The kind of request being made
#[derive(Clone, Copy, PartialEq, Eq, Debug)]
pub enum ReqType {
    /// A request defined in the USB standard
    Standard,
    /// A request defined for a particular USB device class
    Class,
    /// Vendor-defined / device-specific request type
    Vendor,
    /// Not used
    Reserved,
}

/// The element of the USB device to which the request is directed
#[derive(Clone, Copy, PartialEq, Eq, Debug)]
pub enum Recipient {
    /// The request is for the device
    Device,
    /// The request is for a specific interface of the device
    Interface,
    /// The request is for a specific endpoint of an interface
    Endpoint,
    /// Destination other than `Device`, `Interface` or `Endpoint`
    Other,
    /// Not used
    Reserved(u8),
}

/// A USB control request.
///
/// Includes the fields of the USB _SETUP_ packet, and a `data` buffer for contents of _DATA_
/// packets.
pub struct ControlRequest {
    /// The _Data Phase Transfer Direction_ component of the USB `bmRequestType` field
    pub direction: TransferDirection,
    /// The _Type_ component of the USB `bmRequestType` field
    pub req_type: ReqType,
    /// The _Recipient_ component of the USB `bmRequestType` field
    pub recipient: Recipient,
    /// `bRequest`
    pub request: u8,
    /// `wValue`
    pub value: u16,
    /// `wIndex`
    pub index: u16,
    /// length of data provides the value for the USB _SETUP_ packet `wLength` field
    pub data: Vec<u8>,
}

/// A 16 bit number as two bytes, the lower one first.
pub open spec fn le16(n: u16) -> Seq<u8> {
    seq![(n % 256) as u8, (n / 256) as u8]
}

/// Calls `byteorder::WriteBytesExt::write_u8` on a `Vec`.
///
/// The byte is appended. Writing to a `Vec` does not fail.
#[verifier::external_body]
fn write_u8(buf: &mut Vec<u8>, n: u8)
    requires
        old(buf)@.len() < isize::MAX,
    ensures
        final(buf)@ == old(buf)@.push(n),
{
    byteorder::WriteBytesExt::write_u8(buf, n).unwrap()
}

/// Calls `byteorder::WriteBytesExt::write_u16` for `byteorder::LittleEndian` on a `Vec`.
///
/// The two bytes of the number are appended, the lower one first. Writing to a `Vec` does not fail.
#[verifier::external_body]
fn write_u16(buf: &mut Vec<u8>, n: u16)
    requires
        old(buf)@.len() + 1 < isize::MAX,
    ensures
        final(buf)@ == old(buf)@ + le16(n),
{
    byteorder::WriteBytesExt::write_u16::<byteorder::LittleEndian>(buf, n).unwrap()
}

impl TransferDirection {
    /// The number of the direction, in its place in `bmRequestType`: bit 7.
    pub open spec fn bits(self) -> int {
        match self {
            TransferDirection::HostToDevice => 0,
            TransferDirection::DeviceToHost => 128,
        }
    }
}

impl ReqType {
    /// The number of the type, in its place in `bmRequestType`: bits 5 and 6.
    pub open spec fn bits(self) -> int {
        match self {
            ReqType::Standard => 0,
            ReqType::Class => 32,
            ReqType::Vendor => 64,
            ReqType::Reserved => 96,
        }
    }
}

impl Recipient {
    /// The number of the recipient, in its place in `bmRequestType`: bits 0 to 4.
    pub open spec fn bits(self) -> int {
        match self {
            Recipient::Device => 0,
            Recipient::Interface => 1,
            Recipient::Endpoint => 2,
            Recipient::Other => 3,
            Recipient::Reserved(v) => v as int,
        }
    }
}

impl ControlRequest {
    /// The number that the three components of `bmRequestType` come to.
    pub open spec fn request_type(self) -> int {
        self.direction.bits() + self.req_type.bits() + self.recipient.bits()
    }

    /// The _SETUP_ packet: `bmRequestType`, `bRequest`, `wValue`, `wIndex` and `wLength`.
    pub open spec fn setup(self) -> Seq<u8> {
        seq![self.request_type() as u8, self.request] + le16(self.value) + le16(self.index) + le16(
            self.data@.len() as u16,
        )
    }

    /// The _SETUP_ packet, and the data behind it.
    pub open spec fn spec_packet(self) -> Seq<u8> {
        self.setup() + self.data@
    }

    /// Whether the components of `bmRequestType` come to no more than a byte holds.
    ///
    /// They do for every recipient but some of `Recipient::Reserved`.
    pub fn has_request_type(&self) -> (r: bool)
        ensures
            r == (self.request_type() <= u8::MAX),
    {
        let others: u8 = (match self.direction {
            TransferDirection::HostToDevice => 0u8,
            TransferDirection::DeviceToHost => 0x80u8,
        }) + (match self.req_type {
            ReqType::Standard => 0u8,
            ReqType::Class => 0x20u8,
            ReqType::Vendor => 0x40u8,
            ReqType::Reserved => 0x60u8,
        });
        match self.recipient {
            Recipient::Reserved(v) => v <= u8::MAX - others,
            _ => true,
        }
    }

    /// The USB `bmRequestType` field of the request.
    pub fn usb_request_type(&self) -> (r: u8)
        requires
            self.request_type() <= u8::MAX,
        ensures
            r == self.request_type(),
    {
        (match self.direction {
            TransferDirection::HostToDevice => 0b0000_0000u8,
            TransferDirection::DeviceToHost => 0b1000_0000u8,
        }) + (match self.req_type {
            ReqType::Standard => 0b0000_0000u8,
            ReqType::Class => 0b0010_0000u8,
            ReqType::Vendor => 0b0100_0000u8,
            ReqType::Reserved => 0b0110_0000u8,
        }) + match self.recipient {
            Recipient::Device => 0b0000_0000u8,
            Recipient::Interface => 0b0000_0001u8,
            Recipient::Endpoint => 0b0000_0010u8,
            Recipient::Other => 0b0000_0011u8,
            Recipient::Reserved(v) => v,
        }
    }

    /// The bytes that the request is made of: the _SETUP_ packet, and the data behind it.
    pub fn packet(&self) -> (r: Vec<u8>)
        requires
            self.request_type() <= u8::MAX,
            self.data@.len() <= DATA_MAX,
        ensures
            r@ == self.spec_packet(),
    {
        let mut data: Vec<u8> = Vec::with_capacity(self.data.len() + SETUP_LEN);
        write_u8(&mut data, self.usb_request_type());
        write_u8(&mut data, self.request);
        write_u16(&mut data, self.value);
        write_u16(&mut data, self.index);
        write_u16(&mut data, self.data.len() as u16);
        assert(data@ =~= self.setup());
        data.extend_from_slice(self.data.as_slice());
        assert(data@ =~= self.spec_packet());
        data
    }
}

} // verus!
