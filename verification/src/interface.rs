use vstd::prelude::*;

use crate::device::{DeviceHandle, DeviceState};
use crate::errno::{Errno, EBADF};
use crate::pipe::ControlPipe;

verus! {

/// The longest name of a driver, without the nul byte that ends it
pub const MAXDRIVERNAME: usize = 255;

/// Length of the buffer for the name of a driver
pub const DRIVER_LEN: usize = MAXDRIVERNAME + 1;

/// Claim only if the driver of the interface is the given one, or there is none
pub const DISCONNECT_CLAIM_IF_DRIVER: u32 = 0x01;

/// Claim only if the driver of the interface is not the given one
pub const DISCONNECT_CLAIM_EXCEPT_DRIVER: u32 = 0x02;

/// Largest allowed endpoint number
pub const ENDPOINT_MAX: u8 = 0x0f;

/// Should we request that any kernel driver reconnect on release of our claim on an interface,
/// or leave the kernel driver disconnected when our own claim is released?
#[derive(Clone, Copy, PartialEq, Eq, Debug, Structural)]
pub enum ReconnectOptions {
    /// Specifies that we should ask the kernel to reconnect any kernel driver when our own claim
    /// is released
    ReconnectOnRelease,
    /// Specifies that we shouldn't do anything more when our claim is released, so if a kernel
    /// driver was connected before we claimed the interface, it will remain disconnected
    /// afterwards
    StayDisconnectedOnRelease,
}

/// Describes how to handle any driver which may be already connected to a USB interface that
/// we want to claim for ourselves
#[derive(Clone, Copy, PartialEq, Debug)]
pub enum DisconnectOptions<'a> {
    /// Disconnect the existing driver if its name is the given value
    DisconnectIf(&'a str, ReconnectOptions),
    /// Disconnect the existing driver except if its name is the given value
    DisconnectExcept(&'a str, ReconnectOptions),
    /// Leave any existing driver connected
    LeaveConnected,
}

/// The name of the driver in use for a particular interface of the USB device.
/// if the driver is `Driver::UsbFs`, then the interface is already claimed by _usbdevfs_ (whether
/// by the current process, or some other).
#[derive(Clone, PartialEq, Debug)]
pub enum Driver {
    /// indicates that the driver name is `"usbfs"`
    UsbFs,
    /// the driver name (which is something other than `"usbfs"`)
    Other(String),
}

/// A request for the name of the driver of an interface, and in the end the reply.
pub struct GetDriver {
    /// the number of the interface
    pub interface: u32,
    /// the name, ended by a nul byte
    pub driver: [i8; DRIVER_LEN],
}

/// A request to claim an interface, and to disconnect the driver that is connected to it before.
pub struct DisconnectClaim {
    /// the number of the interface
    pub interface: u32,
    /// whether the driver that is connected has to be the one named, or another
    pub flags: u32,
    /// the name of a driver, filled up with nul bytes
    pub driver: [i8; DRIVER_LEN],
}

/// What to hand to the kernel to claim an interface.
pub enum ClaimRequest {
    /// Claim the interface of that number. Fails with `EBUSY` while a driver is connected to it.
    Claim(u32),
    /// Disconnect the driver that is connected to an interface, if it is the right one, and claim the
    /// interface.
    DisconnectClaim(DisconnectClaim),
}

/// What to hand to the kernel to release an interface.
#[derive(Clone, Copy, PartialEq, Eq, Debug, Structural)]
pub struct Release {
    /// the file descriptor of the device
    pub fd: i32,
    /// the number of the interface to release
    pub interface: u32,
    /// the number of the interface to then connect a kernel driver to, if that is wanted
    pub connect: Option<i32>,
}

/// The number of bytes before the first nul byte, or of all bytes where there is none.
pub open spec fn c_len(buf: Seq<i8>) -> nat
    decreases buf.len(),
{
    if buf.len() == 0 || buf[0] == 0 {
        0
    } else {
        1 + c_len(buf.drop_first())
    }
}

/// The bytes before the first nul byte, or all bytes where there is none.
pub open spec fn c_bytes(buf: Seq<i8>) -> Seq<u8> {
    Seq::new(c_len(buf), |i: int| buf[i] as u8)
}

/// The bytes of a name, filled up with nul bytes to the length of the buffer.
pub open spec fn name_buffer(name: Seq<u8>) -> Seq<i8> {
    Seq::new(
        DRIVER_LEN as nat,
        |i: int|
            if i < name.len() {
                name[i] as i8
            } else {
                0i8
            },
    )
}

/// The text that bytes stand for, where any that are not UTF-8 are replaced.
pub uninterp spec fn utf8_lossy(bytes: Seq<u8>) -> Seq<char>;

/// Calls `String::from_utf8_lossy`.
///
/// Bytes that are UTF-8 give the text that they encode. What other bytes give, with the parts that
/// are not UTF-8 replaced by U+FFFD, is only named.
#[verifier::external_body]
fn from_utf8_lossy(bytes: &[u8]) -> (r: String)
    ensures
        r@ == utf8_lossy(bytes@),
        vstd::utf8::valid_utf8(bytes@) ==> r@ == vstd::utf8::decode_utf8(bytes@),
{
    String::from_utf8_lossy(bytes).into_owned()
}

/// The bytes before the first nul byte, or all bytes where there is none.
pub fn bytes_before_nul(buf: &[i8; DRIVER_LEN]) -> (r: Vec<u8>)
    ensures
        r@ == c_bytes(buf@),
{
    let mut bytes: Vec<u8> = Vec::new();
    let mut i: usize = 0;
    assert(buf@.skip(0) =~= buf@);
    while i < DRIVER_LEN && buf[i] != 0
        invariant
            i <= DRIVER_LEN,
            bytes@.len() == i,
            c_len(buf@) == i + c_len(buf@.skip(i as int)),
            forall|j: int| 0 <= j < i ==> #[trigger] bytes@[j] == buf@[j] as u8,
        decreases DRIVER_LEN - i,
    {
        assert(buf@.skip(i as int).drop_first() =~= buf@.skip(i + 1));
        #[verifier::truncate]
        let b: u8 = buf[i] as u8;
        bytes.push(b);
        i = i + 1;
    }
    bytes
}

impl Driver {
    /// Whether this is the driver of that name.
    pub open spec fn is_named(self, name: Seq<char>) -> bool {
        match self {
            Driver::UsbFs => name == "usbfs"@,
            Driver::Other(other) => other@ == name && name != "usbfs"@,
        }
    }

    /// The driver of that name.
    pub fn from_name(name: String) -> (r: Driver)
        ensures
            r.is_named(name@),
    {
        if name == "usbfs".to_owned() {
            Driver::UsbFs
        } else {
            Driver::Other(name)
        }
    }
}

impl<'a> DisconnectOptions<'a> {
    /// The name of the driver that the options are about.
    pub open spec fn driver_name(self) -> Option<Seq<char>> {
        match self {
            DisconnectOptions::DisconnectIf(name, _) => Some(name@),
            DisconnectOptions::DisconnectExcept(name, _) => Some(name@),
            DisconnectOptions::LeaveConnected => None,
        }
    }

    /// The bytes of that name, none if there is none.
    pub open spec fn driver_bytes(self) -> Seq<u8> {
        match self.driver_name() {
            Some(name) => vstd::utf8::encode_utf8(name),
            None => Seq::empty(),
        }
    }

    /// The flags of a request to disconnect a driver and claim, unless drivers are to be left alone.
    pub open spec fn flags(self) -> Option<u32> {
        match self {
            DisconnectOptions::DisconnectIf(_, _) => Some(DISCONNECT_CLAIM_IF_DRIVER),
            DisconnectOptions::DisconnectExcept(_, _) => Some(DISCONNECT_CLAIM_EXCEPT_DRIVER),
            DisconnectOptions::LeaveConnected => None,
        }
    }

    /// What is to happen when a claim with these options is released.
    pub open spec fn reconnect(self) -> ReconnectOptions {
        match self {
            DisconnectOptions::DisconnectIf(_, reconnect) => reconnect,
            DisconnectOptions::DisconnectExcept(_, reconnect) => reconnect,
            DisconnectOptions::LeaveConnected => ReconnectOptions::StayDisconnectedOnRelease,
        }
    }

    /// Whether the name of the driver fits the buffer for it.
    pub fn fits(&self) -> (r: bool)
        ensures
            r == (self.driver_bytes().len() <= DRIVER_LEN),
    {
        match *self {
            DisconnectOptions::DisconnectIf(name, _) => name.as_bytes().len() <= DRIVER_LEN,
            DisconnectOptions::DisconnectExcept(name, _) => name.as_bytes().len() <= DRIVER_LEN,
            DisconnectOptions::LeaveConnected => true,
        }
    }
}

/// The bytes of a name, filled up with nul bytes to the length of the buffer.
fn fill_name(name: &str) -> (r: [i8; DRIVER_LEN])
    requires
        vstd::utf8::encode_utf8(name@).len() <= DRIVER_LEN,
    ensures
        r@ == name_buffer(vstd::utf8::encode_utf8(name@)),
{
    let bytes: &[u8] = name.as_bytes();
    let mut driver: [i8; DRIVER_LEN] = [0i8; DRIVER_LEN];
    let mut n: usize = 0;
    while n < bytes.len()
        invariant
            n <= bytes@.len() <= DRIVER_LEN,
            forall|j: int| 0 <= j < n ==> #[trigger] driver@[j] == bytes@[j] as i8,
            forall|j: int| n <= j < DRIVER_LEN ==> #[trigger] driver@[j] == 0,
        decreases bytes@.len() - n,
    {
        #[verifier::truncate]
        let b: i8 = bytes[n] as i8;
        driver[n] = b;
        n = n + 1;
    }
    assert(driver@ =~= name_buffer(vstd::utf8::encode_utf8(name@)));
    driver
}

/// A handle on a specific interface of a given `DeviceHandle`.  An `UnclaimedInterface` allows
/// the name of the current driver connected to the interface within the kernel to be queried,
/// and may be converted to a `ClaimedInterface` as long as no other driver is connected.
pub struct UnclaimedInterface<'dev> {
    dev: &'dev DeviceHandle,
    iface: u32,
}

impl<'dev> UnclaimedInterface<'dev> {
    /// What the device is at the moment.
    pub closed spec fn device(self) -> DeviceState {
        self.dev@
    }

    /// The number of the interface.
    pub closed spec fn number(self) -> u32 {
        self.iface
    }

    /// The given interface of a device.
    pub(crate) fn new(dev: &'dev DeviceHandle, iface: u32) -> (r: UnclaimedInterface<'dev>)
        ensures
            r.device() == dev@,
            r.number() == iface,
    {
        UnclaimedInterface { dev, iface }
    }

    /// What to hand to the kernel to learn the driver currently attached to the interface.
    pub fn driver_request(&self) -> (r: Result<(i32, GetDriver), Errno>)
        ensures
            self.device().closed ==> (r matches Err(e) && e.code == EBADF),
            !self.device().closed ==> {
                &&& r matches Ok((fd, request))
                &&& fd == self.device().fd
                &&& request.interface == self.number()
                &&& request.driver@ == name_buffer(Seq::empty())
            },
    {
        let request = GetDriver { interface: self.iface, driver: [0i8; DRIVER_LEN] };
        assert(request.driver@ =~= name_buffer(Seq::empty()));
        match self.dev.fd() {
            Ok(fd) => Ok((fd, request)),
            Err(e) => Err(e),
        }
    }

    /// returns the name of the driver currently attached to the interface, given the kernel's reply
    /// to the request for it.
    pub fn driver(&self, reply: Result<GetDriver, Errno>) -> (r: Result<Driver, Errno>)
        ensures
            self.device().closed ==> (r matches Err(e) && e.code == EBADF),
            !self.device().closed ==> match reply {
                Ok(request) => r matches Ok(driver) && driver.is_named(
                    utf8_lossy(c_bytes(request.driver@)),
                ) && (vstd::utf8::valid_utf8(c_bytes(request.driver@)) ==> driver.is_named(
                    vstd::utf8::decode_utf8(c_bytes(request.driver@)),
                )),
                Err(e) => r == Err::<Driver, Errno>(e),
            },
    {
        match self.dev.fd() {
            Err(e) => Err(e),
            Ok(_) => match reply {
                Err(e) => Err(e),
                Ok(request) => {
                    let bytes: Vec<u8> = bytes_before_nul(&request.driver);
                    Ok(Driver::from_name(from_utf8_lossy(bytes.as_slice())))
                },
            },
        }
    }

    /// What to hand to the kernel to claim this interface.
    ///
    /// Only where the options say which driver to disconnect is the kernel asked to disconnect any.
    pub fn disconnect_claim_request(&self, disconnect: DisconnectOptions<'_>) -> (r: Result<
        (i32, ClaimRequest),
        Errno,
    >)
        requires
            disconnect.driver_bytes().len() <= DRIVER_LEN,
        ensures
            self.device().closed ==> (r matches Err(e) && e.code == EBADF),
            !self.device().closed ==> {
                &&& r matches Ok((fd, request))
                &&& fd == self.device().fd
                &&& match disconnect.flags() {
                    None => request == ClaimRequest::Claim(self.number()),
                    Some(flags) => {
                        &&& request matches ClaimRequest::DisconnectClaim(raw)
                        &&& raw.interface == self.number()
                        &&& raw.flags == flags
                        &&& raw.driver@ == name_buffer(disconnect.driver_bytes())
                    },
                }
            },
    {
        let request = match disconnect {
            DisconnectOptions::LeaveConnected => ClaimRequest::Claim(self.iface),
            DisconnectOptions::DisconnectExcept(driver, _) => ClaimRequest::DisconnectClaim(
                DisconnectClaim {
                    interface: self.iface,
                    flags: DISCONNECT_CLAIM_EXCEPT_DRIVER,
                    driver: fill_name(driver),
                },
            ),
            DisconnectOptions::DisconnectIf(driver, _) => ClaimRequest::DisconnectClaim(
                DisconnectClaim {
                    interface: self.iface,
                    flags: DISCONNECT_CLAIM_IF_DRIVER,
                    driver: fill_name(driver),
                },
            ),
        };
        match self.dev.fd() {
            Ok(fd) => Ok((fd, request)),
            Err(e) => Err(e),
        }
    }

    /// Attempt to claim this interface for use via the current device filehandle, given the kernel's
    /// reply to the request for it.
    ///
    /// The given `DisconnectOptions` specify how any driver already connected should be handled.
    /// If a driver is connected when we try to claim the interface, the claim will fail with
    /// `EBUSY`.
    pub fn disconnect_claim(
        self,
        disconnect: DisconnectOptions<'_>,
        reply: Result<(), Errno>,
    ) -> (r: Result<ClaimedInterface, Errno>)
        ensures
            self.device().closed ==> r == Err::<ClaimedInterface, Errno>(Errno { code: EBADF }),
            !self.device().closed ==> match reply {
                Ok(_) => {
                    &&& r matches Ok(claimed)
                    &&& claimed.device_fd() == self.device().fd
                    &&& claimed.number() == self.number()
                    &&& claimed.on_release() == disconnect.reconnect()
                },
                Err(e) => r == Err::<ClaimedInterface, Errno>(e),
            },
    {
        let reconnect = match disconnect {
            DisconnectOptions::LeaveConnected => ReconnectOptions::StayDisconnectedOnRelease,
            DisconnectOptions::DisconnectExcept(_, reconnect) => reconnect,
            DisconnectOptions::DisconnectIf(_, reconnect) => reconnect,
        };
        match self.dev.fd() {
            Err(e) => Err(e),
            Ok(fd) => match reply {
                Err(e) => Err(e),
                Ok(_) => Ok(ClaimedInterface { fd, iface: self.iface, reconnect }),
            },
        }
    }
}

/// An interface which has been claimed for use via this _usbdevfs_ filehandle
#[derive(Debug)]
pub struct ClaimedInterface {
    fd: i32,
    iface: u32,
    reconnect: ReconnectOptions,
}

/// What to hand to the kernel when a claim on an interface ends: nothing, if the device was closed
/// before.
pub open spec fn release_of(
    device: DeviceState,
    iface: u32,
    reconnect: ReconnectOptions,
) -> Option<Release> {
    if device.closed {
        None
    } else {
        Some(
            Release {
                fd: device.fd,
                interface: iface,
                connect: if reconnect == ReconnectOptions::ReconnectOnRelease {
                    Some(iface as i32)
                } else {
                    None
                },
            },
        )
    }
}

impl ClaimedInterface {
    /// The file descriptor of the device that the interface belongs to.
    pub closed spec fn device_fd(self) -> i32 {
        self.fd
    }

    /// The number of the interface.
    pub closed spec fn number(self) -> u32 {
        self.iface
    }

    /// What is to happen when the claim is released.
    pub closed spec fn on_release(self) -> ReconnectOptions {
        self.reconnect
    }

    /// Whether the interface belongs to that device.
    pub fn belongs_to(&self, dev: &DeviceHandle) -> (r: bool)
        ensures
            r == (dev@.fd == self.device_fd()),
    {
        dev.descriptor() == self.fd
    }

    /// What to hand to the kernel when the claim ends, on the device that it was made on. Nothing, if
    /// the device was closed before.
    pub fn release(self, dev: &DeviceHandle) -> (r: Option<Release>)
        requires
            dev@.fd == self.device_fd(),
        ensures
            r == release_of(dev@, self.number(), self.on_release()),
    {
        let fd: i32 = match dev.fd() {
            Ok(fd) => fd,
            Err(_) => {
                return None;
            },
        };
        let connect = if self.reconnect == ReconnectOptions::ReconnectOnRelease {
            #[verifier::truncate]
            let iface: i32 = self.iface as i32;
            Some(iface)
        } else {
            None
        };
        Some(Release { fd, interface: self.iface, connect })
    }

    /// Create an endpoint object to send and receive data from the given endpoint of the interface
    ///
    /// The endpoint cannot be greater than `ENDPOINT_MAX`.
    pub fn endpoint_control(&self, endpoint: u8) -> (r: ControlPipe)
        requires
            endpoint <= ENDPOINT_MAX,
        ensures
            r.device_fd() == self.device_fd(),
            r.interface() == self.number(),
            r.number() == endpoint,
    {
        ControlPipe::new(self.fd, self.iface, endpoint)
    }
}

} // verus!
