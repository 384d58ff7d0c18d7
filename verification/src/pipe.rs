use vstd::prelude::*;

use crate::completion::{new_completion_channel, ResponseFuture};
use crate::control::{ControlRequest, DATA_MAX};
use crate::device::DeviceHandle;
use crate::errno::{Errno, EINVAL};
use crate::interface::ENDPOINT_MAX;
use crate::urb::Urb;

verus! {

/// The direction of an endpoint that data is sent to
pub const USB_DIR_OUT: u8 = 0x00;

/// The type of the URB of a control transfer
pub const URB_TYPE_CONTROL: u8 = 2;

/// What to hand to the kernel to submit a URB.
pub struct Submission {
    /// the file descriptor of the device
    pub fd: i32,
    /// the id that the URB is submitted under
    pub id: usize,
    /// the URB
    pub urb: Urb,
}

/// Communication channel to an endpoint on an interface of a USB device
#[derive(Debug)]
pub struct ControlPipe {
    fd: i32,
    iface: u32,
    endpoint: u8,
}

/// Whether this is the URB of a control transfer, not carried out yet.
pub open spec fn is_control_urb(urb: Urb, endpoint: u8, packet: Seq<u8>, id: usize) -> bool {
    &&& urb.type_ == URB_TYPE_CONTROL
    &&& urb.endpoint == endpoint
    &&& urb.status == 0
    &&& urb.flags == 0
    &&& urb.buffer@ == packet
    &&& urb.buffer_length == packet.len()
    &&& urb.actual_length == 0
    &&& urb.start_frame == 0
    &&& urb.number_of_packets == 0
    &&& urb.error_count == 0
    &&& urb.signr == 0
    &&& urb.usercontext == id
}

impl ControlPipe {
    /// The file descriptor of the device that the interface belongs to.
    pub closed spec fn device_fd(self) -> i32 {
        self.fd
    }

    /// The number of the interface.
    pub closed spec fn interface(self) -> u32 {
        self.iface
    }

    /// The number of the endpoint.
    pub closed spec fn number(self) -> u8 {
        self.endpoint
    }

    /// An endpoint has a number that an endpoint can have.
    #[verifier::type_invariant]
    spec fn wf(self) -> bool {
        self.endpoint <= ENDPOINT_MAX
    }

    /// The given endpoint of an interface.
    pub(crate) fn new(fd: i32, iface: u32, endpoint: u8) -> (r: ControlPipe)
        requires
            endpoint <= ENDPOINT_MAX,
        ensures
            r.device_fd() == fd,
            r.interface() == iface,
            r.number() == endpoint,
    {
        ControlPipe { fd, iface, endpoint }
    }

    /// Whether the endpoint belongs to that device.
    pub fn belongs_to(&self, dev: &DeviceHandle) -> (r: bool)
        ensures
            r == (dev@.fd == self.device_fd()),
    {
        dev.descriptor() == self.fd
    }

    /// What to hand to the kernel to send a control request to this endpoint. The URB gets the next
    /// id of the device.
    ///
    /// A request with too much data is refused with `EINVAL`.
    pub fn submit_request(&self, dev: &mut DeviceHandle, req: ControlRequest) -> (r: Result<
        Submission,
        Errno,
    >)
        requires
            old(dev)@.fd == self.device_fd(),
            req.data@.len() <= DATA_MAX ==> {
                &&& req.request_type() <= u8::MAX
                &&& !old(dev)@.closed
                &&& old(dev)@.issued < usize::MAX
            },
        ensures
            old(dev)@.wf() ==> final(dev)@.wf(),
            req.data@.len() > DATA_MAX ==> {
                &&& r matches Err(e)
                &&& e.code == EINVAL
                &&& final(dev)@ == old(dev)@
            },
            req.data@.len() <= DATA_MAX ==> {
                &&& r matches Ok(submission)
                &&& final(dev)@ == old(dev)@.issue()
                &&& submission.fd == old(dev)@.fd
                &&& submission.id == final(dev)@.issued
                &&& is_control_urb(
                    submission.urb,
                    self.number(),
                    req.spec_packet(),
                    submission.id,
                )
                &&& self.number() <= ENDPOINT_MAX
            },
    {
        proof {
            use_type_invariant(self);
        }
        if req.data.len() > DATA_MAX {
            return Err(Errno { code: EINVAL });
        }
        let data: Vec<u8> = req.packet();
        let buffer_length: i32 = data.len() as i32;
        let id: usize = dev.next_id();
        let endpoint: u8 = self.endpoint;
        assert(endpoint | 0 == endpoint) by (bit_vector);
        let urb = Urb {
            type_: URB_TYPE_CONTROL,
            endpoint: endpoint | USB_DIR_OUT,
            status: 0,
            flags: 0,
            buffer: data,
            buffer_length,
            actual_length: 0,
            start_frame: 0,
            number_of_packets: 0,
            error_count: 0,
            signr: 0,
            usercontext: id,
        };
        match dev.fd() {
            Ok(fd) => Ok(Submission { fd, id, urb }),
            Err(e) => Err(e),
        }
    }

    /// Send a control request asynchronously to this endpoint, given the kernel's reply to the URB
    /// that was submitted under `id`: an id that was given out, and is not that of another URB whose
    /// completion is awaited.
    ///
    /// The outcome of the request is what the future comes to.
    pub fn submit(&self, dev: &mut DeviceHandle, id: usize, reply: Result<(), Errno>) -> (r: Result<
        ResponseFuture,
        Errno,
    >)
        requires
            old(dev)@.fd == self.device_fd(),
            reply is Ok ==> old(dev)@.can_expect(id),
        ensures
            old(dev)@.wf() ==> final(dev)@.wf(),
            match reply {
                Ok(_) => {
                    &&& r matches Ok(response)
                    &&& final(dev)@ == old(dev)@.expect(id, final(dev)@.pending[id])
                    &&& crate::completion::completion_channel(
                        final(dev)@.pending[id],
                        response.receiver,
                    )
                },
                Err(e) => r == Err::<ResponseFuture, Errno>(e) && final(dev)@ == old(dev)@,
            },
    {
        match reply {
            Err(e) => Err(e),
            Ok(_) => {
                let (sender, receiver) = new_completion_channel();
                dev.add_completion(id, sender);
                Ok(ResponseFuture { receiver })
            },
        }
    }
}

} // verus!
