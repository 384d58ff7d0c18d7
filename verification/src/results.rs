//! What the operations of the library give, said of any result that a call can have.

use futures::unsync::oneshot::{Receiver, Sender};
use vstd::prelude::*;

use crate::capabilities::Capabilities;
use crate::completion::{Canceled, Completion, CompletionSet, ResponseFuture};
use crate::control::{ControlRequest, Recipient};
use crate::device::{Closing, DeviceHandle, DeviceInner, DeviceState, Fault, Loop, LoopEvent};
use crate::errno::Errno;
use crate::interface::{
    ClaimRequest, ClaimedInterface, DisconnectOptions, Driver, GetDriver, ReconnectOptions, Release,
    UnclaimedInterface,
};
use crate::pipe::{ControlPipe, Submission};
use crate::poll::Async;
use crate::reap::{Reap, ReapAction, ReapEvent};
use crate::urb::{Urb, UrbWrap};

verus! {

/// The limits and numbers that the kernel and USB give.
pub proof fn law_numbers()
    ensures
        crate::errno::EIO == 5,
        crate::errno::EBADF == 9,
        crate::errno::EAGAIN == 11,
        crate::errno::EINVAL == 22,
        crate::control::SETUP_LEN == 8,
        crate::control::DATA_MAX == i16::MAX - 8,
        crate::interface::MAXDRIVERNAME == 255,
        crate::interface::DRIVER_LEN == 256,
        crate::interface::DISCONNECT_CLAIM_IF_DRIVER == 1,
        crate::interface::DISCONNECT_CLAIM_EXCEPT_DRIVER == 2,
        crate::interface::ENDPOINT_MAX == 15,
        crate::pipe::USB_DIR_OUT == 0,
        crate::pipe::URB_TYPE_CONTROL == 2,
        crate::capabilities::CAP_ZERO_PACKET == 1,
        crate::capabilities::CAP_BULK_CONTINUATION == 2,
        crate::capabilities::CAP_NO_PACKET_SIZE_LIM == 4,
        crate::capabilities::CAP_BULK_SCATTER_GATHER == 8,
        crate::capabilities::CAP_REAP_AFTER_DISCONNECT == 16,
        crate::capabilities::CAP_MMAP == 32,
        crate::capabilities::CAP_DROP_PRIVILEGES == 64,
{
}

/// An integer that is an error's number stands for that error, and any other for an error without
/// a number.
pub proof fn law_from_i32(e: i32, r: Errno)
    requires
        call_ensures(Errno::from_i32, (e,), r),
    ensures
        r.code == crate::errno::errno_code(e),
        e <= 0 ==> r.code == 0,
        1 <= e <= 34 ==> r.code == e,
        e > 34 && crate::errno::has_name(e) ==> r.code == e,
        e > 34 && !crate::errno::has_name(e) ==> r.code == 0,
{
}

/// The completion of a URB is that very URB if and only if its status is 0, whatever else it
/// holds; otherwise it is the error that the status stands for.
pub proof fn law_completion(urb: UrbWrap)
    ensures
        urb.urb.status == 0 <==> urb.completion() is Ok,
        urb.completion() matches Ok(same) ==> same == urb,
        urb.completion() matches Err(e) ==> {
            &&& urb.urb.status < 0 ==> e.code == 0
            &&& 1 <= urb.urb.status <= 34 ==> e.code == urb.urb.status
            &&& urb.urb.status > 34 ==> e.code == (if crate::errno::has_name(urb.urb.status) {
                urb.urb.status
            } else {
                0
            })
        },
{
}

/// What `into_completion` gives is the URB unchanged if and only if its status is 0, and otherwise
/// the error that `Errno::from_i32` gives for the status; `completed` gives the error that it is
/// handed.
pub proof fn law_into_completion(urb: UrbWrap, r: Completion, errno: Errno, given: Completion)
    requires
        call_ensures(UrbWrap::into_completion, (urb,), r),
        call_ensures(UrbWrap::completed, (urb, errno), given),
    ensures
        urb.urb.status == 0 ==> r == Ok::<UrbWrap, Errno>(urb) && given == Ok::<UrbWrap, Errno>(
            urb,
        ),
        urb.urb.status != 0 ==> r is Err && given == Err::<UrbWrap, Errno>(errno),
        urb.urb.status != 0 && call_ensures(Errno::from_i32, (urb.urb.status,), errno) ==> r
            == given,
        r == urb.completion(),
{
}

/// The id of a URB is its `usercontext`, and its data are the bytes of its buffer from the first
/// on, as many as were transferred.
pub proof fn law_id_and_data(urb: &UrbWrap, id: usize, data: &[u8])
    requires
        0 <= urb.urb.actual_length <= urb.urb.buffer@.len(),
        call_ensures(UrbWrap::id, (urb,), id),
        call_ensures(UrbWrap::data, (urb,), data),
    ensures
        id == urb.urb.usercontext,
        urb.spec_id() == urb.urb.usercontext,
        data@.len() == urb.urb.actual_length,
        forall|i: int| 0 <= i < data@.len() ==> #[trigger] data@[i] == urb.urb.buffer@[i],
{
}

/// The first byte of a packet, `bmRequestType`, has the direction in bit 7, the type in the two
/// bits below and the recipient in the rest, to which a reserved recipient adds its own number.
pub proof fn law_request_type_numbers(req: ControlRequest)
    ensures
        ({
            let recipient = match req.recipient {
                Recipient::Device => 0,
                Recipient::Interface => 1,
                Recipient::Endpoint => 2,
                Recipient::Other => 3,
                Recipient::Reserved(v) => v as int,
            };
            let others = req.request_type() - recipient;
            &&& others / 128 == 1 <==> req.direction is DeviceToHost
            &&& others / 128 == 0 <==> req.direction is HostToDevice
            &&& others % 128 == 0 <==> req.req_type is Standard
            &&& others % 128 == 32 <==> req.req_type is Class
            &&& others % 128 == 64 <==> req.req_type is Vendor
            &&& others % 128 == 96 <==> req.req_type is Reserved
            &&& req.recipient.bits() == recipient
        }),
{
}

/// What `usb_request_type` and `has_request_type` give: the number, and whether it fits a byte.
pub proof fn law_usb_request_type(req: &ControlRequest, r: u8, fits: bool)
    requires
        call_ensures(ControlRequest::has_request_type, (req,), fits),
        call_ensures(ControlRequest::usb_request_type, (req,), r),
    ensures
        fits <==> req.request_type() <= 255,
        r == req.request_type(),
        !(req.recipient is Reserved) ==> fits,
{
}

/// A packet is eight bytes of fields, 16 bit numbers with the lower byte first, and then the data.
pub proof fn law_packet(req: &ControlRequest, r: Vec<u8>)
    requires
        call_ensures(ControlRequest::packet, (req,), r),
        req.request_type() <= 255,
        req.data@.len() <= 32759,
    ensures
        r@ == req.spec_packet(),
        r@.len() == 8 + req.data@.len(),
        r@[0] == req.request_type(),
        r@[1] == req.request,
        r@[2] == req.value % 256,
        r@[3] == req.value / 256,
        r@[4] == req.index % 256,
        r@[5] == req.index / 256,
        r@[6] == req.data@.len() % 256,
        r@[7] == req.data@.len() / 256,
        forall|i: int| 0 <= i < req.data@.len() ==> #[trigger] r@[8 + i] == req.data@[i],
{
}

/// Of the bits of a reply the seven lowest are kept, and no other.
pub proof fn law_capabilities(
    dev: &DeviceHandle,
    reply: Result<u32, Errno>,
    r: Result<Capabilities, Errno>,
    bits: u32,
    caps: Capabilities,
)
    requires
        call_ensures(DeviceHandle::capabilities, (dev, reply), r),
        call_ensures(Capabilities::from_bits_truncate, (bits,), caps),
    ensures
        caps.bits == bits % 128,
        dev@.closed ==> (r matches Err(e) && e.code == 9),
        !dev@.closed ==> match reply {
            Ok(bits) => r matches Ok(caps) && caps.bits == bits % 128,
            Err(e) => r == Err::<Capabilities, Errno>(e),
        },
{
    lemma_low_bits(bits);
    if reply is Ok {
        lemma_low_bits(reply->Ok_0);
    }
}

proof fn lemma_low_bits(bits: u32)
    ensures
        bits & crate::capabilities::CAP_ALL == bits % 128,
{
    assert(1u32 | 2 | 4 | 8 | 0x10 | 0x20 | 0x40 == 0x7f) by (bit_vector);
    assert(bits & 0x7f == bits % 128) by (bit_vector);
}

/// A new handle is open, has given out no id and awaits nothing, and its signal to stop reaping
/// arrives where reaping will listen for it.
pub proof fn law_new(fd: i32, dev: DeviceHandle)
    requires
        call_ensures(DeviceHandle::new, (fd,), dev),
    ensures
        dev@.fd == fd,
        !dev@.closed,
        dev@.issued == 0,
        forall|id: usize| !(#[trigger] dev@.pending.contains_key(id)),
        dev@.close_sender matches Some(sender) && dev@.close_receiver matches Some(receiver)
            && crate::completion::close_channel(sender, receiver),
        dev@.wf(),
{
}

/// What makes a handle valid, and nothing else does: the URBs that are awaited have ids that were
/// given out, the handle is closed exactly when the signal to stop reaping was given, and
/// otherwise the signal arrives where reaping will listen, if it has not started.
pub proof fn law_valid(state: DeviceState)
    ensures
        state.wf() <==> {
            &&& !state.pending.contains_key(0)
            &&& forall|id: usize|
                id > state.issued ==> !(#[trigger] state.pending.contains_key(id))
            &&& state.closed == (state.close_sender is None)
            &&& state.close_sender is Some && state.close_receiver is Some
                ==> crate::completion::close_channel(
                state.close_sender->0,
                state.close_receiver->0,
            )
        },
{
}

/// A set of completions starts empty.
pub proof fn law_default(set: CompletionSet)
    requires
        call_ensures(CompletionSet::default, (), set),
    ensures
        set.completion_seq == 0,
        forall|id: usize| !(#[trigger] set.completions@.contains_key(id)),
{
}

/// What an open handle tells of itself. A closed one has `EBADF` for whatever needs the device.
pub proof fn law_queries(
    dev: &DeviceHandle,
    closed: bool,
    io: Result<&DeviceInner, Errno>,
    fd: Result<i32, Errno>,
    completions: Result<&CompletionSet, Errno>,
    has_next_id: bool,
    can_spawn: bool,
)
    requires
        call_ensures(DeviceHandle::is_closed, (dev,), closed),
        call_ensures(DeviceHandle::io, (dev,), io),
        call_ensures(DeviceHandle::fd, (dev,), fd),
        call_ensures(DeviceHandle::completions, (dev,), completions),
        call_ensures(DeviceHandle::has_next_id, (dev,), has_next_id),
        call_ensures(DeviceHandle::can_spawn, (dev,), can_spawn),
    ensures
        closed == dev@.closed,
        can_spawn <==> dev@.close_receiver is Some,
        has_next_id <==> !dev@.closed && dev@.issued < usize::MAX,
        dev@.closed ==> {
            &&& io matches Err(e) && e.code == 9
            &&& fd matches Err(e) && e.code == 9
            &&& completions matches Err(e) && e.code == 9
        },
        !dev@.closed ==> {
            &&& io matches Ok(inner) && inner.fd == dev@.fd
            &&& fd == Ok::<i32, Errno>(dev@.fd)
            &&& completions matches Ok(set) && set.completion_seq == dev@.issued
                && set.completions@ == dev@.pending
        },
{
}

/// Whether a completion is awaited, or can be, under an id.
pub proof fn law_queries_by_id(dev: &DeviceHandle, id: usize, awaited: bool, can: bool)
    requires
        call_ensures(DeviceHandle::has_completion, (dev, id), awaited),
        call_ensures(DeviceHandle::can_expect, (dev, id), can),
    ensures
        awaited <==> dev@.pending.contains_key(id),
        can <==> !dev@.closed && 0 < id && id <= dev@.issued && !awaited,
        can == dev@.can_expect(id),
{
}

/// An id is one more than the last, and nothing else about the handle changes.
pub proof fn law_next_id(dev: &mut DeviceHandle, id: usize)
    requires
        call_ensures(DeviceHandle::next_id, (dev,), id),
        dev@.issued < usize::MAX,
    ensures
        id == old(dev)@.issued + 1,
        final(dev)@.issued == id,
        final(dev)@.fd == old(dev)@.fd,
        final(dev)@.closed == old(dev)@.closed,
        final(dev)@.pending == old(dev)@.pending,
        final(dev)@.close_sender == old(dev)@.close_sender,
        final(dev)@.close_receiver == old(dev)@.close_receiver,
{
}

/// A completion is from then on awaited under its id, and nothing else about the handle changes.
pub proof fn law_add_completion(dev: &mut DeviceHandle, id: usize, sender: Sender<Completion>)
    requires
        call_ensures(DeviceHandle::add_completion, (dev, id, sender), ()),
    ensures
        final(dev)@.pending.contains_key(id),
        final(dev)@.pending[id] == sender,
        forall|other: usize|
            other != id ==> (#[trigger] final(dev)@.pending.contains_key(other)
                <==> old(dev)@.pending.contains_key(other)),
        forall|other: usize|
            other != id && old(dev)@.pending.contains_key(other)
                ==> #[trigger] final(dev)@.pending[other] == old(dev)@.pending[other],
        final(dev)@.issued == old(dev)@.issued,
        final(dev)@.fd == old(dev)@.fd,
        final(dev)@.closed == old(dev)@.closed,
        final(dev)@.close_sender == old(dev)@.close_sender,
        final(dev)@.close_receiver == old(dev)@.close_receiver,
{
}

/// A URB that comes back to an open handle is no longer awaited, every other one still is, and
/// nothing else about the handle changes. A closed handle does not change at all.
pub proof fn law_take_completion_state(
    dev: &mut DeviceHandle,
    urb: UrbWrap,
    r: Result<Option<(Sender<Completion>, Completion)>, Errno>,
)
    requires
        call_ensures(DeviceHandle::take_completion, (dev, urb), r),
    ensures
        old(dev)@.closed ==> final(dev)@ == old(dev)@,
        !old(dev)@.closed ==> !final(dev)@.pending.contains_key(urb.urb.usercontext),
        forall|other: usize|
            other != urb.urb.usercontext ==> (#[trigger] final(dev)@.pending.contains_key(other)
                <==> old(dev)@.pending.contains_key(other)),
        forall|other: usize|
            other != urb.urb.usercontext && old(dev)@.pending.contains_key(other)
                ==> #[trigger] final(dev)@.pending[other] == old(dev)@.pending[other],
        final(dev)@.issued == old(dev)@.issued,
        final(dev)@.fd == old(dev)@.fd,
        final(dev)@.closed == old(dev)@.closed,
        final(dev)@.close_sender == old(dev)@.close_sender,
        final(dev)@.close_receiver == old(dev)@.close_receiver,
{
}

/// What is taken is where the completion is awaited, and what the URB's own `into_completion`
/// gives.
pub proof fn law_take_completion(
    dev: &mut DeviceHandle,
    urb: UrbWrap,
    r: Result<Option<(Sender<Completion>, Completion)>, Errno>,
    completion: Completion,
)
    requires
        call_ensures(DeviceHandle::take_completion, (dev, urb), r),
        call_ensures(UrbWrap::into_completion, (urb,), completion),
    ensures
        old(dev)@.closed ==> (r matches Err(e) && e.code == 9),
        !old(dev)@.closed && !old(dev)@.pending.contains_key(urb.urb.usercontext) ==> (r matches Ok(
            taken,
        ) && taken is None),
        !old(dev)@.closed && old(dev)@.pending.contains_key(urb.urb.usercontext) ==> (r matches Ok(
            taken,
        ) && taken == Some((old(dev)@.pending[urb.urb.usercontext], completion))),
{
}

/// A dispatch changes the handle as taking the completion does.
pub proof fn law_dispatch_state(
    dev: &mut DeviceHandle,
    urb: UrbWrap,
    r: Result<Result<(), Fault>, Errno>,
)
    requires
        call_ensures(DeviceHandle::dispatch, (dev, urb), r),
    ensures
        old(dev)@.closed ==> final(dev)@ == old(dev)@,
        !old(dev)@.closed ==> !final(dev)@.pending.contains_key(urb.urb.usercontext),
        forall|other: usize|
            other != urb.urb.usercontext ==> (#[trigger] final(dev)@.pending.contains_key(other)
                <==> old(dev)@.pending.contains_key(other)),
        forall|other: usize|
            other != urb.urb.usercontext && old(dev)@.pending.contains_key(other)
                ==> #[trigger] final(dev)@.pending[other] == old(dev)@.pending[other],
        final(dev)@.issued == old(dev)@.issued,
        final(dev)@.fd == old(dev)@.fd,
        final(dev)@.closed == old(dev)@.closed,
        final(dev)@.close_sender == old(dev)@.close_sender,
        final(dev)@.close_receiver == old(dev)@.close_receiver,
{
}

/// A dispatch sends what the URB's own `into_completion` gives to where it is awaited, and is a
/// success if and only if that was sent.
pub proof fn law_dispatch(
    dev: &mut DeviceHandle,
    urb: UrbWrap,
    r: Result<Result<(), Fault>, Errno>,
    completion: Completion,
)
    requires
        call_ensures(DeviceHandle::dispatch, (dev, urb), r),
        call_ensures(UrbWrap::into_completion, (urb,), completion),
    ensures
        old(dev)@.closed ==> (r matches Err(e) && e.code == 9),
        !old(dev)@.closed && !old(dev)@.pending.contains_key(urb.urb.usercontext) ==> r == Ok::<
            Result<(), Fault>,
            Errno,
        >(Err(Fault::NotAwaited(urb.urb.usercontext))),
        !old(dev)@.closed && old(dev)@.pending.contains_key(urb.urb.usercontext) ==> exists|
            sent: Result<(), Completion>,
        |
            {
                &&& #[trigger] crate::completion::completion_sent(
                    old(dev)@.pending[urb.urb.usercontext],
                    completion,
                    sent,
                )
                &&& sent is Ok ==> r == Ok::<Result<(), Fault>, Errno>(Ok(()))
                &&& sent is Err ==> r == Ok::<Result<(), Fault>, Errno>(
                    Err(Fault::Undelivered(completion)),
                )
            },
{
    let sent = choose|sent: Result<(), Completion>| #[trigger]
        crate::device::may_be_sent(old(dev)@, urb, sent) && r == crate::device::dispatched(
            old(dev)@,
            urb,
            sent,
        );
    if !old(dev)@.closed && old(dev)@.pending.contains_key(urb.urb.usercontext) {
        assert(crate::completion::completion_sent(
            old(dev)@.pending[urb.urb.usercontext],
            completion,
            sent,
        ));
    }
}

/// A URB is the only thing that the loop goes on for. It is dispatched; a failure to reap and a
/// wish to stop end the loop and leave the handle as it is.
pub proof fn law_reaped(dev: &mut DeviceHandle, event: LoopEvent, r: Loop, completion: Completion)
    requires
        call_ensures(DeviceHandle::reaped, (dev, event), r),
        event matches LoopEvent::Reaped(urb) ==> call_ensures(
            UrbWrap::into_completion,
            (urb,),
            completion,
        ),
    ensures
        !(event is Reaped) ==> r is Break && final(dev)@ == old(dev)@,
        event matches LoopEvent::Reaped(urb) ==> {
            let id = urb.urb.usercontext;
            &&& old(dev)@.closed ==> r == Loop::Fatal(Fault::Closed) && final(dev)@ == old(dev)@
            &&& !old(dev)@.closed ==> !final(dev)@.pending.contains_key(id)
            &&& !old(dev)@.closed && !old(dev)@.pending.contains_key(id) ==> r == Loop::Fatal(
                Fault::NotAwaited(id),
            )
            &&& !old(dev)@.closed && old(dev)@.pending.contains_key(id) ==> exists|
                sent: Result<(), Completion>,
            |
                {
                    &&& #[trigger] crate::completion::completion_sent(
                        old(dev)@.pending[id],
                        completion,
                        sent,
                    )
                    &&& sent is Ok ==> r == Loop::Continue
                    &&& sent is Err ==> r == Loop::Fatal(Fault::Undelivered(completion))
                }
            &&& forall|other: usize|
                other != id ==> (#[trigger] final(dev)@.pending.contains_key(other)
                    <==> old(dev)@.pending.contains_key(other))
            &&& forall|other: usize|
                other != id && old(dev)@.pending.contains_key(other)
                    ==> #[trigger] final(dev)@.pending[other] == old(dev)@.pending[other]
        },
        final(dev)@.issued == old(dev)@.issued,
        final(dev)@.fd == old(dev)@.fd,
        final(dev)@.closed == old(dev)@.closed,
        final(dev)@.close_sender == old(dev)@.close_sender,
        final(dev)@.close_receiver == old(dev)@.close_receiver,
{
    if let LoopEvent::Reaped(urb) = event {
        let sent = choose|sent: Result<(), Completion>|
            {
                &&& #[trigger] crate::device::may_be_sent(old(dev)@, urb, sent)
                &&& r == (match crate::device::dispatched(old(dev)@, urb, sent) {
                    Ok(Ok(_)) => Loop::Continue,
                    Ok(Err(fault)) => Loop::Fatal(fault),
                    Err(_) => Loop::Fatal(Fault::Closed),
                })
            };
        if !old(dev)@.closed && old(dev)@.pending.contains_key(urb.urb.usercontext) {
            assert(crate::completion::completion_sent(
                old(dev)@.pending[urb.urb.usercontext],
                completion,
                sent,
            ));
        }
    }
}

/// A URB that was reaped is what is dispatched; whatever else ends a wait is an error, `EIO` for a
/// wish to stop.
pub proof fn law_into_outcome(event: LoopEvent, r: Result<UrbWrap, Errno>)
    requires
        call_ensures(LoopEvent::into_outcome, (event,), r),
    ensures
        match event {
            LoopEvent::Reaped(urb) => r == Ok::<UrbWrap, Errno>(urb),
            LoopEvent::ReapFailed(e) => r == Err::<UrbWrap, Errno>(e),
            LoopEvent::Closed => r matches Err(e) && e.code == 5,
            LoopEvent::Canceled => r matches Err(e) && e.code == 5,
        },
{
}

/// Reaping gets the receiver that the handle held, once, and nothing else about the handle
/// changes.
pub proof fn law_spawn_onto(dev: &mut DeviceHandle, r: Receiver<()>)
    requires
        call_ensures(DeviceHandle::spawn_onto, (dev,), r),
    ensures
        old(dev)@.close_receiver == Some(r),
        final(dev)@.close_receiver is None,
        final(dev)@.fd == old(dev)@.fd,
        final(dev)@.closed == old(dev)@.closed,
        final(dev)@.issued == old(dev)@.issued,
        final(dev)@.pending == old(dev)@.pending,
        final(dev)@.close_sender == old(dev)@.close_sender,
{
}

/// Closing closes the handle, hands out its descriptor if it was open, and gives the signal to
/// stop reaping by the sender that the handle held. What is awaited stays as it was.
pub proof fn law_close(dev: &mut DeviceHandle, r: Closing)
    requires
        call_ensures(DeviceHandle::close, (dev,), r),
    ensures
        final(dev)@.closed,
        final(dev)@.close_sender is None,
        final(dev)@.fd == old(dev)@.fd,
        final(dev)@.issued == old(dev)@.issued,
        final(dev)@.pending == old(dev)@.pending,
        final(dev)@.close_receiver == old(dev)@.close_receiver,
        old(dev)@.closed ==> r.fd is None,
        !old(dev)@.closed ==> r.fd == Some(old(dev)@.fd),
        old(dev)@.close_sender is None ==> r.signal is None,
        old(dev)@.close_sender matches Some(sender) ==> (r.signal matches Some(sent)
            && crate::completion::close_sent(sender, sent)),
{
}

/// A reset gives what the kernel replied, and changes nothing about the handle.
pub proof fn law_reset(dev: &mut DeviceHandle, reply: Result<(), Errno>, r: Result<(), Errno>)
    requires
        call_ensures(DeviceHandle::reset, (dev, reply), r),
    ensures
        final(dev)@ == old(dev)@,
        old(dev)@.closed ==> (r matches Err(e) && e.code == 9),
        !old(dev)@.closed ==> r == reply,
{
}

/// A URB that the kernel gives is given on as it is, and so is an error.
pub proof fn law_reap_ndelay(
    dev: &DeviceHandle,
    reply: Result<Urb, Errno>,
    r: Result<UrbWrap, Errno>,
)
    requires
        call_ensures(DeviceHandle::reap_ndelay, (dev, reply), r),
    ensures
        dev@.closed ==> (r matches Err(e) && e.code == 9),
        !dev@.closed && reply is Ok ==> r is Ok && r->Ok_0.urb == reply->Ok_0,
        !dev@.closed && reply is Err ==> r is Err && r->Err_0 == reply->Err_0,
{
}

/// The steps towards the next URB of an open device: it is asked whether it is ready, if so the
/// kernel is asked for a URB, and a URB that the kernel gives ends the wait with that very URB. If
/// the kernel has none for now, readiness is reset and the wait goes on. Any failure ends the
/// wait.
pub proof fn law_poll_reap_open(dev: &DeviceHandle, event: ReapEvent, r: ReapAction)
    requires
        call_ensures(DeviceHandle::poll_reap, (dev, event), r),
        !dev@.closed,
    ensures
        event is Started <==> r is PollWriteReady,
        event matches ReapEvent::Polled(Ok(Async::Ready(_))) ==> r == ReapAction::ReapNdelay(
            dev@.fd,
        ),
        event matches ReapEvent::Polled(Ok(Async::NotReady)) ==> r == ReapAction::Done(
            Ok(Async::NotReady),
        ),
        event matches ReapEvent::Polled(Err(_)) ==> (r matches ReapAction::Done(Err(e)) && e.code
            == 5),
        event matches ReapEvent::Replied(Ok(urb)) ==> (r matches ReapAction::Done(
            Ok(Async::Ready(given)),
        ) && given.urb == urb),
        event matches ReapEvent::Replied(Err(e)) ==> {
            &&& e.code == 11 ==> r is ClearWriteReady
            &&& e.code != 11 ==> r == ReapAction::Done(Err(e))
        },
        event matches ReapEvent::Cleared(Ok(_)) ==> r == ReapAction::Done(Ok(Async::NotReady)),
        event matches ReapEvent::Cleared(Err(_)) ==> (r matches ReapAction::Done(Err(e)) && e.code
            == 5),
{
}

/// A closed device is asked nothing: the wait for a URB ends, with `EBADF` wherever the device
/// would be needed.
pub proof fn law_poll_reap_closed(dev: &DeviceHandle, event: ReapEvent, r: ReapAction)
    requires
        call_ensures(DeviceHandle::poll_reap, (dev, event), r),
        dev@.closed,
    ensures
        r matches ReapAction::Done(polled) && !(polled matches Ok(Async::Ready(_))),
        event is Started ==> (r matches ReapAction::Done(Err(e)) && e.code == 9),
        event is Replied ==> (r matches ReapAction::Done(Err(e)) && e.code == 9),
        event matches ReapEvent::Polled(Ok(Async::Ready(_))) ==> (r matches ReapAction::Done(Err(e))
            && e.code == 9),
        event matches ReapEvent::Polled(Ok(Async::NotReady)) ==> r == ReapAction::Done(
            Ok(Async::NotReady),
        ),
        event matches ReapEvent::Polled(Err(_)) ==> (r matches ReapAction::Done(Err(e)) && e.code
            == 5),
        event matches ReapEvent::Cleared(Ok(_)) ==> r == ReapAction::Done(Ok(Async::NotReady)),
        event matches ReapEvent::Cleared(Err(_)) ==> (r matches ReapAction::Done(Err(e)) && e.code
            == 5),
{
}

/// The step function gives every URB that the kernel gives to an open device, and no other.
pub proof fn law_reap_step_gives_every_urb(closed: bool, fd: i32, urb: Urb, event: ReapEvent)
    ensures
        !closed ==> (crate::reap::reap_step(closed, fd, ReapEvent::Replied(Ok(urb))) matches
            ReapAction::Done(Ok(Async::Ready(given))) && given.urb == urb),
        crate::reap::reap_step(closed, fd, event) matches ReapAction::Done(Ok(Async::Ready(given)))
            ==> !closed && event == ReapEvent::Replied(Ok(given.urb)),
{
}

/// A wait for a URB keeps its handle until a URB is there, and then gives both.
pub proof fn law_reap_future<D>(
    handle: D,
    made: Reap<D>,
    reap: &mut Reap<D>,
    polled: Result<Async<UrbWrap>, Errno>,
    r: Result<Async<(UrbWrap, D)>, Errno>,
)
    requires
        call_ensures(DeviceHandle::reap::<D>, (handle,), made),
        call_ensures(Reap::<D>::poll, (reap, polled), r),
        reap.dev is Some,
    ensures
        made.dev == Some(handle),
        polled matches Ok(Async::Ready(urb)) ==> {
            &&& r matches Ok(Async::Ready(item))
            &&& item.0 == urb
            &&& old(reap).dev == Some(item.1)
            &&& final(reap).dev is None
        },
        polled matches Ok(Async::NotReady) ==> r matches Ok(Async::NotReady),
        polled matches Err(e) ==> r is Err && r->Err_0 == e,
        !(polled matches Ok(Async::Ready(_))) ==> final(reap).dev == old(reap).dev,
{
}

/// A response is the URB or the error that arrived, as it arrived, and not there before it
/// arrives.
pub proof fn law_response(
    polled: Result<Async<Completion>, Canceled>,
    r: Result<Async<UrbWrap>, Errno>,
)
    requires
        call_ensures(ResponseFuture::poll, (polled,), r),
        polled is Ok,
    ensures
        polled matches Ok(Async::Ready(Ok(urb))) ==> (r matches Ok(Async::Ready(same)) && same
            == urb),
        polled matches Ok(Async::Ready(Err(e))) ==> (r matches Err(same) && same == e),
        polled matches Ok(Async::NotReady) <==> r matches Ok(Async::NotReady),
{
}

/// An interface is the one that was asked for, of the device that was asked.
pub proof fn law_interface(dev: &DeviceHandle, iface: u32, r: UnclaimedInterface<'_>)
    requires
        call_ensures(DeviceHandle::interface, (dev, iface), r),
    ensures
        r.device() == dev@,
        r.number() == iface,
{
}

/// Whether `bytes` are those before the first nul byte, or all where there is none, is told by the
/// buffer alone, and those are what `bytes_before_nul` gives.
pub proof fn law_bytes_before_nul(buf: &[i8; 256], bytes: Seq<u8>, r: Vec<u8>)
    requires
        call_ensures(crate::interface::bytes_before_nul, (buf,), r),
        bytes.len() <= 256,
        forall|i: int| 0 <= i < bytes.len() ==> #[trigger] buf@[i] != 0,
        forall|i: int| 0 <= i < bytes.len() ==> #[trigger] bytes[i] == buf@[i] as u8,
        bytes.len() == 256 || buf@[bytes.len() as int] == 0,
    ensures
        r@ == bytes,
{
    crate::laws::lemma_c_len(buf@, bytes.len());
    assert(crate::interface::c_bytes(buf@) =~= bytes);
}

/// A name makes a driver `UsbFs` if and only if it is `"usbfs"`, and is the text of any other
/// driver.
pub proof fn law_from_name(name: String, r: Driver)
    requires
        call_ensures(Driver::from_name, (name,), r),
    ensures
        r is UsbFs <==> name@ == "usbfs"@,
        r matches Driver::Other(other) ==> other@ == name@,
{
}

/// To be told a driver's name, the kernel is handed the number of the interface, and an empty
/// buffer.
pub proof fn law_driver_request(
    iface: &UnclaimedInterface<'_>,
    r: Result<(i32, GetDriver), Errno>,
)
    requires
        call_ensures(UnclaimedInterface::driver_request, (iface,), r),
    ensures
        iface.device().closed ==> (r matches Err(e) && e.code == 9),
        !iface.device().closed ==> {
            &&& r matches Ok(handed)
            &&& handed.0 == iface.device().fd
            &&& handed.1.interface == iface.number()
            &&& forall|i: int| 0 <= i < 256 ==> #[trigger] handed.1.driver@[i] == 0
        },
{
}

/// The driver that a reply of the kernel names is the one whose name stands before the first nul
/// byte, for any bytes at all; `UsbFs` if and only if that is `"usbfs"`. An error is given on as
/// it is.
pub proof fn law_driver(
    iface: &UnclaimedInterface<'_>,
    reply: Result<GetDriver, Errno>,
    bytes: Seq<u8>,
    r: Result<Driver, Errno>,
)
    requires
        call_ensures(UnclaimedInterface::driver, (iface, reply), r),
        reply matches Ok(request) ==> {
            &&& bytes.len() <= 256
            &&& forall|i: int| 0 <= i < bytes.len() ==> #[trigger] request.driver@[i] != 0
            &&& forall|i: int|
                0 <= i < bytes.len() ==> #[trigger] bytes[i] == request.driver@[i] as u8
            &&& bytes.len() == 256 || request.driver@[bytes.len() as int] == 0
        },
    ensures
        iface.device().closed ==> (r matches Err(e) && e.code == 9),
        !iface.device().closed && reply is Err ==> r is Err && r->Err_0 == reply->Err_0,
        !iface.device().closed && reply is Ok ==> {
            &&& r is Ok
            &&& r->Ok_0 is UsbFs <==> crate::interface::utf8_lossy(bytes) == "usbfs"@
            &&& r->Ok_0 matches Driver::Other(name) ==> name@ == crate::interface::utf8_lossy(bytes)
            &&& vstd::utf8::valid_utf8(bytes) ==> {
                &&& r->Ok_0 is UsbFs <==> vstd::utf8::decode_utf8(bytes) == "usbfs"@
                &&& r->Ok_0 matches Driver::Other(name) ==> name@ == vstd::utf8::decode_utf8(bytes)
            }
        },
{
    if let Ok(request) = reply {
        crate::laws::lemma_c_len(request.driver@, bytes.len());
        assert(crate::interface::c_bytes(request.driver@) =~= bytes);
    }
}

/// A name fits if it has no more than 256 bytes, and there is none to fit if drivers are left
/// alone.
pub proof fn law_fits(options: &DisconnectOptions<'_>, r: bool)
    requires
        call_ensures(DisconnectOptions::fits, (options,), r),
    ensures
        match *options {
            DisconnectOptions::DisconnectIf(name, _) => r <==> vstd::utf8::encode_utf8(name@).len()
                <= 256,
            DisconnectOptions::DisconnectExcept(name, _) => r <==> vstd::utf8::encode_utf8(
                name@,
            ).len() <= 256,
            DisconnectOptions::LeaveConnected => r,
        },
{
}

/// To claim an interface and leave drivers alone, the kernel is handed a plain claim.
pub proof fn law_claim_request_leaves_connected(
    iface: &UnclaimedInterface<'_>,
    r: Result<(i32, ClaimRequest), Errno>,
)
    requires
        call_ensures(
            UnclaimedInterface::disconnect_claim_request,
            (iface, DisconnectOptions::LeaveConnected),
            r,
        ),
    ensures
        iface.device().closed ==> (r matches Err(e) && e.code == 9),
        !iface.device().closed ==> (r matches Ok(handed) && handed.0 == iface.device().fd
            && handed.1 == ClaimRequest::Claim(iface.number())),
{
}

/// To disconnect a driver and claim, the kernel is handed flag 1 with the name that a driver must
/// have, or flag 2 with the name that it must not have, whatever is to happen on release; the name
/// stands byte for byte at the start of the buffer, and nul bytes fill the rest.
pub proof fn law_claim_request_disconnects(
    iface: &UnclaimedInterface<'_>,
    name: &str,
    reconnect: ReconnectOptions,
    only: Result<(i32, ClaimRequest), Errno>,
    except: Result<(i32, ClaimRequest), Errno>,
)
    requires
        vstd::utf8::encode_utf8(name@).len() <= 256,
        call_ensures(
            UnclaimedInterface::disconnect_claim_request,
            (iface, DisconnectOptions::DisconnectIf(name, reconnect)),
            only,
        ),
        call_ensures(
            UnclaimedInterface::disconnect_claim_request,
            (iface, DisconnectOptions::DisconnectExcept(name, reconnect)),
            except,
        ),
    ensures
        iface.device().closed ==> (only matches Err(e) && e.code == 9),
        iface.device().closed ==> (except matches Err(e) && e.code == 9),
        !iface.device().closed ==> {
            let bytes = vstd::utf8::encode_utf8(name@);
            &&& only is Ok && except is Ok
            &&& only->Ok_0.0 == iface.device().fd
            &&& except->Ok_0.0 == iface.device().fd
            &&& only->Ok_0.1 matches ClaimRequest::DisconnectClaim(a)
            &&& except->Ok_0.1 matches ClaimRequest::DisconnectClaim(b)
            &&& a.flags == 1
            &&& b.flags == 2
            &&& a.interface == iface.number()
            &&& b.interface == iface.number()
            &&& a.driver@ == b.driver@
            &&& forall|i: int|
                0 <= i < bytes.len() ==> #[trigger] a.driver@[i] as u8 == bytes[i]
            &&& forall|i: int| bytes.len() <= i < 256 ==> #[trigger] a.driver@[i] == 0
        },
{
    let bytes = vstd::utf8::encode_utf8(name@);
    assert forall|i: int| 0 <= i < bytes.len() implies (#[trigger] bytes[i] as i8) as u8
        == bytes[i] by {
        let b: u8 = bytes[i];
        assert((b as i8) as u8 == b) by (bit_vector);
    }
}

/// A claim that the kernel grants is on the interface and the device that it was made for, and one
/// that the kernel refuses is refused with the kernel's error.
pub proof fn law_disconnect_claim(
    iface: UnclaimedInterface<'_>,
    options: DisconnectOptions<'_>,
    reply: Result<(), Errno>,
    r: Result<ClaimedInterface, Errno>,
)
    requires
        call_ensures(UnclaimedInterface::disconnect_claim, (iface, options, reply), r),
    ensures
        iface.device().closed ==> (r matches Err(e) && e.code == 9),
        !iface.device().closed && reply is Err ==> r is Err && r->Err_0 == reply->Err_0,
        !iface.device().closed && reply is Ok ==> {
            &&& r is Ok
            &&& r->Ok_0.number() == iface.number()
            &&& r->Ok_0.device_fd() == iface.device().fd
            &&& r->Ok_0.on_release() is ReconnectOnRelease <==> match options {
                DisconnectOptions::DisconnectIf(_, reconnect) => reconnect is ReconnectOnRelease,
                DisconnectOptions::DisconnectExcept(_, reconnect) => reconnect is ReconnectOnRelease,
                DisconnectOptions::LeaveConnected => false,
            }
        },
{
}

/// What is released is the interface that was claimed, on the device that it was claimed on. If
/// the options of the claim ask for it, and only then, a driver is connected again, to that same
/// interface. After the device was closed, nothing is released.
pub proof fn law_claim_then_release(
    iface: UnclaimedInterface<'_>,
    options: DisconnectOptions<'_>,
    claimed: ClaimedInterface,
    dev: &DeviceHandle,
    r: Option<Release>,
)
    requires
        call_ensures(
            UnclaimedInterface::disconnect_claim,
            (iface, options, Ok(())),
            Ok::<ClaimedInterface, Errno>(claimed),
        ),
        call_ensures(ClaimedInterface::release, (claimed, dev), r),
        dev@.fd == iface.device().fd,
    ensures
        r is None <==> dev@.closed,
        r matches Some(release) ==> {
            &&& release.fd == iface.device().fd
            &&& release.interface == iface.number()
            &&& release.connect matches Some(n) ==> n == iface.number() as i32
            &&& release.connect is Some <==> match options {
                DisconnectOptions::DisconnectIf(_, reconnect) => reconnect is ReconnectOnRelease,
                DisconnectOptions::DisconnectExcept(_, reconnect) => reconnect is ReconnectOnRelease,
                DisconnectOptions::LeaveConnected => false,
            }
        },
{
}

/// A release is of the claimed interface by the descriptor of the device, and a driver is
/// connected, if at all, to the interface that is released.
pub proof fn law_release(claimed: ClaimedInterface, dev: &DeviceHandle, r: Option<Release>)
    requires
        call_ensures(ClaimedInterface::release, (claimed, dev), r),
    ensures
        r is None <==> dev@.closed,
        r matches Some(release) ==> {
            &&& release.fd == dev@.fd
            &&& release.interface == claimed.number()
            &&& release.connect is Some <==> claimed.on_release() is ReconnectOnRelease
            &&& release.connect matches Some(n) ==> n == release.interface as i32
            &&& release.interface <= i32::MAX ==> (release.connect matches Some(n) ==> n
                == claimed.number())
        },
{
}

/// Claims and endpoints tell whether they belong to a device by its descriptor.
pub proof fn law_belongs_to(
    claimed: &ClaimedInterface,
    pipe: &ControlPipe,
    dev: &DeviceHandle,
    claimed_belongs: bool,
    pipe_belongs: bool,
)
    requires
        call_ensures(ClaimedInterface::belongs_to, (claimed, dev), claimed_belongs),
        call_ensures(ControlPipe::belongs_to, (pipe, dev), pipe_belongs),
    ensures
        claimed_belongs <==> claimed.device_fd() == dev@.fd,
        pipe_belongs <==> pipe.device_fd() == dev@.fd,
{
}

/// A request with more data than 32759 bytes is refused with `EINVAL`, and nothing changes; any
/// other is accepted, and takes up the next id.
pub proof fn law_submit_request_state(
    pipe: &ControlPipe,
    dev: &mut DeviceHandle,
    req: ControlRequest,
    r: Result<Submission, Errno>,
)
    requires
        call_ensures(ControlPipe::submit_request, (pipe, dev, req), r),
        req.data@.len() <= 32759 ==> dev@.issued < usize::MAX,
    ensures
        r is Ok <==> req.data@.len() <= 32759,
        r matches Err(e) ==> e.code == 22 && final(dev)@ == old(dev)@,
        r matches Ok(submission) ==> {
            &&& submission.fd == old(dev)@.fd
            &&& submission.id == old(dev)@.issued + 1
            &&& final(dev)@.issued == submission.id
        },
        final(dev)@.fd == old(dev)@.fd,
        final(dev)@.closed == old(dev)@.closed,
        final(dev)@.pending == old(dev)@.pending,
        final(dev)@.close_sender == old(dev)@.close_sender,
        final(dev)@.close_receiver == old(dev)@.close_receiver,
{
}

/// The URB of an accepted request goes to the very endpoint that `endpoint_control` was asked for,
/// as a control transfer, with the packet of the request as its buffer and its id as its
/// `usercontext`.
pub proof fn law_submitted_urb(
    claimed: &ClaimedInterface,
    endpoint: u8,
    pipe: &ControlPipe,
    dev: &mut DeviceHandle,
    req: ControlRequest,
    packet: Vec<u8>,
    submission: Submission,
)
    requires
        call_ensures(ClaimedInterface::endpoint_control, (claimed, endpoint), *pipe),
        call_ensures(ControlRequest::packet, (&req,), packet),
        call_ensures(
            ControlPipe::submit_request,
            (pipe, dev, req),
            Ok::<Submission, Errno>(submission),
        ),
    ensures
        pipe.device_fd() == claimed.device_fd(),
        pipe.interface() == claimed.number(),
        pipe.number() == endpoint,
        submission.urb.endpoint == endpoint,
        submission.urb.type_ == 2,
        submission.urb.buffer@ == packet@,
        submission.urb.buffer_length == 8 + req.data@.len(),
        submission.urb.usercontext == submission.id,
        submission.urb.status == 0,
        submission.urb.flags == 0,
        submission.urb.actual_length == 0,
        submission.urb.start_frame == 0,
        submission.urb.number_of_packets == 0,
        submission.urb.error_count == 0,
        submission.urb.signr == 0,
{
}

/// Each field of the URB of a control transfer.
pub proof fn law_control_urb(urb: Urb, endpoint: u8, packet: Seq<u8>, id: usize)
    requires
        crate::pipe::is_control_urb(urb, endpoint, packet, id),
    ensures
        urb.type_ == 2,
        urb.endpoint == endpoint,
        urb.buffer@ == packet,
        urb.buffer_length == packet.len(),
        urb.usercontext == id,
        urb.status == 0,
        urb.flags == 0,
        urb.actual_length == 0,
        urb.start_frame == 0,
        urb.number_of_packets == 0,
        urb.error_count == 0,
        urb.signr == 0,
{
}

/// A URB that the kernel takes is awaited under its id, by the other end of the channel of the
/// future that is given; one that it refuses is answered with its error. Nothing else about the
/// handle changes.
pub proof fn law_submit(
    pipe: &ControlPipe,
    dev: &mut DeviceHandle,
    id: usize,
    reply: Result<(), Errno>,
    r: Result<ResponseFuture, Errno>,
)
    requires
        call_ensures(ControlPipe::submit, (pipe, dev, id, reply), r),
    ensures
        reply is Err ==> r is Err && r->Err_0 == reply->Err_0 && final(dev)@ == old(dev)@,
        reply is Ok ==> {
            &&& r matches Ok(response)
            &&& final(dev)@.pending.contains_key(id)
            &&& crate::completion::completion_channel(
                final(dev)@.pending[id],
                response.receiver,
            )
        },
        forall|other: usize|
            other != id ==> (#[trigger] final(dev)@.pending.contains_key(other)
                <==> old(dev)@.pending.contains_key(other)),
        forall|other: usize|
            other != id && old(dev)@.pending.contains_key(other)
                ==> #[trigger] final(dev)@.pending[other] == old(dev)@.pending[other],
        final(dev)@.fd == old(dev)@.fd,
        final(dev)@.closed == old(dev)@.closed,
        final(dev)@.issued == old(dev)@.issued,
        final(dev)@.close_sender == old(dev)@.close_sender,
        final(dev)@.close_receiver == old(dev)@.close_receiver,
{
}

/// Calls that only read, or make something, are allowed on every handle and every value that has
/// what they read.
pub proof fn law_reads_are_allowed(
    dev: &DeviceHandle,
    iface: &UnclaimedInterface<'_>,
    claimed: ClaimedInterface,
    options: DisconnectOptions<'_>,
    urb: &UrbWrap,
    req: &ControlRequest,
    endpoint: u8,
    reply: Result<(), Errno>,
    event: ReapEvent,
)
    ensures
        endpoint <= 15 ==> call_requires(ClaimedInterface::endpoint_control, (&claimed, endpoint)),
        dev@.fd == claimed.device_fd() ==> call_requires(ClaimedInterface::release, (claimed, dev)),
        match options {
            DisconnectOptions::DisconnectIf(name, _) => vstd::utf8::encode_utf8(name@).len() <= 256,
            DisconnectOptions::DisconnectExcept(name, _) => vstd::utf8::encode_utf8(name@).len()
                <= 256,
            DisconnectOptions::LeaveConnected => true,
        } ==> call_requires(UnclaimedInterface::disconnect_claim_request, (iface, options)),
        call_requires(UnclaimedInterface::disconnect_claim, (*iface, options, reply)),
        call_requires(UnclaimedInterface::driver_request, (iface,)),
        call_requires(UrbWrap::into_completion, (*urb,)),
        0 <= urb.urb.actual_length <= urb.urb.buffer@.len() ==> call_requires(
            UrbWrap::data,
            (urb,),
        ),
        req.request_type() <= 255 ==> call_requires(ControlRequest::usb_request_type, (req,)),
        req.request_type() <= 255 && req.data@.len() <= 32759 ==> call_requires(
            ControlRequest::packet,
            (req,),
        ),
        call_requires(DeviceHandle::poll_reap, (dev, event)),
        call_requires(DeviceHandle::fd, (dev,)),
{
}

/// Calls that change a handle are allowed whenever the handle has what they take: an open handle
/// for an id and for awaiting a URB, and a receiver for the start of reaping. A request goes to
/// the device of the endpoint, and one that has too much data to be sent even to a closed one.
pub proof fn law_changes_are_allowed(
    dev: &mut DeviceHandle,
    pipe: &ControlPipe,
    req: ControlRequest,
    id: usize,
    sender: Sender<Completion>,
    reply: Result<(), Errno>,
    urb: UrbWrap,
    event: LoopEvent,
)
    ensures
        !old(dev)@.closed && old(dev)@.issued < usize::MAX ==> call_requires(
            DeviceHandle::next_id,
            (dev,),
        ),
        !old(dev)@.closed ==> call_requires(DeviceHandle::add_completion, (dev, id, sender)),
        old(dev)@.close_receiver is Some ==> call_requires(DeviceHandle::spawn_onto, (dev,)),
        call_requires(DeviceHandle::take_completion, (dev, urb)),
        call_requires(DeviceHandle::dispatch, (dev, urb)),
        call_requires(DeviceHandle::reaped, (dev, event)),
        call_requires(DeviceHandle::close, (dev,)),
        call_requires(DeviceHandle::reset, (dev, reply)),
        old(dev)@.fd == pipe.device_fd() && req.data@.len() > 32759 ==> call_requires(
            ControlPipe::submit_request,
            (pipe, dev, req),
        ),
        old(dev)@.fd == pipe.device_fd() && req.request_type() <= 255 && !old(dev)@.closed && old(
            dev,
        )@.issued < usize::MAX ==> call_requires(ControlPipe::submit_request, (pipe, dev, req)),
        old(dev)@.fd == pipe.device_fd() && reply is Err ==> call_requires(
            ControlPipe::submit,
            (pipe, dev, id, reply),
        ),
        old(dev)@.fd == pipe.device_fd() && !old(dev)@.closed && 0 < id && id <= old(dev)@.issued
            && !old(dev)@.pending.contains_key(id) ==> call_requires(
            ControlPipe::submit,
            (pipe, dev, id, reply),
        ),
{
}

/// The value of a digit, 16 for what is no digit.
pub open spec fn digit_value(c: char) -> nat {
    if '0' <= c <= '9' {
        (c as u32 - 48) as nat
    } else if 'a' <= c <= 'f' {
        (c as u32 - 87) as nat
    } else {
        16
    }
}

/// The number that digits to some base stand for.
pub open spec fn number_of(text: Seq<char>, base: nat) -> nat
    decreases text.len(),
{
    if text.len() == 0 {
        0
    } else {
        number_of(text.drop_last(), base) * base + digit_value(text.last())
    }
}

/// The digits of a number are digits to its base, stand for that number, and do not start with a
/// zero unless the number is zero, which has one digit.
pub proof fn law_digits(n: nat, base: nat)
    requires
        2 <= base <= 16,
    ensures
        crate::text::digits(n, base).len() > 0,
        number_of(crate::text::digits(n, base), base) == n,
        forall|i: int|
            0 <= i < crate::text::digits(n, base).len() ==> digit_value(
                #[trigger] crate::text::digits(n, base)[i],
            ) < base,
        n > 0 ==> crate::text::digits(n, base)[0] != '0',
        n == 0 ==> crate::text::digits(n, base) == seq!['0'],
    decreases n,
{
    reveal_with_fuel(number_of, 2);
    let text = crate::text::digits(n, base);
    if n < base {
        assert(text.drop_last() =~= Seq::<char>::empty());
        assert(number_of(text.drop_last(), base) * base == 0) by (nonlinear_arith)
            requires
                number_of(text.drop_last(), base) == 0,
        ;
    } else {
        assert(0 < n / base < n && n % base < base && n / base * base + n % base == n)
            by (nonlinear_arith)
            requires
                n >= base,
                base >= 2,
        ;
        law_digits(n / base, base);
        let higher = crate::text::digits(n / base, base);
        assert(text.drop_last() =~= higher);
        assert forall|i: int| 0 <= i < text.len() implies digit_value(#[trigger] text[i]) < base by {
            if i < higher.len() {
                assert(text[i] == higher[i]);
            }
        }
        assert(text[0] == higher[0]);
    }
}

/// A number in decimal is its digits to base 10, behind a minus sign if and only if it is
/// negative; in hexadecimal its digits to base 16, behind `0x`.
pub proof fn law_decimal_and_hexadecimal(n: int, m: nat)
    ensures
        n >= 0 ==> crate::text::decimal(n) == crate::text::digits(n as nat, 10),
        n < 0 ==> crate::text::decimal(n) == seq!['-'] + crate::text::decimal(-n),
        crate::text::hexadecimal(m) == "0x"@ + crate::text::digits(m, 16),
{
}

/// A URB is described by the name and the number of each of eight of its fields.
pub proof fn law_describe(urb: &UrbWrap, r: String)
    requires
        call_ensures(UrbWrap::describe, (urb,), r),
    ensures
        r@ == "Urb { type: "@ + crate::text::decimal(urb.urb.type_ as int)
            + ", endpoint: "@ + crate::text::decimal(urb.urb.endpoint as int)
            + ", status: "@ + crate::text::decimal(urb.urb.status as int)
            + ", flags: "@ + crate::text::decimal(urb.urb.flags as int)
            + ", error_count: "@ + crate::text::decimal(urb.urb.error_count as int)
            + ", signr: "@ + crate::text::decimal(urb.urb.signr as int)
            + ", usercontext: "@ + crate::text::hexadecimal(urb.urb.usercontext as nat)
            + ", buffer_length: "@ + crate::text::decimal(urb.urb.buffer_length as int)
            + " }"@,
{
}

/// What starts with a known text tells the rest.
proof fn lemma_same_rest(start: Seq<char>, a: Seq<char>, b: Seq<char>)
    requires
        start + a == start + b,
    ensures
        a == b,
{
    assert(a =~= (start + a).skip(start.len() as int));
    assert(b =~= (start + b).skip(start.len() as int));
}

/// A text, a label and the rest are told by what they come to, if the text does not hold the first
/// character of the label.
proof fn lemma_split(a: Seq<char>, b: Seq<char>, label: Seq<char>, c: Seq<char>, d: Seq<char>)
    requires
        a + (label + b) == c + (label + d),
        label.len() > 0,
        forall|i: int| 0 <= i < a.len() ==> #[trigger] a[i] != label[0],
        forall|i: int| 0 <= i < c.len() ==> #[trigger] c[i] != label[0],
    ensures
        a == c,
        b == d,
{
    let whole = a + (label + b);
    if a.len() < c.len() {
        assert(whole[a.len() as int] == label[0]);
        assert(whole[a.len() as int] == c[a.len() as int]);
    }
    if c.len() < a.len() {
        assert(whole[c.len() as int] == a[c.len() as int]);
        assert(whole[c.len() as int] == label[0]);
    }
    assert(a =~= whole.take(a.len() as int));
    assert(c =~= whole.take(c.len() as int));
    lemma_same_rest(a, label + b, label + d);
    lemma_same_rest(label, b, d);
}

/// A number in decimal or hexadecimal holds no comma and no blank.
proof fn lemma_one_word(n: int, m: nat)
    ensures
        forall|i: int|
            0 <= i < crate::text::decimal(n).len() ==> {
                &&& #[trigger] crate::text::decimal(n)[i] != ','
                &&& crate::text::decimal(n)[i] != ' '
            },
        forall|i: int|
            0 <= i < crate::text::hexadecimal(m).len() ==> {
                &&& #[trigger] crate::text::hexadecimal(m)[i] != ','
                &&& crate::text::hexadecimal(m)[i] != ' '
            },
{
    reveal_strlit("0x");
    let size: nat = if n < 0 {
        (-n) as nat
    } else {
        n as nat
    };
    law_digits(size, 10);
    law_digits(m, 16);
    let decimal = crate::text::digits(size, 10);
    let hexadecimal = crate::text::digits(m, 16);
    assert forall|i: int| 0 <= i < crate::text::decimal(n).len() implies {
        &&& #[trigger] crate::text::decimal(n)[i] != ','
        &&& crate::text::decimal(n)[i] != ' '
    } by {
        let at: int = if n < 0 {
            i - 1
        } else {
            i
        };
        if at >= 0 {
            assert(crate::text::decimal(n)[i] == decimal[at]);
            assert(digit_value(decimal[at]) < 10);
        }
    }
    assert forall|i: int| 0 <= i < crate::text::hexadecimal(m).len() implies {
        &&& #[trigger] crate::text::hexadecimal(m)[i] != ','
        &&& crate::text::hexadecimal(m)[i] != ' '
    } by {
        if i >= 2 {
            assert(crate::text::hexadecimal(m)[i] == hexadecimal[i - 2]);
            assert(digit_value(hexadecimal[i - 2]) < 16);
        }
    }
}

/// Two numbers are the same if they look the same, in decimal or in hexadecimal.
pub proof fn law_numbers_differ(n: int, k: int, m: nat, l: nat)
    ensures
        crate::text::decimal(n) == crate::text::decimal(k) ==> n == k,
        crate::text::hexadecimal(m) == crate::text::hexadecimal(l) ==> m == l,
{
    reveal_strlit("0x");
    let a: nat = if n < 0 {
        (-n) as nat
    } else {
        n as nat
    };
    let b: nat = if k < 0 {
        (-k) as nat
    } else {
        k as nat
    };
    law_digits(a, 10);
    law_digits(b, 10);
    law_digits(m, 16);
    law_digits(l, 16);
    if crate::text::decimal(n) == crate::text::decimal(k) {
        assert(digit_value('-') == 16);
        assert(digit_value(crate::text::digits(a, 10)[0]) < 10);
        assert(digit_value(crate::text::digits(b, 10)[0]) < 10);
        assert((n < 0) == (crate::text::decimal(n)[0] == '-'));
        assert((k < 0) == (crate::text::decimal(k)[0] == '-'));
        if n < 0 {
            assert(crate::text::decimal(n).drop_first() =~= crate::text::digits(a, 10));
            assert(crate::text::decimal(k).drop_first() =~= crate::text::digits(b, 10));
        }
    }
    if crate::text::hexadecimal(m) == crate::text::hexadecimal(l) {
        assert(crate::text::hexadecimal(m).skip(2) =~= crate::text::digits(m, 16));
        assert(crate::text::hexadecimal(l).skip(2) =~= crate::text::digits(l, 16));
    }
}

/// Numbers with a label behind them are told by what they and the rest come to.
proof fn lemma_split_numbers(
    n: int,
    m: nat,
    b: Seq<char>,
    label: Seq<char>,
    k: int,
    l: nat,
    d: Seq<char>,
)
    requires
        label.len() > 0,
        label[0] == ',' || label[0] == ' ',
    ensures
        crate::text::decimal(n) + (label + b) == crate::text::decimal(k) + (label + d) ==> n == k
            && b == d,
        crate::text::hexadecimal(m) + (label + b) == crate::text::hexadecimal(l) + (label + d) ==> m
            == l && b == d,
{
    lemma_one_word(n, m);
    lemma_one_word(k, l);
    law_numbers_differ(n, k, m, l);
    if crate::text::decimal(n) + (label + b) == crate::text::decimal(k) + (label + d) {
        lemma_split(crate::text::decimal(n), b, label, crate::text::decimal(k), d);
    }
    if crate::text::hexadecimal(m) + (label + b) == crate::text::hexadecimal(l) + (label + d) {
        lemma_split(crate::text::hexadecimal(m), b, label, crate::text::hexadecimal(l), d);
    }
}

/// How four texts are put together makes no difference.
proof fn lemma_nest(start: Seq<char>, word: Seq<char>, label: Seq<char>, rest: Seq<char>)
    ensures
        start + word + label + rest == start + (word + (label + rest)),
{
    assert(start + word + label + rest =~= start + (word + (label + rest)));
}

/// The description of a URB from its `buffer_length` on.
spec fn from_buffer_length(urb: UrbWrap) -> Seq<char> {
    crate::text::decimal(urb.urb.buffer_length as int) + (" }"@ + Seq::empty())
}

/// The description of a URB from its `usercontext` on.
spec fn from_usercontext(urb: UrbWrap) -> Seq<char> {
    crate::text::hexadecimal(urb.urb.usercontext as nat) + (", buffer_length: "@ + from_buffer_length(urb))
}

/// The description of a URB from its `signr` on.
spec fn from_signr(urb: UrbWrap) -> Seq<char> {
    crate::text::decimal(urb.urb.signr as int) + (", usercontext: "@ + from_usercontext(urb))
}

/// The description of a URB from its `error_count` on.
spec fn from_error_count(urb: UrbWrap) -> Seq<char> {
    crate::text::decimal(urb.urb.error_count as int) + (", signr: "@ + from_signr(urb))
}

/// The description of a URB from its `flags` on.
spec fn from_flags(urb: UrbWrap) -> Seq<char> {
    crate::text::decimal(urb.urb.flags as int) + (", error_count: "@ + from_error_count(urb))
}

/// The description of a URB from its `status` on.
spec fn from_status(urb: UrbWrap) -> Seq<char> {
    crate::text::decimal(urb.urb.status as int) + (", flags: "@ + from_flags(urb))
}

/// The description of a URB from its `endpoint` on.
spec fn from_endpoint(urb: UrbWrap) -> Seq<char> {
    crate::text::decimal(urb.urb.endpoint as int) + (", status: "@ + from_status(urb))
}

/// The description of a URB from its type on.
spec fn from_type(urb: UrbWrap) -> Seq<char> {
    crate::text::decimal(urb.urb.type_ as int) + (", endpoint: "@ + from_endpoint(urb))
}

/// A description, put together from its end.
proof fn lemma_description(urb: &UrbWrap, r: String)
    requires
        call_ensures(UrbWrap::describe, (urb,), r),
    ensures
        r@ == "Urb { type: "@ + from_type(*urb),
{
    let s1 = "Urb { type: "@;
    let s2 = s1 + crate::text::decimal(urb.urb.type_ as int) + ", endpoint: "@;
    let s3 = s2 + crate::text::decimal(urb.urb.endpoint as int) + ", status: "@;
    let s4 = s3 + crate::text::decimal(urb.urb.status as int) + ", flags: "@;
    let s5 = s4 + crate::text::decimal(urb.urb.flags as int) + ", error_count: "@;
    let s6 = s5 + crate::text::decimal(urb.urb.error_count as int) + ", signr: "@;
    let s7 = s6 + crate::text::decimal(urb.urb.signr as int) + ", usercontext: "@;
    let s8 = s7 + crate::text::hexadecimal(urb.urb.usercontext as nat) + ", buffer_length: "@;
    assert(r@ =~= s8 + crate::text::decimal(urb.urb.buffer_length as int) + " }"@ + Seq::<char>::empty());
    lemma_nest(
        s8,
        crate::text::decimal(urb.urb.buffer_length as int),
        " }"@,
        Seq::empty(),
    );
    lemma_nest(
        s7,
        crate::text::hexadecimal(urb.urb.usercontext as nat),
        ", buffer_length: "@,
        from_buffer_length(*urb),
    );
    lemma_nest(
        s6,
        crate::text::decimal(urb.urb.signr as int),
        ", usercontext: "@,
        from_usercontext(*urb),
    );
    lemma_nest(
        s5,
        crate::text::decimal(urb.urb.error_count as int),
        ", signr: "@,
        from_signr(*urb),
    );
    lemma_nest(
        s4,
        crate::text::decimal(urb.urb.flags as int),
        ", error_count: "@,
        from_error_count(*urb),
    );
    lemma_nest(
        s3,
        crate::text::decimal(urb.urb.status as int),
        ", flags: "@,
        from_flags(*urb),
    );
    lemma_nest(
        s2,
        crate::text::decimal(urb.urb.endpoint as int),
        ", status: "@,
        from_status(*urb),
    );
    lemma_nest(
        s1,
        crate::text::decimal(urb.urb.type_ as int),
        ", endpoint: "@,
        from_endpoint(*urb),
    );
}

/// A description tells each of the fields that it is made of: two URBs that differ in one of them
/// have different descriptions.
pub proof fn law_description_tells_fields(a: &UrbWrap, b: &UrbWrap, r: String, q: String)
    requires
        call_ensures(UrbWrap::describe, (a,), r),
        call_ensures(UrbWrap::describe, (b,), q),
        r@ == q@,
    ensures
        a.urb.type_ == b.urb.type_,
        a.urb.endpoint == b.urb.endpoint,
        a.urb.status == b.urb.status,
        a.urb.flags == b.urb.flags,
        a.urb.error_count == b.urb.error_count,
        a.urb.signr == b.urb.signr,
        a.urb.usercontext == b.urb.usercontext,
        a.urb.buffer_length == b.urb.buffer_length,
{
    reveal_strlit(", endpoint: ");
    reveal_strlit(", status: ");
    reveal_strlit(", flags: ");
    reveal_strlit(", error_count: ");
    reveal_strlit(", signr: ");
    reveal_strlit(", usercontext: ");
    reveal_strlit(", buffer_length: ");
    reveal_strlit(" }");
    lemma_description(a, r);
    lemma_description(b, q);
    lemma_same_rest("Urb { type: "@, from_type(*a), from_type(*b));
    lemma_split_numbers(
        a.urb.type_ as int,
        0,
        from_endpoint(*a),
        ", endpoint: "@,
        b.urb.type_ as int,
        0,
        from_endpoint(*b),
    );
    lemma_split_numbers(
        a.urb.endpoint as int,
        0,
        from_status(*a),
        ", status: "@,
        b.urb.endpoint as int,
        0,
        from_status(*b),
    );
    lemma_split_numbers(
        a.urb.status as int,
        0,
        from_flags(*a),
        ", flags: "@,
        b.urb.status as int,
        0,
        from_flags(*b),
    );
    lemma_split_numbers(
        a.urb.flags as int,
        0,
        from_error_count(*a),
        ", error_count: "@,
        b.urb.flags as int,
        0,
        from_error_count(*b),
    );
    lemma_split_numbers(
        a.urb.error_count as int,
        0,
        from_signr(*a),
        ", signr: "@,
        b.urb.error_count as int,
        0,
        from_signr(*b),
    );
    lemma_split_numbers(
        a.urb.signr as int,
        0,
        from_usercontext(*a),
        ", usercontext: "@,
        b.urb.signr as int,
        0,
        from_usercontext(*b),
    );
    lemma_split_numbers(
        0,
        a.urb.usercontext as nat,
        from_buffer_length(*a),
        ", buffer_length: "@,
        0,
        b.urb.usercontext as nat,
        from_buffer_length(*b),
    );
    lemma_split_numbers(
        a.urb.buffer_length as int,
        0,
        Seq::empty(),
        " }"@,
        b.urb.buffer_length as int,
        0,
        Seq::empty(),
    );
}

} // verus!
