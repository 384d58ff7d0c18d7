//! What holds of the library as a whole.

use futures::unsync::oneshot::{Receiver, Sender};
use vstd::prelude::*;

use crate::capabilities::{Capabilities, CAP_ALL};
use crate::completion::Completion;
use crate::control::{ControlRequest, Recipient, DATA_MAX, SETUP_LEN};
use crate::device::{DeviceState, Fault};
use crate::errno::Errno;
use crate::interface::{DisconnectOptions, Driver, ReconnectOptions, DRIVER_LEN};
use crate::poll::Async;
use crate::reap::{ReapAction, ReapEvent};
use crate::urb::UrbWrap;

verus! {

/// One of the things that can happen to a device handle.
pub enum DeviceOp {
    /// An id is given out.
    Issue,
    /// A URB was submitted under that id, and its completion is to be sent by that sender.
    Expect(usize, Sender<Completion>),
    /// The URB of that id came back.
    Complete(usize),
    /// Reaping starts.
    Spawn,
    /// The handle is closed.
    Close,
}

/// Whether that can happen to a handle in this state.
pub open spec fn can_apply(state: DeviceState, op: DeviceOp) -> bool {
    match op {
        DeviceOp::Issue => !state.closed && state.issued < usize::MAX,
        DeviceOp::Expect(id, _) => state.can_expect(id),
        DeviceOp::Complete(id) => !state.closed && state.pending.contains_key(id),
        DeviceOp::Spawn => state.close_receiver is Some,
        DeviceOp::Close => true,
    }
}

/// The state once that has happened.
pub open spec fn apply(state: DeviceState, op: DeviceOp) -> DeviceState {
    match op {
        DeviceOp::Issue => state.issue(),
        DeviceOp::Expect(id, sender) => state.expect(id, sender),
        DeviceOp::Complete(id) => state.complete(id),
        DeviceOp::Spawn => state.spawn(),
        DeviceOp::Close => state.close(),
    }
}

/// Whether all of that can happen to a handle in this state, in that order.
pub open spec fn can_run(state: DeviceState, ops: Seq<DeviceOp>) -> bool
    decreases ops.len(),
{
    ops.len() == 0 || (can_run(state, ops.drop_last()) && can_apply(
        run(state, ops.drop_last()),
        ops.last(),
    ))
}

/// The state once all of that has happened, in that order.
pub open spec fn run(state: DeviceState, ops: Seq<DeviceOp>) -> DeviceState
    decreases ops.len(),
{
    if ops.len() == 0 {
        state
    } else {
        apply(run(state, ops.drop_last()), ops.last())
    }
}

/// Whether that has to do with the URB of that id.
pub open spec fn is_about(op: DeviceOp, id: usize) -> bool {
    match op {
        DeviceOp::Expect(other, _) => other == id,
        DeviceOp::Complete(other) => other == id,
        _ => false,
    }
}

/// Whatever happens to a valid handle, it stays valid.
pub proof fn law_stays_valid(state: DeviceState, ops: Seq<DeviceOp>)
    requires
        state.wf(),
        can_run(state, ops),
    ensures
        run(state, ops).wf(),
    decreases ops.len(),
{
    if ops.len() > 0 {
        law_stays_valid(state, ops.drop_last());
    }
}

/// The file descriptor of a handle never changes.
pub proof fn law_fd_is_kept(state: DeviceState, ops: Seq<DeviceOp>)
    ensures
        run(state, ops).fd == state.fd,
    decreases ops.len(),
{
    if ops.len() > 0 {
        law_fd_is_kept(state, ops.drop_last());
    }
}

/// A handle that was closed stays closed.
pub proof fn law_closed_for_good(state: DeviceState, ops: Seq<DeviceOp>)
    requires
        state.closed,
    ensures
        run(state, ops).closed,
    decreases ops.len(),
{
    if ops.len() > 0 {
        law_closed_for_good(state, ops.drop_last());
    }
}

/// To a handle that was closed nothing happens but that reaping starts, or that it is closed again;
/// no id is given out and no URB comes or goes.
pub proof fn law_closed_is_idle(state: DeviceState, ops: Seq<DeviceOp>)
    requires
        state.closed,
        can_run(state, ops),
    ensures
        run(state, ops).issued == state.issued,
        run(state, ops).pending == state.pending,
    decreases ops.len(),
{
    if ops.len() > 0 {
        law_closed_is_idle(state, ops.drop_last());
        law_closed_for_good(state, ops.drop_last());
    }
}

/// Closing a handle that was closed changes nothing.
pub proof fn law_close_twice(state: DeviceState)
    ensures
        state.close().close() == state.close(),
{
}

/// Closing a handle hands out its descriptor once: after that nothing is left to be closed, whatever
/// happens.
pub proof fn law_freed_once(state: DeviceState, ops: Seq<DeviceOp>)
    requires
        !state.closed,
    ensures
        state.to_free() == Some(state.fd),
        run(state.close(), ops).to_free() is None,
{
    law_closed_for_good(state.close(), ops);
}

/// A handle that was not closed since signals where reaping listens, whatever else has happened, that
/// reaping is to stop.
pub proof fn law_close_reaches_reaping(
    state: DeviceState,
    receiver: Receiver<()>,
    ops: Seq<DeviceOp>,
)
    requires
        state.wf(),
        !state.closed,
        state.close_receiver == Some(receiver),
        forall|i: int| 0 <= i < ops.len() ==> !(#[trigger] ops[i] is Close),
    ensures
        run(state, ops).close_sender is Some,
        crate::completion::close_channel(run(state, ops).close_sender->0, receiver),
    decreases ops.len(),
{
    if ops.len() > 0 {
        assert forall|i: int| 0 <= i < ops.drop_last().len() implies !(
        #[trigger] ops.drop_last()[i] is Close) by {
            assert(ops.drop_last()[i] == ops[i]);
        }
        law_close_reaches_reaping(state, receiver, ops.drop_last());
        assert(!(ops[ops.len() - 1] is Close));
    }
}

/// Ids are given out in ascending order.
pub proof fn law_ids_ascend(state: DeviceState, ops: Seq<DeviceOp>)
    requires
        can_run(state, ops),
    ensures
        run(state, ops).issued >= state.issued,
    decreases ops.len(),
{
    if ops.len() > 0 {
        law_ids_ascend(state, ops.drop_last());
    }
}

/// Awaiting a URB never displaces another: what was awaited stays awaited where it was.
pub proof fn law_expect_displaces_nothing(
    state: DeviceState,
    id: usize,
    sender: Sender<Completion>,
    other: usize,
)
    requires
        can_apply(state, DeviceOp::Expect(id, sender)),
        state.pending.contains_key(other),
    ensures
        state.expect(id, sender).pending.contains_key(other),
        state.expect(id, sender).pending[other] == state.pending[other],
{
}

/// The id that a valid handle gives out can be the id of the URB that it is given out for.
pub proof fn law_next_id_can_be_expected(state: DeviceState)
    requires
        state.wf(),
        can_apply(state, DeviceOp::Issue),
    ensures
        state.issue().can_expect(state.issue().issued),
{
}

/// The next id of a valid handle is not that of a URB whose completion is awaited, so that no
/// completion is awaited under the id of another.
pub proof fn law_next_id_is_fresh(state: DeviceState)
    requires
        state.wf(),
        can_apply(state, DeviceOp::Issue),
    ensures
        state.issue().issued != 0,
        !state.issue().pending.contains_key(state.issue().issued),
{
}

/// An id that was given out is not given out again.
pub proof fn law_id_is_given_out_once(state: DeviceState, ops: Seq<DeviceOp>)
    requires
        can_apply(state, DeviceOp::Issue),
        can_run(state.issue(), ops),
        can_apply(run(state.issue(), ops), DeviceOp::Issue),
    ensures
        run(state.issue(), ops).issue().issued > state.issue().issued,
{
    law_ids_ascend(state.issue(), ops);
}

/// Where a completion is to be sent does not change until the URB comes back, whatever happens to
/// other URBs and in whatever order.
pub proof fn law_sender_is_kept(state: DeviceState, ops: Seq<DeviceOp>, id: usize)
    requires
        state.pending.contains_key(id),
        forall|i: int| 0 <= i < ops.len() ==> !is_about(#[trigger] ops[i], id),
    ensures
        run(state, ops).pending.contains_key(id),
        run(state, ops).pending[id] == state.pending[id],
    decreases ops.len(),
{
    if ops.len() > 0 {
        assert forall|i: int| 0 <= i < ops.drop_last().len() implies !is_about(
            #[trigger] ops.drop_last()[i],
            id,
        ) by {
            assert(ops.drop_last()[i] == ops[i]);
        }
        law_sender_is_kept(state, ops.drop_last(), id);
        assert(!is_about(ops[ops.len() - 1], id));
    }
}

/// The future that a submitted URB was answered with gets the completion of that URB: when the URB
/// comes back, the completion is sent by the other end of the future's channel.
pub proof fn law_response_is_for_its_request(
    state: DeviceState,
    id: usize,
    sender: Sender<Completion>,
    receiver: Receiver<Completion>,
    ops: Seq<DeviceOp>,
)
    requires
        crate::completion::completion_channel(sender, receiver),
        forall|i: int| 0 <= i < ops.len() ==> !is_about(#[trigger] ops[i], id),
    ensures
        run(state.expect(id, sender), ops).pending.contains_key(id),
        crate::completion::completion_channel(
            run(state.expect(id, sender), ops).pending[id],
            receiver,
        ),
{
    law_sender_is_kept(state.expect(id, sender), ops, id);
}

/// Once a URB has come back, the state is what it was before its completion was awaited.
pub proof fn law_complete_undoes_expect(state: DeviceState, id: usize, sender: Sender<Completion>)
    requires
        !state.pending.contains_key(id),
    ensures
        state.expect(id, sender).complete(id) == state,
{
    assert(state.expect(id, sender).complete(id).pending =~= state.pending);
}

/// A URB that was submitted and has come back leaves no trace but the id that it used up.
pub proof fn law_round_trip(state: DeviceState, sender: Sender<Completion>)
    requires
        state.wf(),
        can_apply(state, DeviceOp::Issue),
    ensures
        ({
            let id = state.issue().issued;
            state.issue().expect(id, sender).complete(id) == state.issue()
        }),
{
    law_next_id_is_fresh(state);
    law_complete_undoes_expect(state.issue(), state.issue().issued, sender);
}

/// A URB comes back once: after that its completion is not awaited.
pub proof fn law_completes_once(state: DeviceState, id: usize)
    ensures
        !state.complete(id).pending.contains_key(id),
        !can_apply(state.complete(id), DeviceOp::Complete(id)),
{
}

/// A dispatch by an open handle is fatal if and only if no completion is awaited under the id of the
/// URB, or nothing was left to receive the completion. So a second dispatch under the same id is fatal,
/// whatever came of the first.
pub proof fn law_when_dispatch_is_fatal(
    state: DeviceState,
    urb: UrbWrap,
    sent: Result<(), Completion>,
    again: UrbWrap,
    sent_again: Result<(), Completion>,
)
    requires
        !state.closed,
        again.spec_id() == urb.spec_id(),
    ensures
        crate::device::dispatched(state, urb, sent) is Ok,
        crate::device::dispatched(state, urb, sent)->Ok_0 is Err <==> (
        !state.pending.contains_key(urb.spec_id()) || sent is Err),
        crate::device::dispatched(
            crate::device::after_dispatch(state, urb),
            again,
            sent_again,
        ) == Ok::<Result<(), Fault>, Errno>(Err(Fault::NotAwaited(urb.spec_id()))),
{
}

/// In which order two URBs come back makes no difference to the state.
pub proof fn law_completions_commute(state: DeviceState, a: usize, b: usize)
    ensures
        state.complete(a).complete(b) == state.complete(b).complete(a),
{
    assert(state.complete(a).complete(b).pending =~= state.complete(b).complete(a).pending);
}

/// The components of `bmRequestType` can be read off it, and it fits a byte, for every recipient
/// whose number fits the bits for it.
pub proof fn law_request_type_layout(req: ControlRequest)
    requires
        req.recipient.bits() < 32,
    ensures
        0 <= req.request_type() <= u8::MAX,
        req.request_type() / 128 * 128 == req.direction.bits(),
        req.request_type() % 128 / 32 * 32 == req.req_type.bits(),
        req.request_type() % 32 == req.recipient.bits(),
{
}

/// A recipient other than a reserved one has a number that fits the bits for it.
pub proof fn law_recipient_fits(recipient: Recipient)
    requires
        !(recipient is Reserved),
    ensures
        0 <= recipient.bits() < 4,
{
}

/// The fields of a request stand in its packet where USB has them, 16 bit numbers with the lower byte
/// first; behind them stands the data, of the length that the packet gives.
pub proof fn law_packet_layout(req: ControlRequest)
    requires
        req.request_type() <= u8::MAX,
        req.data@.len() <= DATA_MAX,
    ensures
        req.spec_packet().len() == SETUP_LEN + req.data@.len(),
        req.spec_packet().len() <= i16::MAX,
        req.spec_packet()[0] == req.request_type(),
        req.spec_packet()[1] == req.request,
        req.spec_packet()[2] + 256 * req.spec_packet()[3] == req.value,
        req.spec_packet()[4] + 256 * req.spec_packet()[5] == req.index,
        req.spec_packet()[6] + 256 * req.spec_packet()[7] == req.data@.len(),
        req.spec_packet().skip(SETUP_LEN as int) == req.data@,
{
    assert(req.spec_packet().skip(SETUP_LEN as int) =~= req.data@);
}

/// Two requests with the same packet are the same, apart from how a recipient is written that has
/// the number of another.
pub proof fn law_packet_determines_request(a: ControlRequest, b: ControlRequest)
    requires
        a.recipient.bits() < 32,
        b.recipient.bits() < 32,
        a.data@.len() <= DATA_MAX,
        b.data@.len() <= DATA_MAX,
        a.spec_packet() == b.spec_packet(),
    ensures
        a.direction == b.direction,
        a.req_type == b.req_type,
        a.recipient.bits() == b.recipient.bits(),
        !(a.recipient is Reserved) && !(b.recipient is Reserved) ==> a.recipient == b.recipient,
        a.request == b.request,
        a.value == b.value,
        a.index == b.index,
        a.data@ == b.data@,
{
    law_request_type_layout(a);
    law_request_type_layout(b);
    law_packet_layout(a);
    law_packet_layout(b);
}

pub(crate) proof fn lemma_c_len(buf: Seq<i8>, n: nat)
    requires
        n <= buf.len(),
        forall|i: int| 0 <= i < n ==> #[trigger] buf[i] != 0,
        n == buf.len() || buf[n as int] == 0,
    ensures
        crate::interface::c_len(buf) == n,
    decreases n,
{
    if n > 0 {
        assert(buf[0] != 0);
        assert forall|i: int| 0 <= i < n - 1 implies #[trigger] buf.drop_first()[i] != 0 by {
            assert(buf[i + 1] != 0);
        }
        lemma_c_len(buf.drop_first(), (n - 1) as nat);
    }
}

/// The name of a driver that is put into a buffer for it is what can be read back from there, if it
/// fits the buffer and has no nul byte.
pub proof fn law_name_reads_back(name: Seq<u8>)
    requires
        name.len() <= DRIVER_LEN,
        forall|i: int| 0 <= i < name.len() ==> #[trigger] name[i] != 0,
    ensures
        crate::interface::c_bytes(crate::interface::name_buffer(name)) == name,
{
    let buf = crate::interface::name_buffer(name);
    assert forall|i: int| 0 <= i < name.len() implies #[trigger] buf[i] != 0 && buf[i] as u8
        == name[i] by {
        let b: u8 = name[i];
        assert(b != 0 ==> (b as i8) != 0) by (bit_vector);
        assert((b as i8) as u8 == b) by (bit_vector);
    }
    lemma_c_len(buf, name.len());
    assert(crate::interface::c_bytes(buf) =~= name);
}

/// A driver that a claim speaks of is read back under the very name that the options give it.
pub proof fn law_driver_of_options(options: DisconnectOptions, name: Seq<char>, driver: Driver)
    requires
        options.driver_name() == Some(name),
        options.driver_bytes().len() <= DRIVER_LEN,
        forall|i: int|
            0 <= i < options.driver_bytes().len() ==> #[trigger] options.driver_bytes()[i] != 0,
        ({
            let bytes = crate::interface::c_bytes(
                crate::interface::name_buffer(options.driver_bytes()),
            );
            vstd::utf8::valid_utf8(bytes) ==> driver.is_named(vstd::utf8::decode_utf8(bytes))
        }),
    ensures
        driver.is_named(name),
{
    law_name_reads_back(options.driver_bytes());
    vstd::utf8::encode_utf8_valid_utf8(name);
    vstd::utf8::encode_utf8_decode_utf8(name);
}

/// A driver has one name, and it is `Driver::UsbFs` if and only if that is `"usbfs"`.
pub proof fn law_driver_has_one_name(driver: Driver, a: Seq<char>, b: Seq<char>)
    requires
        driver.is_named(a),
        driver.is_named(b),
    ensures
        a == b,
        driver is UsbFs <==> a == "usbfs"@,
{
}

/// A kernel driver is connected again when a claim is released if and only if the options that the
/// claim was made with ask for it, and only if they have a driver disconnected.
pub proof fn law_reconnects_as_asked(
    options: DisconnectOptions,
    device: DeviceState,
    iface: u32,
)
    requires
        !device.closed,
    ensures
        ({
            let release = crate::interface::release_of(device, iface, options.reconnect());
            &&& release is Some
            &&& release->0.interface == iface
            &&& release->0.connect is Some <==> match options {
                DisconnectOptions::DisconnectIf(_, reconnect) => reconnect
                    == ReconnectOptions::ReconnectOnRelease,
                DisconnectOptions::DisconnectExcept(_, reconnect) => reconnect
                    == ReconnectOptions::ReconnectOnRelease,
                DisconnectOptions::LeaveConnected => false,
            }
            &&& release->0.connect is Some ==> options.flags() is Some
        }),
{
}

/// Dropping bits that are no capability keeps the others, and doing it twice is doing it once.
pub proof fn law_truncate(bits: u32, flag: u32)
    requires
        flag & CAP_ALL == flag,
    ensures
        Capabilities::truncated(bits).bits & flag == bits & flag,
        Capabilities::truncated(bits).bits & !CAP_ALL == 0,
        Capabilities::truncated(Capabilities::truncated(bits).bits) == Capabilities::truncated(
            bits,
        ),
{
    let all: u32 = CAP_ALL;
    assert(flag & all == flag ==> (bits & all) & flag == bits & flag) by (bit_vector);
    assert((bits & all) & !all == 0) by (bit_vector);
    assert((bits & all) & all == bits & all) by (bit_vector);
}

/// The kernel is asked for a URB only when the device is open and says that it is ready, and its
/// readiness is reset only when the kernel has no URB to give.
pub proof fn law_reap_when_ready(closed: bool, fd: i32, event: ReapEvent)
    ensures
        crate::reap::reap_step(closed, fd, event) is ReapNdelay <==> !closed
            && event matches ReapEvent::Polled(Ok(Async::Ready(_))),
        crate::reap::reap_step(closed, fd, event) is ClearWriteReady <==> !closed
            && event == ReapEvent::Replied(Err(Errno { code: crate::errno::EAGAIN })),
{
}

/// A URB that the kernel gives is what the wait for it comes to.
pub proof fn law_reaped_urb_is_given(closed: bool, fd: i32, event: ReapEvent)
    ensures
        crate::reap::reap_step(closed, fd, event) matches ReapAction::Done(Ok(Async::Ready(urb)))
            ==> !closed && event == ReapEvent::Replied(Ok(urb.urb)),
{
}

/// How far the wait for a URB has still to go.
pub open spec fn steps_left(event: ReapEvent) -> nat {
    match event {
        ReapEvent::Started => 3,
        ReapEvent::Polled(_) => 2,
        ReapEvent::Replied(_) => 1,
        ReapEvent::Cleared(_) => 0,
    }
}

/// Whether that event can come of that action.
pub open spec fn comes_of(action: ReapAction, event: ReapEvent) -> bool {
    match action {
        ReapAction::PollWriteReady => event is Polled,
        ReapAction::ReapNdelay(_) => event is Replied,
        ReapAction::ClearWriteReady => event is Cleared,
        ReapAction::Done(_) => false,
    }
}

/// Each step towards a URB is the last one or brings the end nearer, so the wait ends.
pub proof fn law_reap_ends(closed: bool, fd: i32, event: ReapEvent, next: ReapEvent)
    requires
        comes_of(crate::reap::reap_step(closed, fd, event), next),
    ensures
        steps_left(next) < steps_left(event),
{
}

} // verus!
