use futures::unsync::oneshot::{Receiver, Sender};
use vstd::prelude::*;

use crate::capabilities::Capabilities;
use crate::completion::{
    new_close_channel, send_close, send_completion, Completion, CompletionSet,
};
use crate::errno::{Errno, EBADF, EIO};
use crate::interface::UnclaimedInterface;
use crate::urb::{Urb, UrbWrap};

verus! {

broadcast use vstd::std_specs::hash::group_hash_axioms;

/// What a device handle is at some moment.
pub struct DeviceState {
    /// the file descriptor of the device
    pub fd: i32,
    /// whether the handle was closed
    pub closed: bool,
    /// the id that was given out last, 0 before the first
    pub issued: usize,
    /// for the id of each URB that has not come back, where its completion is to be sent
    pub pending: Map<usize, Sender<Completion>>,
    /// by what to signal that reaping is to stop, until that is done
    pub close_sender: Option<Sender<()>>,
    /// where that signal arrives, until reaping starts
    pub close_receiver: Option<Receiver<()>>,
}

impl DeviceState {
    /// The ids of pending URBs are ids that were given out; a handle is closed once it has given the
    /// signal to stop reaping, and the signal arrives where reaping listens for it.
    pub open spec fn wf(self) -> bool {
        &&& forall|id: usize| #[trigger] self.pending.contains_key(id) ==> 1 <= id <= self.issued
        &&& self.closed <==> self.close_sender is None
        &&& self.close_sender matches Some(sender) ==> self.close_receiver matches Some(receiver)
            ==> crate::completion::close_channel(sender, receiver)
    }

    /// Whether a URB can be awaited under that id: it was given out, and no other URB is.
    pub open spec fn can_expect(self, id: usize) -> bool {
        !self.closed && 1 <= id <= self.issued && !self.pending.contains_key(id)
    }

    /// The descriptor that closing the handle leaves to be closed: that of the device, the first time.
    pub open spec fn to_free(self) -> Option<i32> {
        if self.closed {
            None
        } else {
            Some(self.fd)
        }
    }

    /// The state once one more id was given out.
    pub open spec fn issue(self) -> DeviceState {
        DeviceState { issued: (self.issued + 1) as usize, ..self }
    }

    /// The state once the completion of the URB of that id is awaited.
    pub open spec fn expect(self, id: usize, sender: Sender<Completion>) -> DeviceState {
        DeviceState { pending: self.pending.insert(id, sender), ..self }
    }

    /// The state once the URB of that id came back.
    pub open spec fn complete(self, id: usize) -> DeviceState {
        DeviceState { pending: self.pending.remove(id), ..self }
    }

    /// The state once reaping has started.
    pub open spec fn spawn(self) -> DeviceState {
        DeviceState { close_receiver: None, ..self }
    }

    /// The state once the handle is closed.
    pub open spec fn close(self) -> DeviceState {
        DeviceState { closed: true, close_sender: None, ..self }
    }
}

/// The file that a device is reached through.
#[derive(Clone, Copy, PartialEq, Eq, Debug)]
pub struct DeviceInner {
    /// its file descriptor
    pub fd: i32,
}

/// User-space control over a particular USB device.
pub struct DeviceHandle {
    io: DeviceInner,
    completions: CompletionSet,
    closed: bool,
    close_sender: Option<Sender<()>>,
    close_receiver: Option<Receiver<()>>,
}

impl View for DeviceHandle {
    type V = DeviceState;

    closed spec fn view(&self) -> DeviceState {
        DeviceState {
            fd: self.io.fd,
            closed: self.closed,
            issued: self.completions.completion_seq,
            pending: self.completions.completions@,
            close_sender: self.close_sender,
            close_receiver: self.close_receiver,
        }
    }
}

/// What ended the wait for the next URB, or for the signal to stop.
pub enum LoopEvent {
    /// a URB came back
    Reaped(UrbWrap),
    /// reaping failed
    ReapFailed(Errno),
    /// the signal to stop came
    Closed,
    /// the signal to stop can no longer come
    Canceled,
}

/// What keeps a URB that came back from being dispatched. The program cannot go on from there.
pub enum Fault {
    /// The handle was closed meanwhile.
    Closed,
    /// No completion is awaited under that id.
    NotAwaited(usize),
    /// The completion was awaited, but nothing is left to receive it.
    Undelivered(Completion),
}

/// Whether to wait for another URB.
pub enum Loop {
    /// Wait for the next one.
    Continue,
    /// Stop.
    Break,
    /// The URB that came back could not be dispatched.
    Fatal(Fault),
}

/// What is left to do once a handle is closed.
pub struct Closing {
    /// the file descriptor to close, the first time
    pub fd: Option<i32>,
    /// what came of the signal to stop reaping, the first time
    pub signal: Option<Result<(), ()>>,
}

/// What comes of the dispatch of a URB that came back, where `sent` is what came of sending its
/// completion, if that was awaited.
pub open spec fn dispatched(
    state: DeviceState,
    urb: UrbWrap,
    sent: Result<(), Completion>,
) -> Result<Result<(), Fault>, Errno> {
    if state.closed {
        Err(Errno { code: EBADF })
    } else if !state.pending.contains_key(urb.spec_id()) {
        Ok(Err(Fault::NotAwaited(urb.spec_id())))
    } else {
        match sent {
            Ok(_) => Ok(Ok(())),
            Err(_) => Ok(Err(Fault::Undelivered(urb.completion()))),
        }
    }
}

/// Whether `sent` may be what came of sending the completion of that URB: it is, if the completion is
/// awaited, what came of sending it to where it is awaited.
pub open spec fn may_be_sent(
    state: DeviceState,
    urb: UrbWrap,
    sent: Result<(), Completion>,
) -> bool {
    !state.closed && state.pending.contains_key(urb.spec_id())
        ==> crate::completion::completion_sent(
        state.pending[urb.spec_id()],
        urb.completion(),
        sent,
    )
}

/// The state once a URB has come back to a handle: its completion is not awaited any more.
pub open spec fn after_dispatch(state: DeviceState, urb: UrbWrap) -> DeviceState {
    if state.closed {
        state
    } else {
        state.complete(urb.spec_id())
    }
}

impl LoopEvent {
    /// The URB to dispatch, or the error that ends the loop. A signal to stop counts as `EIO`.
    pub open spec fn outcome(self) -> Result<UrbWrap, Errno> {
        match self {
            LoopEvent::Reaped(urb) => Ok(urb),
            LoopEvent::ReapFailed(e) => Err(e),
            LoopEvent::Closed => Err(Errno { code: EIO }),
            LoopEvent::Canceled => Err(Errno { code: EIO }),
        }
    }

    /// The URB to dispatch, or the error that ends the loop. A signal to stop counts as `EIO`.
    pub fn into_outcome(self) -> (r: Result<UrbWrap, Errno>)
        ensures
            r == self.outcome(),
    {
        match self {
            LoopEvent::Reaped(urb) => Ok(urb),
            LoopEvent::ReapFailed(e) => Err(e),
            LoopEvent::Closed => Err(Errno { code: EIO }),
            LoopEvent::Canceled => Err(Errno { code: EIO }),
        }
    }
}

impl DeviceHandle {
    /// A handle on the device that is open as `fd`.
    pub fn new(fd: i32) -> (r: DeviceHandle)
        ensures
            r@.wf(),
            r@.fd == fd,
            !r@.closed,
            r@.issued == 0,
            r@.pending == Map::<usize, Sender<Completion>>::empty(),
            r@.close_sender is Some,
            r@.close_receiver is Some,
    {
        let (close_sender, close_receiver) = new_close_channel();
        DeviceHandle {
            io: DeviceInner { fd },
            completions: CompletionSet::default(),
            closed: false,
            close_sender: Some(close_sender),
            close_receiver: Some(close_receiver),
        }
    }

    /// The file descriptor that the device was opened as, whether or not the handle was closed.
    pub(crate) fn descriptor(&self) -> (r: i32)
        ensures
            r == self@.fd,
    {
        self.io.fd
    }

    /// Whether the handle was closed.
    pub fn is_closed(&self) -> (r: bool)
        ensures
            r == self@.closed,
    {
        self.closed
    }

    /// The file of the device, unless the handle was closed.
    pub fn io(&self) -> (r: Result<&DeviceInner, Errno>)
        ensures
            self@.closed ==> r == Err::<&DeviceInner, Errno>(Errno { code: EBADF }),
            !self@.closed ==> (r matches Ok(io) && io.fd == self@.fd),
    {
        if self.closed {
            Err(Errno { code: EBADF })
        } else {
            Ok(&self.io)
        }
    }

    /// The URBs that have not come back, unless the handle was closed.
    pub fn completions(&self) -> (r: Result<&CompletionSet, Errno>)
        ensures
            self@.closed ==> r == Err::<&CompletionSet, Errno>(Errno { code: EBADF }),
            !self@.closed ==> (r matches Ok(c) && c.completion_seq == self@.issued
                && c.completions@ == self@.pending),
    {
        if self.closed {
            Err(Errno { code: EBADF })
        } else {
            Ok(&self.completions)
        }
    }

    /// The file descriptor of the device, unless the handle was closed.
    pub fn fd(&self) -> (r: Result<i32, Errno>)
        ensures
            r == (if self@.closed {
                Err(Errno { code: EBADF })
            } else {
                Ok(self@.fd)
            }),
    {
        match self.io() {
            Ok(io) => Ok(io.fd),
            Err(e) => Err(e),
        }
    }

    /// Whether the handle can give out another id: it is open, and not all ids are used up.
    pub fn has_next_id(&self) -> (r: bool)
        ensures
            r == (!self@.closed && self@.issued < usize::MAX),
    {
        match self.completions() {
            Ok(completions) => completions.completion_seq < usize::MAX,
            Err(_) => false,
        }
    }

    /// Gives out the id for another URB.
    pub fn next_id(&mut self) -> (r: usize)
        requires
            !old(self)@.closed,
            old(self)@.issued < usize::MAX,
        ensures
            r == old(self)@.issued + 1,
            final(self)@ == old(self)@.issue(),
            old(self)@.wf() ==> final(self)@.wf(),
    {
        self.completions.completion_seq = self.completions.completion_seq + 1;
        self.completions.completion_seq
    }

    /// Notes where to send the completion of the URB that was submitted under `id`.
    pub fn add_completion(&mut self, id: usize, sender: Sender<Completion>)
        requires
            !old(self)@.closed,
        ensures
            final(self)@ == old(self)@.expect(id, sender),
            old(self)@.wf() && 1 <= id <= old(self)@.issued ==> final(self)@.wf(),
    {
        self.completions.completions.insert(id, sender);
    }

    /// Whether the completion of the URB that was submitted under `id` is awaited.
    pub fn has_completion(&self, id: usize) -> (r: bool)
        ensures
            r == self@.pending.contains_key(id),
    {
        self.completions.completions.contains_key(&id)
    }

    /// Whether a URB can be awaited under `id`: it was given out, and no other URB is.
    pub fn can_expect(&self, id: usize) -> (r: bool)
        ensures
            r == self@.can_expect(id),
    {
        match self.completions() {
            Ok(completions) => 1 <= id && id <= completions.completion_seq
                && !completions.completions.contains_key(&id),
            Err(_) => false,
        }
    }

    /// Takes note that a URB came back: its completion, and where to send it, if it is awaited.
    pub fn take_completion(&mut self, urb: UrbWrap) -> (r: Result<
        Option<(Sender<Completion>, Completion)>,
        Errno,
    >)
        ensures
            old(self)@.wf() ==> final(self)@.wf(),
            final(self)@ == after_dispatch(old(self)@, urb),
            r == (if old(self)@.closed {
                Err(Errno { code: EBADF })
            } else if old(self)@.pending.contains_key(urb.spec_id()) {
                Ok(Some((old(self)@.pending[urb.spec_id()], urb.completion())))
            } else {
                Ok(None)
            }),
    {
        match self.completions() {
            Ok(_) => (),
            Err(e) => {
                return Err(e);
            },
        }
        let id: usize = urb.id();
        let completion = urb.into_completion();
        match self.completions.completions.remove(&id) {
            Some(sender) => Ok(Some((sender, completion))),
            None => {
                assert(self@.pending =~= old(self)@.complete(id).pending);
                Ok(None)
            },
        }
    }

    /// Sends the completion of a URB that came back to where it is awaited.
    ///
    /// There is no going on from an inner error: a URB has come back that is not awaited, or that
    /// nothing is left to receive.
    pub fn dispatch(&mut self, urb: UrbWrap) -> (r: Result<Result<(), Fault>, Errno>)
        ensures
            old(self)@.wf() ==> final(self)@.wf(),
            final(self)@ == after_dispatch(old(self)@, urb),
            exists|sent: Result<(), Completion>| #[trigger]
                may_be_sent(old(self)@, urb, sent) && r == dispatched(old(self)@, urb, sent),
    {
        let id: usize = urb.id();
        match self.take_completion(urb) {
            Ok(Some((sender, completion))) => {
                let sent = send_completion(sender, completion);
                assert(may_be_sent(old(self)@, urb, sent));
                match sent {
                    Ok(_) => Ok(Ok(())),
                    Err(unsent) => Ok(Err(Fault::Undelivered(unsent))),
                }
            },
            Ok(None) => {
                assert(may_be_sent(old(self)@, urb, Ok(())));
                Ok(Err(Fault::NotAwaited(id)))
            },
            Err(e) => {
                assert(may_be_sent(old(self)@, urb, Ok(())));
                Err(e)
            },
        }
    }

    /// The capabilities of the device, given the kernel's reply to the request for them.
    pub fn capabilities(&self, reply: Result<u32, Errno>) -> (r: Result<Capabilities, Errno>)
        ensures
            r == (if self@.closed {
                Err(Errno { code: EBADF })
            } else {
                match reply {
                    Ok(caps) => Ok(Capabilities::truncated(caps)),
                    Err(e) => Err(e),
                }
            }),
    {
        match self.fd() {
            Err(e) => Err(e),
            Ok(_) => match reply {
                Err(e) => Err(e),
                Ok(caps) => Ok(Capabilities::from_bits_truncate(caps)),
            },
        }
    }

    /// Obtain a reference to the given interface of the USB device, in an 'unclaimed' state.
    pub fn interface(&self, iface: u32) -> (r: UnclaimedInterface<'_>)
        ensures
            r.device() == self@,
            r.number() == iface,
    {
        UnclaimedInterface::new(self, iface)
    }

    /// What came of a USB bus reset on this device, given the kernel's reply to the request for it.
    pub fn reset(&mut self, reply: Result<(), Errno>) -> (r: Result<(), Errno>)
        ensures
            final(self)@ == old(self)@,
            r == (if old(self)@.closed {
                Err(Errno { code: EBADF })
            } else {
                reply
            }),
    {
        match self.fd() {
            Err(e) => Err(e),
            Ok(_) => reply,
        }
    }

    /// Used to 'harvest' a URB previously submitted to an endpoint pipe, given the kernel's reply to
    /// the request for it.
    pub fn reap_ndelay(&self, reply: Result<Urb, Errno>) -> (r: Result<UrbWrap, Errno>)
        ensures
            r == (if self@.closed {
                Err(Errno { code: EBADF })
            } else {
                match reply {
                    Ok(urb) => Ok(UrbWrap { urb }),
                    Err(e) => Err(e),
                }
            }),
    {
        match self.fd() {
            Err(e) => Err(e),
            Ok(_) => match reply {
                Err(e) => Err(e),
                Ok(urb) => Ok(UrbWrap { urb }),
            },
        }
    }

    /// Whether reaping can still be started.
    pub fn can_spawn(&self) -> (r: bool)
        ensures
            r == (self@.close_receiver is Some),
    {
        self.close_receiver.is_some()
    }

    /// Starts to reap: hands out where the signal to stop arrives. That can be done once.
    pub fn spawn_onto(&mut self) -> (r: Receiver<()>)
        requires
            old(self)@.close_receiver is Some,
        ensures
            old(self)@.close_receiver == Some(r),
            final(self)@ == old(self)@.spawn(),
            old(self)@.wf() ==> final(self)@.wf(),
    {
        self.close_receiver.take().unwrap()
    }

    /// Acts on what ended a wait for the next URB: a URB is dispatched, anything else ends reaping.
    pub fn reaped(&mut self, event: LoopEvent) -> (r: Loop)
        ensures
            old(self)@.wf() ==> final(self)@.wf(),
            match event.outcome() {
                Ok(urb) => {
                    &&& final(self)@ == after_dispatch(old(self)@, urb)
                    &&& exists|sent: Result<(), Completion>|
                        {
                            &&& #[trigger] may_be_sent(old(self)@, urb, sent)
                            &&& r == (match dispatched(old(self)@, urb, sent) {
                                Ok(Ok(_)) => Loop::Continue,
                                Ok(Err(fault)) => Loop::Fatal(fault),
                                Err(_) => Loop::Fatal(Fault::Closed),
                            })
                        }
                },
                Err(_) => r == Loop::Break && final(self)@ == old(self)@,
            },
    {
        match event.into_outcome() {
            Err(_) => Loop::Break,
            Ok(urb) => match self.dispatch(urb) {
                Ok(Ok(_)) => Loop::Continue,
                Ok(Err(fault)) => Loop::Fatal(fault),
                Err(_) => Loop::Fatal(Fault::Closed),
            },
        }
    }

    /// Free the resources associated with this device handle
    ///
    /// From here on its requests fail with `EBADF`. The first call signals that reaping is to stop,
    /// and hands out the file descriptor of the device, which is then to be closed.
    pub fn close(&mut self) -> (r: Closing)
        ensures
            final(self)@ == old(self)@.close(),
            old(self)@.wf() ==> final(self)@.wf(),
            r.fd == old(self)@.to_free(),
            match old(self)@.close_sender {
                Some(sender) => r.signal matches Some(sent) && crate::completion::close_sent(
                    sender,
                    sent,
                ),
                None => r.signal is None,
            },
    {
        let fd = if self.closed {
            None
        } else {
            Some(self.io.fd)
        };
        self.closed = true;
        let signal = match self.close_sender.take() {
            Some(close_sender) => Some(send_close(close_sender)),
            None => None,
        };
        Closing { fd, signal }
    }
}

} // verus!
