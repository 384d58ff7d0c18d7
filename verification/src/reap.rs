use vstd::prelude::*;

use crate::device::DeviceHandle;
use crate::errno::{Errno, EAGAIN, EIO};
use crate::poll::Async;
use crate::urb::{Urb, UrbWrap};

verus! {

/// What has happened since the last step towards the next URB.
pub enum ReapEvent {
    /// nothing: this is the first step
    Started,
    /// the device was asked whether it is ready
    Polled(Result<Async<()>, ()>),
    /// the kernel was asked for a URB
    Replied(Result<Urb, Errno>),
    /// the readiness of the device was reset
    Cleared(Result<(), ()>),
}

/// The next step towards the next URB.
pub enum ReapAction {
    /// Ask whether the device is ready: ready for writing means that there may be a URB.
    PollWriteReady,
    /// Ask the kernel for a URB, by this file descriptor.
    ReapNdelay(i32),
    /// Reset the readiness of the device, so that it is waited for again.
    ClearWriteReady,
    /// That was the last step.
    Done(Result<Async<UrbWrap>, Errno>),
}

/// The step that follows an event, by a device that is open as `fd`, or closed.
pub open spec fn reap_step(closed: bool, fd: i32, event: ReapEvent) -> ReapAction {
    match event {
        ReapEvent::Started => if closed {
            ReapAction::Done(Err(Errno { code: crate::errno::EBADF }))
        } else {
            ReapAction::PollWriteReady
        },
        ReapEvent::Polled(Ok(Async::Ready(_))) => if closed {
            ReapAction::Done(Err(Errno { code: crate::errno::EBADF }))
        } else {
            ReapAction::ReapNdelay(fd)
        },
        ReapEvent::Polled(Ok(Async::NotReady)) => ReapAction::Done(Ok(Async::NotReady)),
        ReapEvent::Polled(Err(_)) => ReapAction::Done(Err(Errno { code: EIO })),
        ReapEvent::Replied(reply) => if closed {
            ReapAction::Done(Err(Errno { code: crate::errno::EBADF }))
        } else {
            match reply {
                Ok(urb) => ReapAction::Done(Ok(Async::Ready(UrbWrap { urb }))),
                Err(e) => if e.code == EAGAIN {
                    ReapAction::ClearWriteReady
                } else {
                    ReapAction::Done(Err(e))
                },
            }
        },
        ReapEvent::Cleared(Ok(_)) => ReapAction::Done(Ok(Async::NotReady)),
        ReapEvent::Cleared(Err(_)) => ReapAction::Done(Err(Errno { code: EIO })),
    }
}

impl DeviceHandle {
    /// The next step towards the next URB that has come back.
    pub fn poll_reap(&self, event: ReapEvent) -> (r: ReapAction)
        ensures
            r == reap_step(self@.closed, self@.fd, event),
    {
        match event {
            ReapEvent::Started => match self.io() {
                Ok(_) => ReapAction::PollWriteReady,
                Err(e) => ReapAction::Done(Err(e)),
            },
            ReapEvent::Polled(Ok(Async::Ready(_))) => match self.fd() {
                Ok(fd) => ReapAction::ReapNdelay(fd),
                Err(e) => ReapAction::Done(Err(e)),
            },
            ReapEvent::Polled(Ok(Async::NotReady)) => ReapAction::Done(Ok(Async::NotReady)),
            ReapEvent::Polled(Err(_)) => ReapAction::Done(Err(Errno { code: EIO })),
            ReapEvent::Replied(reply) => match self.reap_ndelay(reply) {
                Ok(urb) => ReapAction::Done(Ok(Async::Ready(urb))),
                Err(e) => if e.code == EAGAIN {
                    ReapAction::ClearWriteReady
                } else {
                    ReapAction::Done(Err(e))
                },
            },
            ReapEvent::Cleared(Ok(_)) => ReapAction::Done(Ok(Async::NotReady)),
            ReapEvent::Cleared(Err(_)) => ReapAction::Done(Err(Errno { code: EIO })),
        }
    }

    /// Waits for the next URB that has come back, on behalf of `handle`.
    pub fn reap<D>(handle: D) -> (r: Reap<D>)
        ensures
            r.dev == Some(handle),
    {
        Reap { dev: Some(handle) }
    }
}

/// A future which will resolve to a completed USB Request Block (URB), and to the handle that it was
/// reaped by.
pub struct Reap<D> {
    /// the handle, until a URB has come back
    pub dev: Option<D>,
}

impl<D> Reap<D> {
    /// What the future has come to, given what the handle's `poll_reap` came to.
    pub fn poll(&mut self, polled: Result<Async<UrbWrap>, Errno>) -> (r: Result<
        Async<(UrbWrap, D)>,
        Errno,
    >)
        requires
            old(self).dev is Some,
        ensures
            match polled {
                Ok(Async::Ready(urb)) => r == Ok::<Async<(UrbWrap, D)>, Errno>(
                    Async::Ready((urb, old(self).dev->0)),
                ) && final(self).dev is None,
                Ok(Async::NotReady) => r == Ok::<Async<(UrbWrap, D)>, Errno>(Async::NotReady)
                    && *final(self) == *old(self),
                Err(e) => r == Err::<Async<(UrbWrap, D)>, Errno>(e) && *final(self) == *old(self),
            },
    {
        let urb = match polled {
            Ok(Async::Ready(urb)) => urb,
            Ok(Async::NotReady) => {
                return Ok(Async::NotReady);
            },
            Err(e) => {
                return Err(e);
            },
        };
        let dev = self.dev.take().unwrap();
        Ok(Async::Ready((urb, dev)))
    }
}

} // verus!
