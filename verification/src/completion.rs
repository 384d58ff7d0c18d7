use futures::unsync::oneshot::{Receiver, Sender};
use std::collections::HashMap;
use vstd::prelude::*;

use crate::errno::Errno;
use crate::poll::Async;
use crate::urb::UrbWrap;

verus! {

/// What becomes of a submitted URB: it comes back, or an error does.
pub type Completion = Result<UrbWrap, Errno>;

/// The sending half of a one-shot channel.
#[verifier::external_type_specification]
#[verifier::external_body]
#[verifier::reject_recursive_types(T)]
pub struct ExSender<T>(futures::unsync::oneshot::Sender<T>);

/// The receiving half of a one-shot channel.
#[verifier::external_type_specification]
#[verifier::external_body]
#[verifier::reject_recursive_types(T)]
pub struct ExReceiver<T>(futures::unsync::oneshot::Receiver<T>);

/// Whether the two are the ends of one channel for the completion of a URB.
pub uninterp spec fn completion_channel(
    sender: Sender<Completion>,
    receiver: Receiver<Completion>,
) -> bool;

/// Whether `sent` is what came of sending `completion` by `sender`.
pub uninterp spec fn completion_sent(
    sender: Sender<Completion>,
    completion: Completion,
    sent: Result<(), Completion>,
) -> bool;

/// Whether the two are the ends of one channel for the signal to stop reaping.
pub uninterp spec fn close_channel(sender: Sender<()>, receiver: Receiver<()>) -> bool;

/// Whether `sent` is what came of sending the signal to stop reaping by `sender`.
pub uninterp spec fn close_sent(sender: Sender<()>, sent: Result<(), ()>) -> bool;

/// Calls `futures::unsync::oneshot::channel`, for a completion.
///
/// The two halves that come back are the ends of one new channel.
#[verifier::external_body]
pub(crate) fn new_completion_channel() -> (r: (Sender<Completion>, Receiver<Completion>))
    ensures
        completion_channel(r.0, r.1),
{
    futures::unsync::oneshot::channel()
}

/// Calls `futures::unsync::oneshot::Sender::send`, for a completion.
///
/// A completion that cannot be sent comes back as it was. It can be sent if and only if the receiving
/// half still exists and was not closed, which neither argument tells, so which of the two happens is
/// left open.
#[verifier::external_body]
pub(crate) fn send_completion(sender: Sender<Completion>, completion: Completion) -> (sent: Result<
    (),
    Completion,
>)
    ensures
        completion_sent(sender, completion, sent),
        sent matches Err(unsent) ==> unsent == completion,
{
    sender.send(completion)
}

/// Calls `futures::unsync::oneshot::channel`, for the signal to stop reaping.
///
/// The two halves that come back are the ends of one new channel.
#[verifier::external_body]
pub(crate) fn new_close_channel() -> (r: (Sender<()>, Receiver<()>))
    ensures
        close_channel(r.0, r.1),
{
    futures::unsync::oneshot::channel()
}

/// Calls `futures::unsync::oneshot::Sender::send`, for the signal to stop reaping.
///
/// The signal can be sent if and only if the receiving half still exists and was not closed, which the
/// argument does not tell, so whether it was sent is left open.
#[verifier::external_body]
pub(crate) fn send_close(sender: Sender<()>) -> (sent: Result<(), ()>)
    ensures
        close_sent(sender, sent),
{
    sender.send(())
}

/// The URBs that were submitted and have not come back.
pub struct CompletionSet {
    /// the id that was given out last, 0 before the first
    pub completion_seq: usize,
    /// for the id of each URB, where its completion is to be sent
    pub completions: HashMap<usize, Sender<Completion>>,
}

impl Default for CompletionSet {
    fn default() -> (r: Self)
        ensures
            r.completion_seq == 0,
            r.completions@ == Map::<usize, Sender<Completion>>::empty(),
    {
        CompletionSet { completion_seq: 0, completions: HashMap::new() }
    }
}

/// The future outcome of a submitted URB.
pub struct ResponseFuture {
    /// where the outcome arrives
    pub receiver: Receiver<Completion>,
}

/// Why no completion will arrive: what was to send it is gone.
#[derive(Clone, Copy, PartialEq, Eq, Debug)]
pub struct Canceled;

impl ResponseFuture {
    /// What the future has come to, given what its receiver has.
    ///
    /// Someone has to be left to send the completion.
    pub fn poll(polled: Result<Async<Completion>, Canceled>) -> (r: Result<Async<UrbWrap>, Errno>)
        requires
            polled is Ok,
        ensures
            r == (match polled->Ok_0 {
                Async::Ready(Ok(urb)) => Ok(Async::Ready(urb)),
                Async::Ready(Err(e)) => Err(e),
                Async::NotReady => Ok(Async::NotReady),
            }),
    {
        match polled {
            Ok(Async::Ready(Ok(urb))) => Ok(Async::Ready(urb)),
            Ok(Async::Ready(Err(e))) => Err(e),
            _ => Ok(Async::NotReady),
        }
    }
}

} // verus!
