use futures::Future;
use usbfs_device::{
    Async, Canceled, ControlPipe, ControlRequest, DeviceHandle, DisconnectOptions, Errno, Fault,
    Loop, LoopEvent, Reap, ReapAction, ReapEvent, Recipient, ReqType, ResponseFuture, TransferDirection,
    Urb, UrbWrap, EAGAIN, EBADF, EINVAL, EIO,
};

fn pipe_of(dev: &DeviceHandle, endpoint: u8) -> ControlPipe {
    dev.interface(2)
        .disconnect_claim(DisconnectOptions::LeaveConnected, Ok(()))
        .unwrap()
        .endpoint_control(endpoint)
}

fn request(data: Vec<u8>) -> ControlRequest {
    ControlRequest {
        direction: TransferDirection::DeviceToHost,
        req_type: ReqType::Class,
        recipient: Recipient::Endpoint,
        request: 7,
        value: 1,
        index: 2,
        data,
    }
}

fn submit(dev: &mut DeviceHandle, data: Vec<u8>) -> (Urb, ResponseFuture) {
    let pipe = pipe_of(dev, 1);
    let submission = pipe.submit_request(dev, request(data)).ok().unwrap();
    let response = pipe.submit(dev, submission.id, Ok(())).ok().unwrap();
    (submission.urb, response)
}

fn come_back(mut urb: Urb, status: i32, actual_length: i32) -> UrbWrap {
    urb.status = status;
    urb.actual_length = actual_length;
    UrbWrap { urb }
}

fn code<T>(r: Result<T, Errno>) -> i32 {
    r.err().unwrap().code
}

#[test]
fn errno_numbers() {
    assert_eq!(EIO, nix::errno::Errno::EIO as i32);
    assert_eq!(EBADF, nix::errno::Errno::EBADF as i32);
    assert_eq!(EAGAIN, nix::errno::Errno::EAGAIN as i32);
    assert_eq!(EINVAL, nix::errno::Errno::EINVAL as i32);
}

#[test]
fn errno_of_integers() {
    for e in 1..=34 {
        assert_eq!(Errno::from_i32(e).code, e);
    }
    for e in -200..=0 {
        assert_eq!(Errno::from_i32(e).code, 0);
    }
    assert_eq!(Errno::from_i32(41).code, 0);
    assert_eq!(Errno::from_i32(110).code, 110);
    assert_eq!(Errno::from_i32(4000).code, 0);
    assert_eq!(Errno::from_i32(i32::MIN).code, 0);
    assert_eq!(Errno::from_i32(i32::MAX).code, 0);
}

#[test]
fn new_handle_is_open() {
    let dev = DeviceHandle::new(5);
    assert!(!dev.is_closed());
    assert_eq!(dev.fd(), Ok(5));
    assert_eq!(dev.io().unwrap().fd, 5);
    assert!(dev.can_spawn());
    assert!(dev.has_next_id());
    let completions = dev.completions().ok().unwrap();
    assert_eq!(completions.completion_seq, 0);
    assert!(completions.completions.is_empty());
}

#[test]
fn closed_handle_refuses() {
    let mut dev = DeviceHandle::new(5);
    let closing = dev.close();
    assert_eq!(closing.fd, Some(5));
    assert_eq!(closing.signal, Some(Ok(())));
    let again = dev.close();
    assert_eq!(again.fd, None);
    assert_eq!(again.signal, None);
    assert!(dev.is_closed());
    assert!(!dev.has_next_id());
    assert_eq!(code(dev.fd()), EBADF);
    assert_eq!(code(dev.io()), EBADF);
    assert_eq!(code(dev.completions()), EBADF);
    assert_eq!(code(dev.capabilities(Ok(1))), EBADF);
    assert_eq!(code(dev.reset(Ok(()))), EBADF);
    assert_eq!(code(dev.reap_ndelay(Err(Errno { code: EAGAIN }))), EBADF);
    assert_eq!(code(dev.interface(0).driver_request()), EBADF);
    assert_eq!(code(dev.interface(0).driver(Err(Errno { code: EIO }))), EBADF);
    let options = DisconnectOptions::LeaveConnected;
    assert_eq!(code(dev.interface(0).disconnect_claim_request(options)), EBADF);
    assert_eq!(code(dev.interface(0).disconnect_claim(options, Ok(()))), EBADF);
}

#[test]
fn replies_are_passed_on() {
    let mut dev = DeviceHandle::new(5);
    assert_eq!(dev.reset(Ok(())), Ok(()));
    assert_eq!(dev.reset(Err(Errno { code: EIO })), Err(Errno { code: EIO }));
    assert_eq!(dev.capabilities(Ok(0x1ff)).unwrap().bits, 0x7f);
    assert_eq!(code(dev.capabilities(Err(Errno { code: EINVAL }))), EINVAL);
    assert_eq!(code(dev.reap_ndelay(Err(Errno { code: EAGAIN }))), EAGAIN);
}

#[test]
fn ids_ascend() {
    let mut dev = DeviceHandle::new(5);
    assert_eq!(dev.next_id(), 1);
    assert_eq!(dev.next_id(), 2);
    let (urb, _response) = submit(&mut dev, vec![]);
    assert_eq!(urb.usercontext, 3);
    assert!(dev.has_completion(3));
    assert!(!dev.has_completion(2));
    assert_eq!(dev.next_id(), 4);
}

#[test]
fn submitted_urb() {
    let mut dev = DeviceHandle::new(5);
    let pipe = pipe_of(&dev, 9);
    let submission = pipe.submit_request(&mut dev, request(vec![1, 2])).ok().unwrap();
    assert_eq!(submission.fd, 5);
    assert_eq!(submission.id, 1);
    let urb = submission.urb;
    assert_eq!(urb.type_, 2);
    assert_eq!(urb.endpoint, 9);
    assert_eq!((urb.status, urb.flags), (0, 0));
    assert_eq!(urb.buffer, vec![0xa2, 7, 1, 0, 2, 0, 2, 0, 1, 2]);
    assert_eq!(urb.buffer_length, 10);
    assert_eq!(urb.actual_length, 0);
    assert_eq!((urb.start_frame, urb.number_of_packets), (0, 0));
    assert_eq!((urb.error_count, urb.signr), (0, 0));
    assert_eq!(urb.usercontext, 1);
}

#[test]
fn refused_urb_is_not_awaited() {
    let mut dev = DeviceHandle::new(5);
    let pipe = pipe_of(&dev, 1);
    let submission = pipe.submit_request(&mut dev, request(vec![])).ok().unwrap();
    let refused = pipe.submit(&mut dev, submission.id, Err(Errno { code: 19 }));
    assert_eq!(code(refused), 19);
    assert!(!dev.has_completion(submission.id));
    let (urb, _response) = submit(&mut dev, vec![]);
    assert_eq!(urb.usercontext, 2);
}

#[test]
fn responses_come_to_their_requests() {
    let mut dev = DeviceHandle::new(5);
    let (first, first_response) = submit(&mut dev, vec![1]);
    let (second, second_response) = submit(&mut dev, vec![2]);
    let (third, third_response) = submit(&mut dev, vec![3]);
    for urb in vec![come_back(third, 0, 9), come_back(first, 0, 8), come_back(second, 32, 0)] {
        let id = urb.id();
        assert!(dev.has_completion(id));
        assert!(dev.dispatch(urb).unwrap().is_ok());
        assert!(!dev.has_completion(id));
    }
    let first = first_response.receiver.wait().unwrap().unwrap();
    assert_eq!(first.id(), 1);
    assert_eq!(first.data(), &[0xa2, 7, 1, 0, 2, 0, 1, 0]);
    assert_eq!(code(second_response.receiver.wait().unwrap()), 32);
    let third = third_response.receiver.wait().unwrap().unwrap();
    assert_eq!(third.id(), 3);
    assert_eq!(third.data(), &[0xa2, 7, 1, 0, 2, 0, 1, 0, 3]);
}

#[test]
fn unknown_status_has_no_number() {
    let mut dev = DeviceHandle::new(5);
    let (urb, response) = submit(&mut dev, vec![]);
    assert!(dev.dispatch(come_back(urb, -32, 0)).unwrap().is_ok());
    assert_eq!(code(response.receiver.wait().unwrap()), 0);
}

#[test]
fn completion_without_receiver_comes_back() {
    let mut dev = DeviceHandle::new(5);
    let (urb, response) = submit(&mut dev, vec![4]);
    drop(response);
    match dev.dispatch(come_back(urb, 0, 3)).unwrap() {
        Err(Fault::Undelivered(unsent)) => assert_eq!(unsent.unwrap().urb.actual_length, 3),
        _ => panic!("nothing is there to receive it"),
    }
    assert!(!dev.has_completion(1));
}

#[test]
fn second_dispatch_is_fatal() {
    let mut dev = DeviceHandle::new(5);
    let (urb, _response) = submit(&mut dev, vec![]);
    let (other, _other_response) = submit(&mut dev, vec![]);
    assert!(dev.dispatch(come_back(urb, 0, 0)).unwrap().is_ok());
    let mut again = other;
    again.usercontext = 1;
    assert!(matches!(
        dev.dispatch(come_back(again, 0, 0)),
        Ok(Err(Fault::NotAwaited(1)))
    ));
    assert!(dev.has_completion(2));
}

#[test]
fn ids_that_can_be_awaited() {
    let mut dev = DeviceHandle::new(5);
    assert!(!dev.can_expect(0));
    assert!(!dev.can_expect(1));
    let id = dev.next_id();
    assert!(dev.can_expect(id));
    let (urb, _response) = submit(&mut dev, vec![]);
    assert!(!dev.can_expect(urb.usercontext));
    dev.close();
    assert!(!dev.can_expect(id));
}

#[test]
fn pipe_belongs_to_its_device() {
    let dev = DeviceHandle::new(5);
    let pipe = pipe_of(&dev, 1);
    assert!(pipe.belongs_to(&dev));
    assert!(!pipe.belongs_to(&DeviceHandle::new(6)));
}

#[test]
fn closed_handle_does_not_dispatch() {
    let mut dev = DeviceHandle::new(5);
    let (urb, _response) = submit(&mut dev, vec![]);
    dev.close();
    assert_eq!(code(dev.dispatch(come_back(urb, 0, 0))), EBADF);
    assert!(dev.has_completion(1));
}

#[test]
fn taken_completion() {
    let mut dev = DeviceHandle::new(5);
    let (urb, response) = submit(&mut dev, vec![]);
    let (sender, completion) = dev.take_completion(come_back(urb, 0, 2)).ok().unwrap().unwrap();
    assert!(!dev.has_completion(1));
    assert!(sender.send(completion).is_ok());
    assert_eq!(response.receiver.wait().unwrap().unwrap().urb.actual_length, 2);
}

#[test]
fn response_follows_receiver() {
    let (urb, _response) = submit(&mut DeviceHandle::new(5), vec![]);
    let ready: Result<_, Canceled> = Ok(Async::Ready(Ok(come_back(urb, 0, 6))));
    match ResponseFuture::poll(ready) {
        Ok(Async::Ready(urb)) => assert_eq!(urb.urb.actual_length, 6),
        _ => panic!("the URB is there"),
    }
    let failed = ResponseFuture::poll(Ok(Async::Ready(Err(Errno { code: EIO }))));
    assert_eq!(code(failed), EIO);
    assert!(matches!(ResponseFuture::poll(Ok(Async::NotReady)), Ok(Async::NotReady)));
}

#[test]
fn closing_signals_reaping() {
    let mut dev = DeviceHandle::new(5);
    let close_receiver = dev.spawn_onto();
    assert!(!dev.can_spawn());
    assert_eq!(dev.close().signal, Some(Ok(())));
    assert_eq!(close_receiver.wait(), Ok(()));
}

#[test]
fn closing_after_reaping_has_ended() {
    let mut dev = DeviceHandle::new(5);
    drop(dev.spawn_onto());
    let closing = dev.close();
    assert_eq!(closing.signal, Some(Err(())));
    assert_eq!(closing.fd, Some(5));
    assert!(dev.is_closed());
}

#[test]
fn loop_goes_on_while_urbs_come() {
    let mut dev = DeviceHandle::new(5);
    let (urb, response) = submit(&mut dev, vec![]);
    assert!(matches!(dev.reaped(LoopEvent::Reaped(come_back(urb, 5, 0))), Loop::Continue));
    assert_eq!(code(response.receiver.wait().unwrap()), 5);
    assert!(matches!(dev.reaped(LoopEvent::ReapFailed(Errno { code: 19 })), Loop::Break));
    assert!(matches!(dev.reaped(LoopEvent::Closed), Loop::Break));
    assert!(matches!(dev.reaped(LoopEvent::Canceled), Loop::Break));
    let (urb, response) = submit(&mut dev, vec![]);
    drop(response);
    match dev.reaped(LoopEvent::Reaped(come_back(urb, 6, 0))) {
        Loop::Fatal(Fault::Undelivered(unsent)) => assert_eq!(code(unsent), 6),
        _ => panic!("nothing is there to receive it"),
    }
    let (mut urb, _response) = submit(&mut dev, vec![]);
    urb.usercontext = 9;
    let event = LoopEvent::Reaped(UrbWrap { urb });
    assert!(matches!(dev.reaped(event), Loop::Fatal(Fault::NotAwaited(9))));
    let (urb, _response) = submit(&mut dev, vec![]);
    dev.close();
    let event = LoopEvent::Reaped(UrbWrap { urb });
    assert!(matches!(dev.reaped(event), Loop::Fatal(Fault::Closed)));
}

#[test]
fn loop_outcomes() {
    assert_eq!(code(LoopEvent::ReapFailed(Errno { code: 19 }).into_outcome()), 19);
    assert_eq!(code(LoopEvent::Closed.into_outcome()), EIO);
    assert_eq!(code(LoopEvent::Canceled.into_outcome()), EIO);
    let (urb, _response) = submit(&mut DeviceHandle::new(5), vec![]);
    assert_eq!(LoopEvent::Reaped(UrbWrap { urb }).into_outcome().unwrap().id(), 1);
}

#[test]
fn steps_of_reaping() {
    let mut dev = DeviceHandle::new(5);
    let (urb, _response) = submit(&mut dev, vec![]);
    assert!(matches!(dev.poll_reap(ReapEvent::Started), ReapAction::PollWriteReady));
    assert!(matches!(
        dev.poll_reap(ReapEvent::Polled(Ok(Async::NotReady))),
        ReapAction::Done(Ok(Async::NotReady))
    ));
    assert!(matches!(
        dev.poll_reap(ReapEvent::Polled(Err(()))),
        ReapAction::Done(Err(Errno { code: EIO }))
    ));
    assert!(matches!(
        dev.poll_reap(ReapEvent::Polled(Ok(Async::Ready(())))),
        ReapAction::ReapNdelay(5)
    ));
    assert!(matches!(
        dev.poll_reap(ReapEvent::Replied(Err(Errno { code: EAGAIN }))),
        ReapAction::ClearWriteReady
    ));
    assert!(matches!(
        dev.poll_reap(ReapEvent::Replied(Err(Errno { code: 19 }))),
        ReapAction::Done(Err(Errno { code: 19 }))
    ));
    match dev.poll_reap(ReapEvent::Replied(Ok(urb))) {
        ReapAction::Done(Ok(Async::Ready(urb))) => assert_eq!(urb.id(), 1),
        _ => panic!("the URB is there"),
    }
    assert!(matches!(
        dev.poll_reap(ReapEvent::Cleared(Ok(()))),
        ReapAction::Done(Ok(Async::NotReady))
    ));
    assert!(matches!(
        dev.poll_reap(ReapEvent::Cleared(Err(()))),
        ReapAction::Done(Err(Errno { code: EIO }))
    ));
    dev.close();
    assert!(matches!(
        dev.poll_reap(ReapEvent::Started),
        ReapAction::Done(Err(Errno { code: EBADF }))
    ));
    assert!(matches!(
        dev.poll_reap(ReapEvent::Polled(Ok(Async::Ready(())))),
        ReapAction::Done(Err(Errno { code: EBADF }))
    ));
}

#[test]
fn reap_gives_its_handle_back() {
    let (urb, _response) = submit(&mut DeviceHandle::new(5), vec![]);
    let mut reap: Reap<&str> = DeviceHandle::reap("handle");
    assert!(matches!(reap.poll(Ok(Async::NotReady)), Ok(Async::NotReady)));
    assert_eq!(code(reap.poll(Err(Errno { code: EIO }))), EIO);
    assert_eq!(reap.dev, Some("handle"));
    match reap.poll(Ok(Async::Ready(UrbWrap { urb }))) {
        Ok(Async::Ready((urb, handle))) => {
            assert_eq!(urb.id(), 1);
            assert_eq!(handle, "handle");
        }
        _ => panic!("the URB is there"),
    }
    assert_eq!(reap.dev, None);
}

#[test]
fn description_of_urb() {
    let (urb, _response) = submit(&mut DeviceHandle::new(5), vec![9]);
    let mut urb = come_back(urb, -32, 0);
    assert_eq!(
        urb.describe(),
        "Urb { type: 2, endpoint: 1, status: -32, flags: 0, error_count: 0, signr: 0, \
         usercontext: 0x1, buffer_length: 9 }"
    );
    urb.urb.type_ = 255;
    urb.urb.endpoint = 10;
    urb.urb.status = i32::MIN;
    urb.urb.flags = u32::MAX;
    urb.urb.error_count = i32::MAX;
    urb.urb.signr = 100;
    urb.urb.usercontext = 0x1f_a09e;
    urb.urb.buffer_length = -1;
    assert_eq!(
        urb.describe(),
        format!(
            "Urb {{ type: 255, endpoint: 10, status: {}, flags: {}, error_count: {}, signr: 100, \
             usercontext: 0x1fa09e, buffer_length: -1 }}",
            i32::MIN,
            u32::MAX,
            i32::MAX
        )
    );
}
