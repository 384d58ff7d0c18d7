use futures::Future;
use usbfs_device::{
    ClaimRequest, ControlRequest, DeviceHandle, DisconnectClaim, DisconnectOptions, Driver, Errno,
    GetDriver, Loop, LoopEvent, Recipient, ReconnectOptions, ReqType, TransferDirection,
    UnclaimedInterface, UrbWrap, DRIVER_LEN,
};

const EBUSY: i32 = 16;

fn buffer(name: &[u8]) -> [i8; DRIVER_LEN] {
    let mut driver = [0; DRIVER_LEN];
    for (n, b) in name.iter().enumerate() {
        driver[n] = *b as i8;
    }
    driver
}

fn disconnect_request(
    iface: &UnclaimedInterface<'_>,
    options: DisconnectOptions<'_>,
) -> (i32, DisconnectClaim) {
    match iface.disconnect_claim_request(options) {
        Ok((fd, ClaimRequest::DisconnectClaim(request))) => (fd, request),
        _ => panic!("a driver is to be disconnected"),
    }
}

fn driver_of(name: &[u8]) -> Driver {
    let dev = DeviceHandle::new(3);
    let reply = GetDriver { interface: 0, driver: buffer(name) };
    dev.interface(0).driver(Ok(reply)).unwrap()
}

#[test]
fn reset() {
    let mut d = DeviceHandle::new(3);
    assert_eq!(d.fd(), Ok(3));
    d.reset(Ok(())).unwrap();
}

#[test]
fn getdriver() {
    let d = DeviceHandle::new(3);
    for i in 0..=2 {
        let iface = d.interface(i);
        let (fd, mut request) = iface.driver_request().ok().unwrap();
        assert_eq!(fd, 3);
        assert_eq!(request.interface, i);
        assert_eq!(request.driver, [0; DRIVER_LEN]);
        request.driver = buffer(b"usbhid");
        let driver = iface.driver(Ok(request));
        println!("interface {} driver: {:?}", i, driver);
        assert_eq!(driver, Ok(Driver::Other(String::from("usbhid"))));
    }
}

#[test]
fn caps() {
    let d = DeviceHandle::new(3);
    println!("caps {:?}", d.capabilities(Ok(0x1fd)).unwrap());
    assert_eq!(d.capabilities(Ok(0x1fd)).unwrap().bits, 0x7d);
}

#[test]
fn interface() {
    let d = DeviceHandle::new(3);
    let iface = d.interface(0);
    let reply = GetDriver { interface: 0, driver: buffer(b"usbfs") };
    println!("iface 0 driver: {:?}", iface.driver(Ok(reply)));
    let options =
        DisconnectOptions::DisconnectExcept("usbfs", ReconnectOptions::ReconnectOnRelease);
    let (fd, request) = disconnect_request(&iface, options);
    assert_eq!(fd, 3);
    assert_eq!(request.interface, 0);
    assert_eq!(request.flags, 2);
    assert_eq!(request.driver, buffer(b"usbfs"));
    iface.disconnect_claim(options, Ok(())).unwrap();
}

#[test]
fn multiple_claims() {
    let d = DeviceHandle::new(3);
    let iface = d.interface(0);
    let options =
        DisconnectOptions::DisconnectExcept("usbfs", ReconnectOptions::ReconnectOnRelease);
    iface.disconnect_claim(options, Ok(())).unwrap();

    let d_again = DeviceHandle::new(4);
    let iface_again = d_again.interface(0);
    let refused = iface_again.disconnect_claim(options, Err(Errno { code: EBUSY }));
    assert!(refused.is_err());
    assert_eq!(refused.err().unwrap().code, EBUSY);
}

#[test]
fn future() {
    let mut dev = DeviceHandle::new(3);
    let close_receiver = dev.spawn_onto();

    let options = DisconnectOptions::DisconnectIf(
        "dvb_usb_rtl28xxu",
        ReconnectOptions::StayDisconnectedOnRelease,
    );
    let iface = dev.interface(0);
    let (_, request) = disconnect_request(&iface, options);
    assert_eq!(request.flags, 1);
    assert_eq!(request.driver, buffer(b"dvb_usb_rtl28xxu"));
    let claimed = iface.disconnect_claim(options, Ok(())).unwrap();
    let ctl_pipe = claimed.endpoint_control(0);
    let req = ControlRequest {
        direction: TransferDirection::HostToDevice,
        req_type: ReqType::Vendor,
        recipient: Recipient::Interface,
        request: 0x00,
        value: 0x3001,
        index: 0x0210,
        data: vec![0x09],
    };
    let submission = ctl_pipe.submit_request(&mut dev, req).ok().unwrap();
    assert_eq!(submission.fd, 3);
    assert_eq!(
        submission.urb.buffer,
        vec![0x41, 0x00, 0x01, 0x30, 0x10, 0x02, 0x01, 0x00, 0x09]
    );
    let response = ctl_pipe.submit(&mut dev, submission.id, Ok(())).ok().unwrap();

    let mut urb = submission.urb;
    urb.actual_length = 1;
    assert!(matches!(dev.reaped(LoopEvent::Reaped(UrbWrap { urb })), Loop::Continue));
    let urb = response.receiver.wait().unwrap().unwrap();
    println!("response gotz URB {:?}", urb.describe());
    assert_eq!(urb.id(), submission.id);

    let closing = dev.close();
    assert_eq!(closing.signal, Some(Ok(())));
    assert_eq!(closing.fd, Some(3));
    assert_eq!(close_receiver.wait(), Ok(()));
    assert!(matches!(dev.reaped(LoopEvent::Closed), Loop::Break));
}

#[test]
fn driver_named_usbfs() {
    assert_eq!(driver_of(b"usbfs"), Driver::UsbFs);
    assert_eq!(driver_of(b"usbfs\0more"), Driver::UsbFs);
    assert_eq!(driver_of(b"usbfs2"), Driver::Other(String::from("usbfs2")));
    assert_eq!(driver_of(b"USBFS"), Driver::Other(String::from("USBFS")));
    assert_eq!(driver_of(b""), Driver::Other(String::from("")));
}

#[test]
fn driver_name_that_is_no_text() {
    assert_eq!(driver_of("tr\u{e9}".as_bytes()), Driver::Other(String::from("tr\u{e9}")));
    assert_eq!(driver_of(b"a\xffb"), Driver::Other(String::from("a\u{fffd}b")));
}

#[test]
fn driver_name_without_end() {
    let name = vec![b'x'; DRIVER_LEN];
    assert_eq!(driver_of(&name), Driver::Other(String::from_utf8(name.clone()).unwrap()));
}

#[test]
fn driver_that_cannot_be_told() {
    let dev = DeviceHandle::new(3);
    assert_eq!(dev.interface(0).driver(Err(Errno { code: 61 })), Err(Errno { code: 61 }));
}

#[test]
fn driver_from_name() {
    assert_eq!(Driver::from_name(String::from("usbfs")), Driver::UsbFs);
    assert_eq!(Driver::from_name(String::from("cdc_acm")), Driver::Other(String::from("cdc_acm")));
}

#[test]
fn claim_that_leaves_drivers_connected() {
    let dev = DeviceHandle::new(3);
    let options = DisconnectOptions::LeaveConnected;
    assert!(options.fits());
    let (fd, request) = dev.interface(7).disconnect_claim_request(options).ok().unwrap();
    assert_eq!(fd, 3);
    assert!(matches!(request, ClaimRequest::Claim(7)));
    let refused = dev.interface(7).disconnect_claim(options, Err(Errno { code: EBUSY }));
    assert_eq!(refused.err().unwrap().code, EBUSY);
    let claimed = dev.interface(7).disconnect_claim(options, Ok(())).unwrap();
    let release = claimed.release(&dev).unwrap();
    assert_eq!((release.fd, release.interface, release.connect), (3, 7, None));
}

#[test]
fn claimed_driver_reads_back() {
    let dev = DeviceHandle::new(3);
    let options =
        DisconnectOptions::DisconnectIf("tr\u{e9}", ReconnectOptions::ReconnectOnRelease);
    let (_, request) = disconnect_request(&dev.interface(0), options);
    assert_eq!(request.driver[2], -61);
    let reply = GetDriver { interface: 0, driver: request.driver };
    assert_eq!(
        dev.interface(0).driver(Ok(reply)).unwrap(),
        Driver::Other(String::from("tr\u{e9}"))
    );
}

#[test]
fn name_of_a_driver_has_to_fit() {
    let longest = "x".repeat(DRIVER_LEN);
    let reconnect = ReconnectOptions::ReconnectOnRelease;
    assert!(DisconnectOptions::DisconnectIf(&longest, reconnect).fits());
    let dev = DeviceHandle::new(3);
    let options = DisconnectOptions::DisconnectIf(&longest, reconnect);
    let (_, request) = disconnect_request(&dev.interface(0), options);
    assert_eq!(request.driver, [120; DRIVER_LEN]);
    let longer = "x".repeat(DRIVER_LEN + 1);
    assert!(!DisconnectOptions::DisconnectIf(&longer, reconnect).fits());
    assert!(!DisconnectOptions::DisconnectExcept(&longer, reconnect).fits());
}

#[test]
fn release_reconnects_if_asked() {
    let dev = DeviceHandle::new(3);
    for (reconnect, connect) in vec![
        (ReconnectOptions::ReconnectOnRelease, Some(4)),
        (ReconnectOptions::StayDisconnectedOnRelease, None),
    ] {
        for options in vec![
            DisconnectOptions::DisconnectIf("x", reconnect),
            DisconnectOptions::DisconnectExcept("x", reconnect),
        ] {
            let claimed = dev.interface(4).disconnect_claim(options, Ok(())).unwrap();
            assert!(claimed.belongs_to(&dev));
            assert!(!claimed.belongs_to(&DeviceHandle::new(4)));
            let release = claimed.release(&dev).unwrap();
            assert_eq!((release.fd, release.interface), (3, 4));
            assert_eq!(release.connect, connect);
        }
    }
}

#[test]
fn closed_device_releases_nothing() {
    let mut dev = DeviceHandle::new(3);
    let options = DisconnectOptions::DisconnectIf("x", ReconnectOptions::ReconnectOnRelease);
    let claimed = dev.interface(4).disconnect_claim(options, Ok(())).unwrap();
    dev.close();
    assert_eq!(claimed.release(&dev), None);
}

#[test]
fn interface_number_wraps_for_connect() {
    let dev = DeviceHandle::new(3);
    let options = DisconnectOptions::DisconnectIf("x", ReconnectOptions::ReconnectOnRelease);
    let claimed = dev.interface(u32::MAX).disconnect_claim(options, Ok(())).unwrap();
    assert_eq!(claimed.release(&dev).unwrap().connect, Some(-1));
}
