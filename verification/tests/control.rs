use usbfs_device::capabilities;
use usbfs_device::{
    Capabilities, ControlRequest, DeviceHandle, DisconnectOptions, Recipient, ReconnectOptions,
    ReqType, TransferDirection, DATA_MAX, EINVAL, SETUP_LEN,
};

fn request(recipient: Recipient, data: Vec<u8>) -> ControlRequest {
    ControlRequest {
        direction: TransferDirection::HostToDevice,
        req_type: ReqType::Vendor,
        recipient,
        request: 0x00,
        value: 0x3001,
        index: 0x0210,
        data,
    }
}

fn request_type(direction: TransferDirection, req_type: ReqType, recipient: Recipient) -> u8 {
    let mut req = request(recipient, vec![]);
    req.direction = direction;
    req.req_type = req_type;
    assert!(req.has_request_type());
    req.usb_request_type()
}

#[test]
fn request_type_of_each_component() {
    let out = TransferDirection::HostToDevice;
    let std = ReqType::Standard;
    assert_eq!(request_type(out, std, Recipient::Device), 0x00);
    assert_eq!(request_type(TransferDirection::DeviceToHost, std, Recipient::Device), 0x80);
    assert_eq!(request_type(out, ReqType::Class, Recipient::Device), 0x20);
    assert_eq!(request_type(out, ReqType::Vendor, Recipient::Device), 0x40);
    assert_eq!(request_type(out, ReqType::Reserved, Recipient::Device), 0x60);
    assert_eq!(request_type(out, std, Recipient::Interface), 0x01);
    assert_eq!(request_type(out, std, Recipient::Endpoint), 0x02);
    assert_eq!(request_type(out, std, Recipient::Other), 0x03);
    assert_eq!(request_type(out, std, Recipient::Reserved(0x1f)), 0x1f);
}

#[test]
fn request_type_of_components_together() {
    let t = request_type(TransferDirection::DeviceToHost, ReqType::Class, Recipient::Endpoint);
    assert_eq!(t, 0xa2);
    assert_eq!(t / 128 * 128, 0x80);
    assert_eq!(t % 128 / 32 * 32, 0x20);
    assert_eq!(t % 32, 2);
}

#[test]
fn request_type_that_does_not_fit() {
    let mut req = request(Recipient::Reserved(0xbf), vec![]);
    assert!(req.has_request_type());
    assert_eq!(req.usb_request_type(), 0xff);
    req.recipient = Recipient::Reserved(0xc0);
    assert!(!req.has_request_type());
    req.req_type = ReqType::Standard;
    req.recipient = Recipient::Reserved(0xff);
    assert!(req.has_request_type());
    assert_eq!(req.usb_request_type(), 0xff);
}

#[test]
fn packet_has_setup_then_data() {
    let packet = request(Recipient::Interface, vec![0x09]).packet();
    assert_eq!(packet, vec![0x41, 0x00, 0x01, 0x30, 0x10, 0x02, 0x01, 0x00, 0x09]);
    assert_eq!(packet.len(), SETUP_LEN + 1);
}

#[test]
fn packet_length_is_little_endian() {
    let packet = request(Recipient::Device, vec![7; 0x1234]).packet();
    assert_eq!(&packet[..8], &[0x40, 0x00, 0x01, 0x30, 0x10, 0x02, 0x34, 0x12]);
    assert_eq!(&packet[8..], &vec![7; 0x1234][..]);
}

#[test]
fn largest_packet_is_accepted() {
    let mut dev = DeviceHandle::new(3);
    let claimed = dev
        .interface(0)
        .disconnect_claim(DisconnectOptions::LeaveConnected, Ok(()))
        .unwrap();
    let pipe = claimed.endpoint_control(15);
    assert_eq!(DATA_MAX, 32759);
    let submission = pipe
        .submit_request(&mut dev, request(Recipient::Device, vec![0; DATA_MAX]))
        .ok()
        .unwrap();
    assert_eq!(submission.urb.buffer_length, 32767);
    assert_eq!(submission.urb.buffer.len(), 32767);
    assert_eq!(&submission.urb.buffer[6..8], &[0xf7, 0x7f]);
    assert_eq!(submission.urb.endpoint, 15);
}

#[test]
fn too_much_data_is_invalid() {
    let mut dev = DeviceHandle::new(3);
    let claimed = dev
        .interface(0)
        .disconnect_claim(
            DisconnectOptions::DisconnectIf("x", ReconnectOptions::StayDisconnectedOnRelease),
            Ok(()),
        )
        .unwrap();
    let pipe = claimed.endpoint_control(0);
    let refused = pipe.submit_request(&mut dev, request(Recipient::Device, vec![0; DATA_MAX + 1]));
    assert_eq!(refused.err().unwrap().code, EINVAL);
    // no id was used up
    let accepted = pipe.submit_request(&mut dev, request(Recipient::Device, vec![]));
    assert_eq!(accepted.ok().unwrap().id, 1);
    // a closed device refuses such a request in the same way
    dev.close();
    let refused = pipe.submit_request(&mut dev, request(Recipient::Device, vec![0; DATA_MAX + 1]));
    assert_eq!(refused.err().unwrap().code, EINVAL);
}

#[test]
fn capabilities_are_truncated() {
    assert_eq!(capabilities::CAP_ALL, 0x7f);
    assert_eq!(Capabilities::from_bits_truncate(0xffff_ffff).bits, 0x7f);
    assert_eq!(Capabilities::from_bits_truncate(0x1a5).bits, 0x25);
    let once = Capabilities::from_bits_truncate(0x1e3);
    assert_eq!(once.bits, 0x63);
    assert_eq!(Capabilities::from_bits_truncate(once.bits), once);
    assert_eq!(once.bits & capabilities::CAP_DROP_PRIVILEGES, 0x40);
}
