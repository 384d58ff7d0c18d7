//! Control of a USB device through the Linux USB filesystem (_usbfs_).
//!
//! Every decision that goes into talking to a device is made here, on plain values: which request
//! to hand to the kernel, and what the kernel's reply means. Performing an `ioctl()` or waiting for
//! an event is left to the caller, so a method that goes with an `ioctl()` takes the reply as an
//! argument, and where more than the file descriptor has to be handed over, a method named after it
//! that ends in `_request` says what.

pub mod capabilities;
pub mod completion;
pub mod control;
pub mod device;
pub mod errno;
pub mod interface;
pub mod laws;
pub mod pipe;
pub mod poll;
pub mod reap;
pub mod results;
pub mod text;
pub mod urb;

pub use capabilities::Capabilities;
pub use completion::{Canceled, Completion, CompletionSet, ResponseFuture};
pub use control::{ControlRequest, Recipient, ReqType, TransferDirection, DATA_MAX, SETUP_LEN};
pub use device::{Closing, DeviceHandle, DeviceInner, Fault, Loop, LoopEvent};
pub use errno::{Errno, EAGAIN, EBADF, EINVAL, EIO};
pub use interface::{
    ClaimRequest, ClaimedInterface, DisconnectClaim, DisconnectOptions, Driver, GetDriver,
    ReconnectOptions, Release, UnclaimedInterface, DRIVER_LEN, ENDPOINT_MAX,
};
pub use pipe::{ControlPipe, Submission};
pub use poll::Async;
pub use reap::{Reap, ReapAction, ReapEvent};
pub use urb::{Urb, UrbWrap};
