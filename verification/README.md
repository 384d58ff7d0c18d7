# usbfs_device

Access to USB devices through the Linux
[USB Filesystem](https://kernel.readthedocs.io/en/sphinx-samples/usb.html#the-usb-filesystem-usbfs),
with the decisions verified by [Verus](https://github.com/verus-lang/verus).

 - `src/` is the verified library. It makes control requests into URBs, keeps track of which URBs are
   awaited and by whom, forms the requests that claim and release interfaces, and says what the
   kernel's replies mean. It works on plain values: it never calls the kernel. `src/laws.rs` states
   what holds of the library as a whole.
 - `app/` is the interface for programs. It opens the device, performs the `ioctl()`s, and runs the
   futures (version 0.1) on a `tokio` event loop.
 - `tests/` runs the library against replies such as the kernel gives.

So far only control transfers are supported.
