use vstd::prelude::*;

verus! {

/// A transfer can end with a packet of length zero
pub const CAP_ZERO_PACKET: u32 = 0x01;

/// A bulk transfer can be split into several
pub const CAP_BULK_CONTINUATION: u32 = 0x02;

/// The length of a bulk transfer has no limit
pub const CAP_NO_PACKET_SIZE_LIM: u32 = 0x04;

/// A bulk transfer can use scattered buffers
pub const CAP_BULK_SCATTER_GATHER: u32 = 0x08;

/// URBs can be reaped after the device was disconnected
pub const CAP_REAP_AFTER_DISCONNECT: u32 = 0x10;

/// Memory for transfers can be mapped
pub const CAP_MMAP: u32 = 0x20;

/// Privileges can be dropped
pub const CAP_DROP_PRIVILEGES: u32 = 0x40;

/// All capabilities together
pub const CAP_ALL: u32 = CAP_ZERO_PACKET | CAP_BULK_CONTINUATION | CAP_NO_PACKET_SIZE_LIM
    | CAP_BULK_SCATTER_GATHER | CAP_REAP_AFTER_DISCONNECT | CAP_MMAP | CAP_DROP_PRIVILEGES;

/// What the kernel can do with a device, as a set of bits.
#[derive(Clone, Copy, PartialEq, Eq, Debug, Structural)]
pub struct Capabilities {
    /// the bits that are set
    pub bits: u32,
}

impl Capabilities {
    /// The capabilities among the bits given; other bits are dropped.
    pub open spec fn truncated(bits: u32) -> Capabilities {
        Capabilities { bits: bits & CAP_ALL }
    }

    /// The capabilities among the bits given; other bits are dropped.
    pub fn from_bits_truncate(bits: u32) -> (r: Capabilities)
        ensures
            r == Capabilities::truncated(bits),
    {
        Capabilities { bits: bits & CAP_ALL }
    }
}

} // verus!
