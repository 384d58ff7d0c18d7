use vstd::prelude::*;

verus! {

/// `EIO`: input/output error
pub const EIO: i32 = 5;

/// `EBADF`: bad file descriptor
pub const EBADF: i32 = 9;

/// `EAGAIN`: try again
pub const EAGAIN: i32 = 11;

/// `EINVAL`: invalid argument
pub const EINVAL: i32 = 22;

/// An operating system error, by its number.
#[derive(Clone, Copy, PartialEq, Eq, Debug, Structural)]
pub struct Errno {
    /// the error number; 0 stands for an error that has no name
    pub code: i32,
}

/// Whether a number above 34 is that of an error that has a name. Lower numbers are the same on every
/// processor, and need no such word.
pub uninterp spec fn has_name(e: i32) -> bool;

/// The number of the error that an integer stands for: itself, or 0 where it is no error's number.
pub open spec fn errno_code(e: i32) -> i32 {
    if 1 <= e <= 34 || (e > 34 && has_name(e)) {
        e
    } else {
        0
    }
}

/// Calls `nix::errno::Errno::from_i32`, and gives the number of the variant that comes back.
///
/// Each variant is numbered by the integer that it is looked up by, apart from `UnknownErrno`, which
/// is numbered 0 and comes back for an integer that is in no row of the table. No error is numbered
/// 0 or less, and the table has every number from 1 to 34. Which greater numbers it has depends on
/// the processor that the code is compiled for, and is only named.
#[verifier::external_body]
fn errno_from_i32(e: i32) -> (code: i32)
    ensures
        code == (if 1 <= e <= 34 || (e > 34 && has_name(e)) {
            e
        } else {
            0
        }),
{
    nix::errno::Errno::from_i32(e) as i32
}

impl Errno {
    /// The error that an integer stands for.
    pub fn from_i32(e: i32) -> (r: Errno)
        ensures
            r.code == errno_code(e),
    {
        Errno { code: errno_from_i32(e) }
    }
}

} // verus!
