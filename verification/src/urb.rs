use vstd::prelude::*;
use vstd::string::StringExecFns;

use crate::completion::Completion;
use crate::errno::Errno;
use crate::text::{append_decimal, append_hexadecimal};

verus! {

/// A USB Request Block: a request for the kernel to carry out, and in the end its outcome.
pub struct Urb {
    /// the kind of transfer
    pub type_: u8,
    /// number and direction of the endpoint
    pub endpoint: u8,
    /// 0, or what went wrong
    pub status: i32,
    /// flags
    pub flags: u32,
    /// the bytes to transfer
    pub buffer: Vec<u8>,
    /// length of `buffer`
    pub buffer_length: i32,
    /// the number of bytes that were transferred
    pub actual_length: i32,
    /// first frame, of an isochronous transfer
    pub start_frame: i32,
    /// number of packets, of an isochronous transfer
    pub number_of_packets: i32,
    /// number of errors, of an isochronous transfer
    pub error_count: i32,
    /// the signal to send on completion, 0 for none
    pub signr: u32,
    /// the id that the URB was submitted under
    pub usercontext: usize,
}

/// Wrapper around a URB result value
pub struct UrbWrap {
    /// the URB as it came back
    pub urb: Urb,
}

impl UrbWrap {
    /// The id under which the URB was submitted.
    pub open spec fn spec_id(self) -> usize {
        self.urb.usercontext
    }

    /// The outcome that the URB stands for: itself, or the error that its status names.
    pub open spec fn completion(self) -> Completion {
        if self.urb.status == 0 {
            Ok(self)
        } else {
            Err(Errno { code: crate::errno::errno_code(self.urb.status) })
        }
    }

    /// The text that describes the URB.
    pub open spec fn description(self) -> Seq<char> {
        let urb = self.urb;
        "Urb { type: "@ + crate::text::decimal(urb.type_ as int)
            + ", endpoint: "@ + crate::text::decimal(urb.endpoint as int)
            + ", status: "@ + crate::text::decimal(urb.status as int)
            + ", flags: "@ + crate::text::decimal(urb.flags as int)
            + ", error_count: "@ + crate::text::decimal(urb.error_count as int)
            + ", signr: "@ + crate::text::decimal(urb.signr as int)
            + ", usercontext: "@ + crate::text::hexadecimal(urb.usercontext as nat)
            + ", buffer_length: "@ + crate::text::decimal(urb.buffer_length as int)
            + " }"@
    }

    /// A text that describes the URB, for people.
    pub fn describe(&self) -> (r: String)
        ensures
            r@ == self.description(),
    {
        let mut text: String = String::new();
        append_decimal(&mut text, "Urb { type: ", self.urb.type_ as i64);
        append_decimal(&mut text, ", endpoint: ", self.urb.endpoint as i64);
        append_decimal(&mut text, ", status: ", self.urb.status as i64);
        append_decimal(&mut text, ", flags: ", self.urb.flags as i64);
        append_decimal(&mut text, ", error_count: ", self.urb.error_count as i64);
        append_decimal(&mut text, ", signr: ", self.urb.signr as i64);
        append_hexadecimal(&mut text, ", usercontext: ", self.urb.usercontext as u64);
        append_decimal(&mut text, ", buffer_length: ", self.urb.buffer_length as i64);
        text.append(" }");
        assert(text@ =~= self.description());
        text
    }

    /// The `usercontext` id assigned to this URB when it was submitted.
    pub fn id(&self) -> (r: usize)
        ensures
            r == self.spec_id(),
    {
        self.urb.usercontext
    }

    /// The data buffer to which the URB refers, as far as it was transferred.
    pub fn data(&self) -> (r: &[u8])
        requires
            0 <= self.urb.actual_length <= self.urb.buffer@.len(),
        ensures
            r@ == self.urb.buffer@.take(self.urb.actual_length as int),
    {
        vstd::slice::slice_subrange(self.urb.buffer.as_slice(), 0, self.urb.actual_length as usize)
    }

    /// The outcome that the URB stands for, where `errno` is the error that its status names.
    pub fn completed(self, errno: Errno) -> (r: Completion)
        ensures
            r == (if self.urb.status == 0 {
                Ok(self)
            } else {
                Err(errno)
            }),
    {
        if self.urb.status == 0 {
            Ok(self)
        } else {
            Err(errno)
        }
    }

    /// The outcome that the URB stands for.
    pub fn into_completion(self) -> (r: Completion)
        ensures
            r == self.completion(),
    {
        let errno = Errno::from_i32(self.urb.status);
        self.completed(errno)
    }
}

} // verus!
