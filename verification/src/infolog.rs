//! Reading the diagnostic log of a shader or program object.
//!
//! The native layer is asked for the log in three steps: the length of the
//! log is queried, a buffer of that capacity is handed over to be filled, and
//! the count of bytes that the native layer reports as written says how much
//! of the buffer is log text.

use vstd::prelude::*;
use vstd::slice::slice_subrange;
use vstd::utf8::{decode_utf8, valid_utf8};
use crate::resource::{Program, Shader};

verus! {

/// The text that `String::from_utf8_lossy` makes of a byte sequence: the
/// decoded characters, with each malformed stretch replaced by U+FFFD.
pub uninterp spec fn utf8_lossy(bytes: Seq<u8>) -> Seq<char>;

/// Calls `String::from_utf8_lossy` and takes ownership of the result.
/// Trusted: the result is a function of the bytes alone, and on well-formed
/// UTF-8 it is the decoded text unchanged.
#[verifier::external_body]
fn from_utf8_lossy(bytes: &[u8]) -> (text: String)
    ensures
        text@ == utf8_lossy(bytes@),
        valid_utf8(bytes@) ==> text@ == decode_utf8(bytes@),
{
    String::from_utf8_lossy(bytes).into_owned()
}

/// The capacity of the buffer to hand over for a log whose queried length is
/// `length`.
pub fn log_capacity(length: i32) -> (capacity: usize)
    requires
        length >= 0,
    ensures
        capacity == length,
{
    length as usize
}

/// The log text held by a buffer of which the native layer reports the first
/// `written` bytes as written.
pub open spec fn log_text(buffer: Seq<u8>, written: int) -> Seq<char> {
    utf8_lossy(buffer.take(written))
}

/// Reads the log out of the buffer that the native layer filled: the first
/// `written` bytes, decoded leniently.
pub fn read_log(buffer: &[u8], written: i32) -> (text: String)
    requires
        0 <= written <= buffer@.len(),
    ensures
        text@ == log_text(buffer@, written as int),
        valid_utf8(buffer@.take(written as int)) ==> text@ == decode_utf8(
            buffer@.take(written as int),
        ),
{
    let filled = slice_subrange(buffer, 0, written as usize);
    assert(filled@ =~= buffer@.take(written as int));
    from_utf8_lossy(filled)
}

impl Shader {
    /// Reads this shader's compile log out of the buffer that the native
    /// layer filled.
    pub fn get_log(&self, buffer: &[u8], written: i32) -> (text: String)
        requires
            0 <= written <= buffer@.len(),
        ensures
            text@ == log_text(buffer@, written as int),
    {
        read_log(buffer, written)
    }
}

impl Program {
    /// Reads this program's link log out of the buffer that the native layer
    /// filled.
    pub fn get_log(&self, buffer: &[u8], written: i32) -> (text: String)
        requires
            0 <= written <= buffer@.len(),
        ensures
            text@ == log_text(buffer@, written as int),
    {
        read_log(buffer, written)
    }
}

} // verus!
