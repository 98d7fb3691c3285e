//! Information logs: the buffer a log is read into, and its text.

use vstd::prelude::*;
use vstd::utf8::{decode_utf8, valid_utf8};

verus! {

/// The byte that fills a log buffer before the driver writes to it.
pub const BLANK: u8 = 0x20;

/// The text that a lossy UTF-8 decoder makes of `bytes`.
pub uninterp spec fn lossy_utf8(bytes: Seq<u8>) -> Seq<char>;

/// Calls `String::from_utf8_lossy` and takes ownership of what it returns.
/// The contract claims that the text is a function of the bytes alone, and
/// that bytes which are valid UTF-8 give the text they encode. It says
/// nothing of what stands in the text for bytes that are not.
#[verifier::external_body]
pub(crate) fn from_utf8_lossy(bytes: &Vec<u8>) -> (text: String)
    ensures
        text@ == lossy_utf8(bytes@),
        valid_utf8(bytes@) ==> text@ == decode_utf8(bytes@),
{
    String::from_utf8_lossy(bytes).into_owned()
}

/// The number of bytes asked for when the driver reports a log of
/// `reported` bytes: the reported length, or nothing where it is negative.
pub open spec fn spec_log_capacity(reported: i32) -> i32 {
    if reported < 0 {
        0
    } else {
        reported
    }
}

/// The number of bytes asked for when the driver reports a log of
/// `reported` bytes.
#[verifier::when_used_as_spec(spec_log_capacity)]
pub fn log_capacity(reported: i32) -> (capacity: i32)
    ensures
        capacity == spec_log_capacity(reported),
{
    if reported < 0 {
        0
    } else {
        reported
    }
}

/// `len` blanks.
pub open spec fn blanks(len: nat) -> Seq<u8> {
    Seq::new(len, |i: int| BLANK)
}

/// A buffer of `len` blanks for the driver to write a log into.
pub fn whitespace(len: usize) -> (buffer: Vec<u8>)
    ensures
        buffer@ == blanks(len as nat),
{
    let mut buffer: Vec<u8> = Vec::with_capacity(len);
    let mut filled: usize = 0;
    while filled < len
        invariant
            filled <= len,
            buffer@ == blanks(filled as nat),
        decreases len - filled,
    {
        buffer.push(BLANK);
        filled = filled + 1;
        assert(buffer@ =~= blanks(filled as nat));
    }
    buffer
}

/// The buffer for a log whose length the driver reported as `reported`:
/// that many blanks, none where the length is negative.
pub fn log_buffer(reported: i32) -> (buffer: Vec<u8>)
    ensures
        buffer@ == blanks(spec_log_capacity(reported) as nat),
{
    whitespace(log_capacity(reported) as usize)
}

} // verus!
