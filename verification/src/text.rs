//! Text fields: how they stand on the wire, and what keeps one off it.

use vstd::prelude::*;
use crate::error::Error;

verus! {

/// A text field as it stands on the wire: its bytes, then one null byte.
pub open spec fn c_string(text: Seq<u8>) -> Seq<u8> {
    text.push(0u8)
}

/// No byte of `text` is null.
pub open spec fn nul_free(text: Seq<u8>) -> bool {
    forall|i: int| 0 <= i < text.len() ==> text[i] != 0
}

/// The length of `text` with its terminating null byte fits a signed 32-bit
/// length field.
pub open spec fn len_fits(text: Seq<u8>) -> bool {
    text.len() + 1 <= i32::MAX
}

/// The length that announces `text` in a header: its bytes and the
/// terminating null byte.
pub open spec fn wire_len(text: Seq<u8>) -> i32 {
    (text.len() + 1) as i32
}

/// Whether `text` holds a null byte.
pub fn contains_nul(text: &[u8]) -> (found: bool)
    ensures
        found == !nul_free(text@),
{
    let mut i: usize = 0;
    while i < text.len()
        invariant
            i <= text.len(),
            nul_free(text@.take(i as int)),
        decreases text.len() - i,
    {
        if text[i] == 0 {
            return true;
        }
        i += 1;
    }
    assert(text@.take(i as int) =~= text@);
    false
}

/// The length that announces a text of `len` bytes: one more, for the
/// terminating null byte, if that fits a signed 32-bit integer.
pub fn wire_length(len: usize) -> (length: Result<i32, Error>)
    ensures
        len + 1 <= i32::MAX ==> length == Ok::<i32, Error>((len + 1) as i32),
        len + 1 > i32::MAX ==> length == Err::<i32, Error>(Error::FieldTooLarge),
{
    if len < 0x7fff_ffff {
        Ok((len + 1) as i32)
    } else {
        Err(Error::FieldTooLarge)
    }
}

/// Appends `text` and the null byte that closes it.
pub fn put_c_string(out: &mut Vec<u8>, text: &[u8])
    ensures
        final(out)@ == old(out)@ + c_string(text@),
{
    out.extend_from_slice(text);
    out.push(0);
}

} // verus!
