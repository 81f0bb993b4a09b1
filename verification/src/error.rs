//! The ways in which a request can fail.

use vstd::prelude::*;

verus! {

/// Why a request was not answered with a response.
#[derive(Clone, Copy, Debug, PartialEq, Eq, Structural)]
pub enum Error {
    /// The key of the request does not end in its one null byte, is not
    /// valid text where a name is asked for, or is not a decimal number
    /// that fits 32 bits, digits and nothing else, where an id is asked for.
    MalformedKey,
    /// The identity database could not be asked; `errno` is the number of
    /// the operating system's error.
    LookupFailure { errno: i32 },
    /// A text field, with its terminating null byte, or the number of the
    /// members of a group, does not fit the signed 32-bit field that
    /// announces it.
    FieldTooLarge,
    /// A text field holds a null byte, which would end it early on the wire.
    InvalidFieldContent,
}

} // verus!
