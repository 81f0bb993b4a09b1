//! Reading the key of a request.
//!
//! A key is what the client sent, untouched. Its text is what stands before
//! the one null byte that ends it. For a lookup by id the text is a decimal
//! number, digits and nothing else; for a lookup by name it is UTF-8.

use vstd::prelude::*;
use vstd::slice::slice_subrange;
use vstd::string::StringSliceAdditionalSpecFns;
use vstd::utf8::valid_utf8;
use crate::error::Error;
use crate::text::{contains_nul, nul_free};

verus! {

/// The text of a key: the bytes before its last one, where the last byte is
/// null and no other is.
pub open spec fn key_text(key: Seq<u8>) -> Option<Seq<u8>> {
    if key.len() > 0 && key.last() == 0 && nul_free(key.drop_last()) {
        Some(key.drop_last())
    } else {
        None
    }
}

/// Whether `byte` is one of the ASCII digits `0` to `9`.
pub open spec fn is_digit(byte: u8) -> bool {
    0x30 <= byte <= 0x39
}

/// Whether every byte of `text` is an ASCII digit.
pub open spec fn all_digits(text: Seq<u8>) -> bool {
    forall|i: int| 0 <= i < text.len() ==> is_digit(#[trigger] text[i])
}

/// How many ASCII digits `text` begins with.
pub open spec fn digit_run(text: Seq<u8>) -> nat
    decreases text.len(),
{
    if text.len() > 0 && is_digit(text[0]) {
        1 + digit_run(text.drop_first())
    } else {
        0
    }
}

/// The number that a sequence of ASCII digits denotes in base ten.
pub open spec fn decimal_value(digits: Seq<u8>) -> nat
    decreases digits.len(),
{
    if digits.len() == 0 {
        0
    } else {
        10 * decimal_value(digits.drop_last()) + (digits.last() - 0x30) as nat
    }
}

/// The number that `text` begins with: the value of its leading digits,
/// where there is at least one and the value fits 32 bits. What follows the
/// digits is not looked at.
pub open spec fn leading_number(text: Seq<u8>) -> Option<u32> {
    let digits = text.take(digit_run(text) as int);
    if digits.len() == 0 || decimal_value(digits) > u32::MAX {
        None
    } else {
        Some(decimal_value(digits) as u32)
    }
}

/// The id that a key asks for: the value of its text, where the text is
/// one digit or more, digits alone, and the value fits 32 bits.
pub open spec fn numeric_key_spec(key: Seq<u8>) -> Result<u32, Error> {
    match key_text(key) {
        Some(text) => if text.len() > 0 && all_digits(text) && decimal_value(text) <= u32::MAX {
            Ok(decimal_value(text) as u32)
        } else {
            Err(Error::MalformedKey)
        },
        None => Err(Error::MalformedKey),
    }
}

/// The name that a key asks for, as its UTF-8 bytes.
pub open spec fn name_key_spec(key: Seq<u8>) -> Result<Seq<u8>, Error> {
    match key_text(key) {
        Some(text) => if valid_utf8(text) {
            Ok(text)
        } else {
            Err(Error::MalformedKey)
        },
        None => Err(Error::MalformedKey),
    }
}

/// `atoi::atoi::<u32>`: the decimal number that `text` begins with. It reads
/// ASCII digits from the start for as long as there are any, takes no sign,
/// and ignores what follows them. It gives nothing where `text` does not
/// begin with a digit, or where the digits denote more than a `u32` holds.
#[verifier::external_body]
fn parse_u32(text: &[u8]) -> (number: Option<u32>)
    ensures
        number == leading_number(text@),
{
    atoi::atoi::<u32>(text)
}

/// `std::str::from_utf8`: `bytes` as a string slice, where they are valid
/// UTF-8, and nothing where they are not.
#[verifier::external_body]
fn utf8_text<'a>(bytes: &'a [u8]) -> (text: Option<&'a str>)
    ensures
        text.is_some() == valid_utf8(bytes@),
        text matches Some(s) ==> s.spec_bytes() == bytes@,
{
    std::str::from_utf8(bytes).ok()
}

/// The text of a key, where it ends in its one null byte.
pub fn terminated_text<'a>(key: &'a [u8]) -> (text: Option<&'a [u8]>)
    ensures
        match text {
            Some(bytes) => key_text(key@) == Some(bytes@),
            None => key_text(key@) is None,
        },
{
    let len = key.len();
    if len == 0 || key[len - 1] != 0 {
        return None;
    }
    let text = slice_subrange(key, 0, len - 1);
    if contains_nul(text) {
        None
    } else {
        Some(text)
    }
}

/// Whether every byte of `text` is an ASCII digit.
pub fn is_decimal(text: &[u8]) -> (decimal: bool)
    ensures
        decimal == all_digits(text@),
{
    let mut i: usize = 0;
    while i < text.len()
        invariant
            i <= text.len(),
            forall|j: int| 0 <= j < i ==> is_digit(#[trigger] text@[j]),
        decreases text.len() - i,
    {
        if text[i] < 0x30 || text[i] > 0x39 {
            return false;
        }
        i += 1;
    }
    true
}

/// The id that a key asks for: the number that its text is.
///
/// Fails with `MalformedKey` where the key does not end in its one null
/// byte, where its text is empty or holds anything but decimal digits, or
/// where the number does not fit 32 bits.
pub fn numeric_key(key: &[u8]) -> (id: Result<u32, Error>)
    ensures
        id == numeric_key_spec(key@),
{
    match terminated_text(key) {
        Some(text) => {
            if !is_decimal(text) {
                return Err(Error::MalformedKey);
            }
            proof {
                lemma_digits_run(text@);
                assert(text@.take(text@.len() as int) =~= text@);
            }
            match parse_u32(text) {
                Some(id) => Ok(id),
                None => Err(Error::MalformedKey),
            }
        },
        None => Err(Error::MalformedKey),
    }
}

/// The name that a key asks for: its text, as a string.
///
/// Fails with `MalformedKey` where the key does not end in its one null
/// byte, or where its text is not UTF-8.
pub fn name_key<'a>(key: &'a [u8]) -> (name: Result<&'a str, Error>)
    ensures
        match name {
            Ok(text) => name_key_spec(key@) == Ok::<Seq<u8>, Error>(text.spec_bytes()),
            Err(error) => name_key_spec(key@) == Err::<Seq<u8>, Error>(error),
        },
{
    match terminated_text(key) {
        Some(bytes) => match utf8_text(bytes) {
            Some(text) => Ok(text),
            None => Err(Error::MalformedKey),
        },
        None => Err(Error::MalformedKey),
    }
}

/// A key that does not end in a null byte asks for no id and no name.
pub proof fn lemma_unterminated_key(key: Seq<u8>)
    requires
        key.len() == 0 || key.last() != 0,
    ensures
        numeric_key_spec(key) == Err::<u32, Error>(Error::MalformedKey),
        name_key_spec(key) == Err::<Seq<u8>, Error>(Error::MalformedKey),
{
}

/// A key whose text is empty, or holds a byte that is no digit, asks for no
/// id: not even where the text begins with digits.
pub proof fn lemma_non_numeric_key(key: Seq<u8>)
    requires
        key.len() <= 1 || !all_digits(key.drop_last()),
    ensures
        numeric_key_spec(key) == Err::<u32, Error>(Error::MalformedKey),
{
}

/// A key whose text denotes a number beyond 32 bits asks for no id: the
/// number is not cut down to fit.
pub proof fn lemma_oversized_id(key: Seq<u8>)
    requires
        key.len() > 0,
        decimal_value(key.drop_last()) > u32::MAX,
    ensures
        numeric_key_spec(key) == Err::<u32, Error>(Error::MalformedKey),
{
}

/// A text of digits alone begins with as many digits as it is long.
proof fn lemma_digits_run(digits: Seq<u8>)
    requires
        all_digits(digits),
    ensures
        digit_run(digits) == digits.len(),
    decreases digits.len(),
{
    if digits.len() > 0 {
        assert(all_digits(digits.drop_first())) by {
            assert forall|i: int| 0 <= i < digits.drop_first().len() implies is_digit(
                #[trigger] digits.drop_first()[i],
            ) by {
                assert(digits.drop_first()[i] == digits[i + 1]);
            }
        }
        lemma_digits_run(digits.drop_first());
    }
}

/// A key that is the decimal digits of an id that fits 32 bits, closed by a
/// null byte, asks for that id.
pub proof fn lemma_decimal_key(digits: Seq<u8>)
    requires
        digits.len() > 0,
        all_digits(digits),
        decimal_value(digits) <= u32::MAX,
    ensures
        numeric_key_spec(digits.push(0u8)) == Ok::<u32, Error>(decimal_value(digits) as u32),
{
    assert(digits.push(0u8).drop_last() =~= digits);
}

/// A key that is a name in UTF-8 without a null byte, closed by a null
/// byte, asks for that name.
pub proof fn lemma_name_key(name: Seq<u8>)
    requires
        nul_free(name),
        valid_utf8(name),
    ensures
        name_key_spec(name.push(0u8)) == Ok::<Seq<u8>, Error>(name),
{
    assert(name.push(0u8).drop_last() =~= name);
}

} // verus!
