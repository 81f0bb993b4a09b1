//! Fixed-width integers on the wire.
//!
//! Every integer of a response is four bytes wide and stands in the byte
//! order of the machine that answers. The order is a parameter here, so that
//! the layout is stated, and proved, for both.

use vstd::prelude::*;

verus! {

/// The order in which the bytes of an integer follow one another.
#[derive(Clone, Copy, Debug, PartialEq, Eq, Structural)]
pub enum ByteOrder {
    /// Least significant byte first.
    Little,
    /// Most significant byte first.
    Big,
}

/// The four bytes of `value` in the given order.
#[verifier::opaque]
pub open spec fn u32_bytes(order: ByteOrder, value: u32) -> Seq<u8> {
    let b0 = (value % 256) as u8;
    let b1 = (value / 256 % 256) as u8;
    let b2 = (value / 65536 % 256) as u8;
    let b3 = (value / 16777216) as u8;
    match order {
        ByteOrder::Little => seq![b0, b1, b2, b3],
        ByteOrder::Big => seq![b3, b2, b1, b0],
    }
}

/// The unsigned integer with the same 32 bits as `value` in two's complement.
pub open spec fn i32_bits(value: i32) -> u32 {
    if value >= 0 {
        value as u32
    } else {
        (value + 0x1_0000_0000) as u32
    }
}

/// The four bytes of `value`, in two's complement, in the given order.
pub open spec fn i32_bytes(order: ByteOrder, value: i32) -> Seq<u8> {
    u32_bytes(order, i32_bits(value))
}

/// The unsigned integer that the first four bytes of `bytes` hold in the
/// given order.
#[verifier::opaque]
pub open spec fn u32_from_bytes(order: ByteOrder, bytes: Seq<u8>) -> u32
    recommends
        bytes.len() >= 4,
{
    match order {
        ByteOrder::Little => (bytes[0] + 256 * bytes[1] + 65536 * bytes[2] + 16777216
            * bytes[3]) as u32,
        ByteOrder::Big => (bytes[3] + 256 * bytes[2] + 65536 * bytes[1] + 16777216
            * bytes[0]) as u32,
    }
}

/// The signed integer whose two's complement the first four bytes of `bytes`
/// hold in the given order.
pub open spec fn i32_from_bytes(order: ByteOrder, bytes: Seq<u8>) -> i32
    recommends
        bytes.len() >= 4,
{
    let bits = u32_from_bytes(order, bytes);
    if bits <= i32::MAX {
        bits as i32
    } else {
        (bits - 0x1_0000_0000) as i32
    }
}

/// Reading back what `u32_bytes` wrote gives the value again, whatever
/// follows the four bytes.
pub proof fn lemma_u32_round_trip(order: ByteOrder, value: u32, rest: Seq<u8>)
    ensures
        u32_bytes(order, value).len() == 4,
        u32_from_bytes(order, u32_bytes(order, value) + rest) == value,
{
    reveal(u32_bytes);
    reveal(u32_from_bytes);
    let bytes = u32_bytes(order, value) + rest;
}

/// Reading back what `i32_bytes` wrote gives the value again, whatever
/// follows the four bytes.
pub proof fn lemma_i32_round_trip(order: ByteOrder, value: i32, rest: Seq<u8>)
    ensures
        i32_bytes(order, value).len() == 4,
        i32_from_bytes(order, i32_bytes(order, value) + rest) == value,
{
    lemma_u32_round_trip(order, i32_bits(value), rest);
}

/// Zero is four zero bytes in either order.
pub proof fn lemma_zero_bytes(order: ByteOrder)
    ensures
        u32_bytes(order, 0) == seq![0u8, 0u8, 0u8, 0u8],
        i32_bytes(order, 0) == seq![0u8, 0u8, 0u8, 0u8],
{
    reveal(u32_bytes);
}

/// `u32::to_ne_bytes`: the four bytes of `value` as they lie in the memory
/// of this machine, which is in one of the two byte orders.
#[verifier::external_body]
fn native_bytes(value: u32) -> (bytes: [u8; 4])
    ensures
        bytes@ == u32_bytes(ByteOrder::Little, value) || bytes@ == u32_bytes(
            ByteOrder::Big,
            value,
        ),
{
    value.to_ne_bytes()
}

/// The byte order of the machine that runs this: the one in which it lays
/// the number one out. Which of the two it is, is for the machine to say.
pub fn native_order() -> ByteOrder {
    order_of_probe(native_bytes(1))
}

/// The byte order that a layout of the number one shows: least significant
/// byte first where the one stands in the first byte, most significant byte
/// first where it does not.
pub open spec fn probe_order(probe: Seq<u8>) -> ByteOrder {
    if probe[0] == 1 {
        ByteOrder::Little
    } else {
        ByteOrder::Big
    }
}

/// The byte order in which `probe` lays the number one out. Where `probe`
/// is the number one in one of the two orders, it is that order.
pub fn order_of_probe(probe: [u8; 4]) -> (order: ByteOrder)
    ensures
        order == probe_order(probe@),
        probe@ == u32_bytes(ByteOrder::Little, 1) ==> order == ByteOrder::Little,
        probe@ == u32_bytes(ByteOrder::Big, 1) ==> order == ByteOrder::Big,
{
    proof {
        reveal(u32_bytes);
    }
    if probe[0] == 1 {
        ByteOrder::Little
    } else {
        ByteOrder::Big
    }
}

/// Appends the four bytes of `value` in the given order.
pub fn put_u32(out: &mut Vec<u8>, order: ByteOrder, value: u32)
    ensures
        final(out)@ == old(out)@ + u32_bytes(order, value),
{
    proof {
        reveal(u32_bytes);
    }
    let b0: u8 = (value % 256) as u8;
    let b1: u8 = (value / 256 % 256) as u8;
    let b2: u8 = (value / 65536 % 256) as u8;
    let b3: u8 = (value / 16777216) as u8;
    match order {
        ByteOrder::Little => {
            out.push(b0);
            out.push(b1);
            out.push(b2);
            out.push(b3);
        },
        ByteOrder::Big => {
            out.push(b3);
            out.push(b2);
            out.push(b1);
            out.push(b0);
        },
    }
}

/// Appends the four bytes of `value`, in two's complement, in the given
/// order.
pub fn put_i32(out: &mut Vec<u8>, order: ByteOrder, value: i32)
    ensures
        final(out)@ == old(out)@ + i32_bytes(order, value),
{
    let bits: u32 = if value >= 0 {
        value as u32
    } else {
        (value as i64 + 0x1_0000_0000) as u32
    };
    put_u32(out, order, bits);
}

} // verus!
