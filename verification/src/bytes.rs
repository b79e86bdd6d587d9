//! Signed/unsigned byte reinterpretation.
//!
//! The foreign boundary carries byte buffers as sequences of signed 8-bit
//! values, while the encryption engine works on unsigned bytes. The two
//! representations have the same width, so reinterpretation is a bijection on
//! byte values; it must preserve every byte exactly and is not a numeric
//! conversion.

use vstd::prelude::*;

verus! {

/// The signed 8-bit value whose bit pattern equals that of the byte `b`.
pub open spec fn signed_of_byte(b: u8) -> i8 {
    if b < 128 {
        b as i8
    } else {
        ((b as int) - 256) as i8
    }
}

/// The unsigned byte whose bit pattern equals that of the signed value `v`.
pub open spec fn byte_of_signed(v: i8) -> u8 {
    if v >= 0 {
        v as u8
    } else {
        ((v as int) + 256) as u8
    }
}

/// Reinterpret a signed byte buffer as unsigned bytes, value for value.
pub fn i8_conv(bytes: &[i8]) -> (r: Vec<u8>)
    ensures
        r@.len() == bytes@.len(),
        forall|i: int| 0 <= i < bytes@.len() ==> r@[i] == byte_of_signed(bytes@[i]),
{
    let mut out: Vec<u8> = Vec::new();
    let mut idx: usize = 0;
    while idx < bytes.len()
        invariant
            idx <= bytes@.len(),
            out@.len() == idx,
            forall|i: int| 0 <= i < idx ==> out@[i] == byte_of_signed(bytes@[i]),
        decreases bytes@.len() - idx,
    {
        let v = bytes[idx];
        let b: u8 = if v >= 0 {
            v as u8
        } else {
            ((v as i16) + 256) as u8
        };
        out.push(b);
        idx += 1;
    }
    out
}

/// Reinterpret an unsigned byte buffer as signed bytes, value for value.
pub fn u8_conv(bytes: &[u8]) -> (r: Vec<i8>)
    ensures
        r@.len() == bytes@.len(),
        forall|i: int| 0 <= i < bytes@.len() ==> r@[i] == signed_of_byte(bytes@[i]),
{
    let mut out: Vec<i8> = Vec::new();
    let mut idx: usize = 0;
    while idx < bytes.len()
        invariant
            idx <= bytes@.len(),
            out@.len() == idx,
            forall|i: int| 0 <= i < idx ==> out@[i] == signed_of_byte(bytes@[i]),
        decreases bytes@.len() - idx,
    {
        let b = bytes[idx];
        let v: i8 = if b < 128 {
            b as i8
        } else {
            ((b as i16) - 256) as i8
        };
        out.push(v);
        idx += 1;
    }
    out
}

/// Reinterpretation is lossless: unsigned to signed and back is the identity
/// on every byte value.
pub proof fn lemma_byte_round_trip(b: u8)
    ensures
        byte_of_signed(signed_of_byte(b)) == b,
{
}

/// Reinterpretation is lossless in the other direction as well: signed to
/// unsigned and back is the identity on every signed byte value.
pub proof fn lemma_signed_round_trip(v: i8)
    ensures
        signed_of_byte(byte_of_signed(v)) == v,
{
}

/// A whole buffer of unsigned bytes survives the round trip through its
/// signed reinterpretation unchanged.
pub proof fn lemma_buffer_round_trip(s: Seq<u8>)
    ensures
        s.map_values(|b: u8| signed_of_byte(b)).map_values(|v: i8| byte_of_signed(v)) =~= s,
{
    let mid = s.map_values(|b: u8| signed_of_byte(b));
    let back = mid.map_values(|v: i8| byte_of_signed(v));
    assert forall|i: int| 0 <= i < s.len() implies back[i] == s[i] by {
        lemma_byte_round_trip(s[i]);
    }
}

} // verus!
