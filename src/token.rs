use vstd::prelude::*;

use crate::sys::{IORING_ZCRX_AREA_MASK, IORING_ZCRX_OFFSET_MASK};

verus! {

/// The byte offset carried by an offset field: its low 48 bits.
pub open spec fn offset_of(off: u64) -> u64 {
    off & 0x0000_ffff_ffff_ffff
}

/// The area token carried by an offset field: its bits from 48 up.
pub open spec fn token_of(off: u64) -> u64 {
    off & 0xffff_0000_0000_0000
}

/// An area token has nothing in the bits that carry the offset.
pub open spec fn is_area_token(t: u64) -> bool {
    t & 0x0000_ffff_ffff_ffff == 0
}

/// A byte offset fits below the area token.
pub open spec fn is_buffer_offset(o: u64) -> bool {
    o < 0x1_0000_0000_0000
}

/// Splits `off` at bit 48 and returns its byte offset.
pub fn buffer_offset(off: u64) -> (r: u64)
    ensures
        r == offset_of(off),
        is_buffer_offset(r),
{
    let r = off & IORING_ZCRX_OFFSET_MASK;
    assert(off & 0x0000_ffff_ffff_ffff < 0x1_0000_0000_0000) by (bit_vector);
    r
}

/// Splits `off` at bit 48 and returns its area token.
pub fn area_token(off: u64) -> (r: u64)
    ensures
        r == token_of(off),
        is_area_token(r),
{
    let r = off & IORING_ZCRX_AREA_MASK;
    assert((off & 0xffff_0000_0000_0000) & 0x0000_ffff_ffff_ffff == 0) by (bit_vector);
    r
}

/// Joins a byte offset and an area token into one offset field.
pub fn encode(offset: u64, token: u64) -> (r: u64)
    ensures
        r == offset | token,
{
    offset | token
}

/// Decoding an offset field built from a byte offset below 2^48 and an area
/// token gives back exactly that offset and that token.
pub proof fn lemma_offset_round_trip(offset: u64, token: u64)
    requires
        is_buffer_offset(offset),
        is_area_token(token),
    ensures
        offset_of(offset | token) == offset,
        token_of(offset | token) == token,
{
    assert(offset < 0x1_0000_0000_0000 && token & 0x0000_ffff_ffff_ffff == 0 ==> (offset | token)
        & 0x0000_ffff_ffff_ffff == offset) by (bit_vector);
    assert(offset < 0x1_0000_0000_0000 && token & 0x0000_ffff_ffff_ffff == 0 ==> (offset | token)
        & 0xffff_0000_0000_0000 == token) by (bit_vector);
}

} // verus!
