//! Bit-level arithmetic on 32-bit register words: reading and writing a
//! 2-bit or 4-bit field at a given bit offset, and setting or reading a
//! single bit. Every register update in this crate is a read-modify-write
//! expressed through these functions, so the laws proved here (a written
//! field reads back exactly, disjoint fields are untouched) carry over to
//! every peripheral operation.

use vstd::prelude::*;

verus! {

/// The mask covering the 2-bit field at bit offset `off`.
pub open spec fn mask2(off: u32) -> u32 {
    0b11u32 << off
}

/// The value of the 2-bit field at bit offset `off` of register word `r`.
pub open spec fn get_field2(r: u32, off: u32) -> u32 {
    (r >> off) & 0b11u32
}

/// Register word `r` with the 2-bit field at bit offset `off` replaced by
/// `v`, all other bits unchanged: `(r & !mask) | ((v << off) & mask)`.
pub open spec fn set_field2(r: u32, off: u32, v: u32) -> u32 {
    (r & !mask2(off)) | ((v << off) & mask2(off))
}

/// The mask covering the 4-bit field at bit offset `off`.
pub open spec fn mask4(off: u32) -> u32 {
    0b1111u32 << off
}

/// The value of the 4-bit field at bit offset `off` of register word `r`.
pub open spec fn get_field4(r: u32, off: u32) -> u32 {
    (r >> off) & 0b1111u32
}

/// Register word `r` with the 4-bit field at bit offset `off` replaced by
/// `v`, all other bits unchanged.
pub open spec fn set_field4(r: u32, off: u32, v: u32) -> u32 {
    (r & !mask4(off)) | ((v << off) & mask4(off))
}

/// Whether bit `b` of register word `r` is set.
pub open spec fn get_bit(r: u32, b: u32) -> bool {
    (r >> b) & 1u32 == 1u32
}

/// Register word `r` with bit `b` set, all other bits unchanged.
pub open spec fn set_bit(r: u32, b: u32) -> u32 {
    r | (1u32 << b)
}

/// Writing a 2-bit field and reading it back at the same offset yields
/// exactly the written value.
pub proof fn lemma_field2_read_back(r: u32, off: u32, v: u32)
    requires
        off <= 30,
        v <= 0b11,
    ensures
        get_field2(set_field2(r, off, v), off) == v,
{
    assert(get_field2(set_field2(r, off, v), off) == v) by (bit_vector)
        requires
            off <= 30,
            v <= 0b11,
    ;
}

/// Writing a 2-bit field leaves every other 2-bit field (at a distinct
/// even offset) bit-for-bit unchanged.
pub proof fn lemma_field2_frame(r: u32, off: u32, other: u32, v: u32)
    requires
        off <= 30,
        other <= 30,
        off % 2 == 0,
        other % 2 == 0,
        other != off,
        v <= 0b11,
    ensures
        get_field2(set_field2(r, off, v), other) == get_field2(r, other),
{
    assert(get_field2(set_field2(r, off, v), other) == get_field2(r, other)) by (bit_vector)
        requires
            off <= 30,
            other <= 30,
            off % 2 == 0,
            other % 2 == 0,
            other != off,
            v <= 0b11,
    ;
}

/// Writing the same value into the same 2-bit field twice gives the same
/// register word as writing it once.
pub proof fn lemma_field2_idempotent(r: u32, off: u32, v: u32)
    requires
        off <= 30,
        v <= 0b11,
    ensures
        set_field2(set_field2(r, off, v), off, v) == set_field2(r, off, v),
{
    assert(set_field2(set_field2(r, off, v), off, v) == set_field2(r, off, v)) by (bit_vector)
        requires
            off <= 30,
            v <= 0b11,
    ;
}

/// Writing a 4-bit field and reading it back at the same offset yields
/// exactly the written value.
pub proof fn lemma_field4_read_back(r: u32, off: u32, v: u32)
    requires
        off <= 28,
        v <= 0b1111,
    ensures
        get_field4(set_field4(r, off, v), off) == v,
{
    assert(get_field4(set_field4(r, off, v), off) == v) by (bit_vector)
        requires
            off <= 28,
            v <= 0b1111,
    ;
}

/// Writing a 4-bit field leaves every other 4-bit field (at a distinct
/// offset that is a multiple of four) bit-for-bit unchanged.
pub proof fn lemma_field4_frame(r: u32, off: u32, other: u32, v: u32)
    requires
        off <= 28,
        other <= 28,
        off % 4 == 0,
        other % 4 == 0,
        other != off,
        v <= 0b1111,
    ensures
        get_field4(set_field4(r, off, v), other) == get_field4(r, other),
{
    assert(get_field4(set_field4(r, off, v), other) == get_field4(r, other)) by (bit_vector)
        requires
            off <= 28,
            other <= 28,
            off % 4 == 0,
            other % 4 == 0,
            other != off,
            v <= 0b1111,
    ;
}

/// After setting bit `b`, bit `b` reads back as set.
pub proof fn lemma_bit_read_back(r: u32, b: u32)
    requires
        b < 32,
    ensures
        get_bit(set_bit(r, b), b),
{
    assert(get_bit(set_bit(r, b), b)) by (bit_vector)
        requires
            b < 32,
    ;
}

/// Setting bit `b` leaves every other bit of the register word unchanged.
pub proof fn lemma_bit_frame(r: u32, b: u32, other: u32)
    requires
        b < 32,
        other < 32,
        other != b,
    ensures
        get_bit(set_bit(r, b), other) == get_bit(r, other),
{
    assert(get_bit(set_bit(r, b), other) == get_bit(r, other)) by (bit_vector)
        requires
            b < 32,
            other < 32,
            other != b,
    ;
}

} // verus!
