use vstd::prelude::*;

verus! {

/// The little-endian word made of two bytes.
pub open spec fn word_of(lo: u8, hi: u8) -> u16 {
    (hi as int * 256 + lo as int) as u16
}

/// Joins a low and a high byte into one little-endian word.
pub fn u8s_to_u16(lo: u8, hi: u8) -> (r: u16)
    ensures
        r == word_of(lo, hi),
        r as int == hi as int * 256 + lo as int,
{
    let h: u16 = hi as u16;
    let l: u16 = lo as u16;
    let r: u16 = h << 8u16 | l;
    assert(r == h * 256 + l) by (bit_vector)
        requires
            h < 256,
            l < 256,
            r == h << 8u16 | l,
    ;
    r
}

} // verus!
