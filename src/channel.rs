//! Arithmetic on one byte channel: sums, differences and products wrap
//! modulo 256, quotients round down.
use vstd::prelude::*;

verus! {

/// `a + b`, wrapped into a byte.
pub open spec fn byte_sum(a: u8, b: u8) -> int {
    (a + b) % 256
}

/// `a - b`, wrapped into a byte.
pub open spec fn byte_difference(a: u8, b: u8) -> int {
    (a - b) % 256
}

/// `a * b`, wrapped into a byte.
pub open spec fn byte_product(a: u8, b: u8) -> int {
    (a * b) % 256
}

/// `a / b`, rounded down.
pub open spec fn byte_quotient(a: u8, b: u8) -> int
    recommends
        b != 0,
{
    a as int / b as int
}

/// The integer gray value of a red, green and blue channel:
/// `(28 r + 151 g + 77 b) / 256`, rounded down.
pub open spec fn byte_gray(r: u8, g: u8, b: u8) -> int {
    (r * 28 + g * 151 + b * 77) / 256
}

proof fn lemma_truncate_u32(x: u32)
    ensures
        (x as u8) as int == x as int % 256,
{
    assert((x as u8) as u32 == x % 256) by (bit_vector);
}

pub(crate) fn add_byte(a: u8, b: u8) -> (r: u8)
    ensures
        r == byte_sum(a, b),
{
    let wide: u32 = a as u32 + b as u32;
    proof {
        lemma_truncate_u32(wide);
    }
    #[verifier::truncate]
    (wide as u8)
}

pub(crate) fn sub_byte(a: u8, b: u8) -> (r: u8)
    ensures
        r == byte_difference(a, b),
{
    let wide: u32 = a as u32 + 256 - b as u32;
    proof {
        lemma_truncate_u32(wide);
        assert((a + 256 - b) % 256 == (a - b) % 256);
    }
    #[verifier::truncate]
    (wide as u8)
}

pub(crate) fn mul_byte(a: u8, b: u8) -> (r: u8)
    ensures
        r == byte_product(a, b),
{
    assert(a as u32 * b as u32 <= 255 * 255) by (nonlinear_arith)
        requires
            a <= 255,
            b <= 255,
    ;
    let wide: u32 = a as u32 * b as u32;
    proof {
        lemma_truncate_u32(wide);
    }
    #[verifier::truncate]
    (wide as u8)
}

pub(crate) fn div_byte(a: u8, b: u8) -> (r: u8)
    requires
        b != 0,
    ensures
        r == byte_quotient(a, b),
{
    a / b
}

pub(crate) fn gray_byte(r: u8, g: u8, b: u8) -> (y: u8)
    ensures
        y == byte_gray(r, g, b),
{
    let weighted: u32 = (r as u32) * 28 + (g as u32) * 151 + (b as u32) * 77;
    assert(weighted >> 8u32 == weighted / 256) by (bit_vector);
    (weighted >> 8u32) as u8
}

} // verus!
