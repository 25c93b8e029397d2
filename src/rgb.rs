use vstd::prelude::*;

use crate::channel::{
    add_byte, byte_difference, byte_gray, byte_product, byte_quotient, byte_sum, div_byte,
    gray_byte, mul_byte, sub_byte,
};
use crate::rgba::RGBA;

verus! {

/// A color with red, green and blue channels.
#[derive(Debug, Default, Copy, Clone, PartialEq, Eq, Hash, PartialOrd, Ord)]
pub struct RGB<T>(T, T, T);

impl<T: Copy> RGB<T> {
    /// The color with the given channels, as a spec value.
    pub closed spec fn spec_new(r: T, g: T, b: T) -> RGB<T> {
        RGB(r, g, b)
    }

    /// The red channel, as a spec value.
    pub closed spec fn red(self) -> T {
        self.0
    }

    /// The green channel, as a spec value.
    pub closed spec fn green(self) -> T {
        self.1
    }

    /// The blue channel, as a spec value.
    pub closed spec fn blue(self) -> T {
        self.2
    }

    /// Creates a color from its three channels.
    pub fn new(r: T, g: T, b: T) -> (c: RGB<T>)
        ensures
            c == RGB::spec_new(r, g, b),
            c.red() == r,
            c.green() == g,
            c.blue() == b,
    {
        RGB(r, g, b)
    }

    /// Gets the red channel.
    pub fn r(&self) -> (v: T)
        ensures
            v == self.red(),
    {
        self.0
    }

    /// Gets the green channel.
    pub fn g(&self) -> (v: T)
        ensures
            v == self.green(),
    {
        self.1
    }

    /// Gets the blue channel.
    pub fn b(&self) -> (v: T)
        ensures
            v == self.blue(),
    {
        self.2
    }
}

impl RGB<u8> {
    /// The integer that packs the channels as `0x00RRGGBB`.
    pub open spec fn packed(self) -> int {
        self.red() * 0x10000 + self.green() * 0x100 + self.blue()
    }

    /// The color whose channels are bytes 2, 1 and 0 of `v` (byte 0 the lowest);
    /// byte 3 is ignored.
    pub closed spec fn unpacked(v: u32) -> RGB<u8> {
        RGB((v / 0x10000 % 0x100) as u8, (v / 0x100 % 0x100) as u8, (v % 0x100) as u8)
    }

    /// The gray value `(28 r + 151 g + 77 b) / 256`, rounded down.
    pub fn to_gray(&self) -> (y: u8)
        ensures
            y == byte_gray(self.red(), self.green(), self.blue()),
    {
        gray_byte(self.0, self.1, self.2)
    }

    /// Packs the channels into an integer as `0x00RRGGBB`.
    pub fn as_u32(&self) -> (v: u32)
        ensures
            v == self.packed(),
    {
        let (r, g, b) = (self.0 as u32, self.1 as u32, self.2 as u32);
        assert((r << 16u32) | (g << 8u32) | b == r * 0x10000 + g * 0x100 + b) by (bit_vector)
            requires
                r < 0x100,
                g < 0x100,
                b < 0x100,
        ;
        (r << 16u32) | (g << 8u32) | b
    }
}

/// Conversion of other values into a three-channel color.
pub trait IntoRGB<T> {
    fn into_rgb(self) -> RGB<T>;
}

impl<T: Copy> IntoRGB<T> for (T, T, T) {
    fn into_rgb(self) -> (c: RGB<T>)
        ensures
            c == RGB::spec_new(self.0, self.1, self.2),
    {
        RGB(self.0, self.1, self.2)
    }
}

impl vstd::std_specs::convert::FromSpecImpl<u32> for RGB<u8> {
    open spec fn obeys_from_spec() -> bool {
        true
    }

    open spec fn from_spec(v: u32) -> RGB<u8> {
        RGB::unpacked(v)
    }
}

impl From<u32> for RGB<u8> {
    /// Unpacks `0x??RRGGBB`; the highest byte is ignored.
    fn from(v: u32) -> (c: RGB<u8>)
        ensures
            c == RGB::unpacked(v),
            c.red() == v / 0x10000 % 0x100,
            c.green() == v / 0x100 % 0x100,
            c.blue() == v % 0x100,
    {
        assert((v & 0x00FF0000) >> 16u32 == v / 0x10000 % 0x100) by (bit_vector);
        assert((v & 0x0000FF00) >> 8u32 == v / 0x100 % 0x100) by (bit_vector);
        assert(v & 0x000000FF == v % 0x100) by (bit_vector);
        RGB(
            ((v & 0x00FF0000) >> 16u32) as u8,
            ((v & 0x0000FF00) >> 8u32) as u8,
            (v & 0x000000FF) as u8,
        )
    }
}

impl vstd::std_specs::convert::FromSpecImpl<RGB<u8>> for u32 {
    open spec fn obeys_from_spec() -> bool {
        true
    }

    open spec fn from_spec(c: RGB<u8>) -> u32 {
        c.packed() as u32
    }
}

impl From<RGB<u8>> for u32 {
    /// Packs the channels as `0x00RRGGBB`.
    fn from(c: RGB<u8>) -> (v: u32)
        ensures
            v == c.packed(),
    {
        c.as_u32()
    }
}

impl<T: Copy> vstd::std_specs::convert::FromSpecImpl<RGBA<T>> for RGB<T> {
    open spec fn obeys_from_spec() -> bool {
        true
    }

    open spec fn from_spec(c: RGBA<T>) -> RGB<T> {
        RGB::spec_new(c.red(), c.green(), c.blue())
    }
}

impl<T: Copy> From<RGBA<T>> for RGB<T> {
    /// Drops the alpha channel.
    fn from(c: RGBA<T>) -> (d: RGB<T>)
        ensures
            d.red() == c.red(),
            d.green() == c.green(),
            d.blue() == c.blue(),
    {
        RGB(c.r(), c.g(), c.b())
    }
}

impl vstd::std_specs::ops::AddSpecImpl for RGB<u8> {
    open spec fn obeys_add_spec() -> bool {
        true
    }

    open spec fn add_req(self, rhs: RGB<u8>) -> bool {
        true
    }

    open spec fn add_spec(self, rhs: RGB<u8>) -> RGB<u8> {
        RGB::spec_new(
            byte_sum(self.red(), rhs.red()) as u8,
            byte_sum(self.green(), rhs.green()) as u8,
            byte_sum(self.blue(), rhs.blue()) as u8,
        )
    }
}

impl core::ops::Add for RGB<u8> {
    type Output = RGB<u8>;

    /// Channel-wise sum, each channel wrapped modulo 256.
    fn add(self, rhs: RGB<u8>) -> (c: RGB<u8>)
        ensures
            c.red() == byte_sum(self.red(), rhs.red()),
            c.green() == byte_sum(self.green(), rhs.green()),
            c.blue() == byte_sum(self.blue(), rhs.blue()),
    {
        RGB(add_byte(self.0, rhs.0), add_byte(self.1, rhs.1), add_byte(self.2, rhs.2))
    }
}

impl vstd::std_specs::ops::SubSpecImpl for RGB<u8> {
    open spec fn obeys_sub_spec() -> bool {
        true
    }

    open spec fn sub_req(self, rhs: RGB<u8>) -> bool {
        true
    }

    open spec fn sub_spec(self, rhs: RGB<u8>) -> RGB<u8> {
        RGB::spec_new(
            byte_difference(self.red(), rhs.red()) as u8,
            byte_difference(self.green(), rhs.green()) as u8,
            byte_difference(self.blue(), rhs.blue()) as u8,
        )
    }
}

impl core::ops::Sub for RGB<u8> {
    type Output = RGB<u8>;

    /// Channel-wise difference, each channel wrapped modulo 256.
    fn sub(self, rhs: RGB<u8>) -> (c: RGB<u8>)
        ensures
            c.red() == byte_difference(self.red(), rhs.red()),
            c.green() == byte_difference(self.green(), rhs.green()),
            c.blue() == byte_difference(self.blue(), rhs.blue()),
    {
        RGB(sub_byte(self.0, rhs.0), sub_byte(self.1, rhs.1), sub_byte(self.2, rhs.2))
    }
}

impl vstd::std_specs::ops::MulSpecImpl for RGB<u8> {
    open spec fn obeys_mul_spec() -> bool {
        true
    }

    open spec fn mul_req(self, rhs: RGB<u8>) -> bool {
        true
    }

    open spec fn mul_spec(self, rhs: RGB<u8>) -> RGB<u8> {
        RGB::spec_new(
            byte_product(self.red(), rhs.red()) as u8,
            byte_product(self.green(), rhs.green()) as u8,
            byte_product(self.blue(), rhs.blue()) as u8,
        )
    }
}

impl core::ops::Mul for RGB<u8> {
    type Output = RGB<u8>;

    /// Channel-wise product, each channel wrapped modulo 256.
    fn mul(self, rhs: RGB<u8>) -> (c: RGB<u8>)
        ensures
            c.red() == byte_product(self.red(), rhs.red()),
            c.green() == byte_product(self.green(), rhs.green()),
            c.blue() == byte_product(self.blue(), rhs.blue()),
    {
        RGB(mul_byte(self.0, rhs.0), mul_byte(self.1, rhs.1), mul_byte(self.2, rhs.2))
    }
}

impl vstd::std_specs::ops::DivSpecImpl for RGB<u8> {
    open spec fn obeys_div_spec() -> bool {
        true
    }

    open spec fn div_req(self, rhs: RGB<u8>) -> bool {
        rhs.red() != 0 && rhs.green() != 0 && rhs.blue() != 0
    }

    open spec fn div_spec(self, rhs: RGB<u8>) -> RGB<u8> {
        RGB::spec_new(
            byte_quotient(self.red(), rhs.red()) as u8,
            byte_quotient(self.green(), rhs.green()) as u8,
            byte_quotient(self.blue(), rhs.blue()) as u8,
        )
    }
}

impl core::ops::Div for RGB<u8> {
    type Output = RGB<u8>;

    /// Channel-wise quotient, rounded down; no channel of `rhs` may be zero.
    fn div(self, rhs: RGB<u8>) -> (c: RGB<u8>)
        ensures
            c.red() == byte_quotient(self.red(), rhs.red()),
            c.green() == byte_quotient(self.green(), rhs.green()),
            c.blue() == byte_quotient(self.blue(), rhs.blue()),
    {
        RGB(div_byte(self.0, rhs.0), div_byte(self.1, rhs.1), div_byte(self.2, rhs.2))
    }
}

/// Unpacking the integer that a color packs into gives the color back.
pub proof fn lemma_unpack_packed(c: RGB<u8>)
    ensures
        RGB::unpacked(c.packed() as u32) == c,
{
    let (r, g, b) = (c.0 as u32, c.1 as u32, c.2 as u32);
    assert({
        let v = r * 0x10000 + g * 0x100 + b;
        &&& v / 0x10000 % 0x100 == r
        &&& v / 0x100 % 0x100 == g
        &&& v % 0x100 == b
    }) by (bit_vector)
        requires
            r < 0x100,
            g < 0x100,
            b < 0x100,
    ;
}

/// Packing the color that an integer unpacks into gives back its three
/// lowest bytes.
pub proof fn lemma_packed_unpacked(v: u32)
    ensures
        RGB::unpacked(v).packed() == v % 0x1000000,
{
    assert((v / 0x10000 % 0x100) * 0x10000 + (v / 0x100 % 0x100) * 0x100 + v % 0x100 == v
        % 0x1000000) by (bit_vector);
}

} // verus!
