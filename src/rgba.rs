use vstd::prelude::*;

use crate::channel::{
    add_byte, byte_difference, byte_gray, byte_product, byte_quotient, byte_sum, div_byte,
    gray_byte, mul_byte, sub_byte,
};
use crate::rgb::RGB;

verus! {

/// A color with red, green, blue and alpha channels.
#[derive(Debug, Default, Copy, Clone, PartialEq, Eq, Hash, PartialOrd, Ord)]
pub struct RGBA<T>(T, T, T, T);

impl<T: Copy> RGBA<T> {
    /// The color with the given channels, as a spec value.
    pub closed spec fn spec_new(r: T, g: T, b: T, a: T) -> RGBA<T> {
        RGBA(r, g, b, a)
    }

    /// The red channel, as a spec value.
    pub closed spec fn red(self) -> T {
        self.0
    }

    /// The green channel, as a spec value.
    pub closed spec fn green(self) -> T {
        self.1
    }

    /// The blue channel, as a spec value.
    pub closed spec fn blue(self) -> T {
        self.2
    }

    /// The alpha channel, as a spec value.
    pub closed spec fn alpha(self) -> T {
        self.3
    }

    /// Creates a color from its four channels.
    pub fn new(r: T, g: T, b: T, a: T) -> (c: RGBA<T>)
        ensures
            c == RGBA::spec_new(r, g, b, a),
            c.red() == r,
            c.green() == g,
            c.blue() == b,
            c.alpha() == a,
    {
        RGBA(r, g, b, a)
    }

    /// Creates a color from a three-channel color and an alpha channel.
    pub fn from_rgb(color: &RGB<T>, a: T) -> (c: RGBA<T>)
        ensures
            c == RGBA::spec_new(color.red(), color.green(), color.blue(), a),
            c.red() == color.red(),
            c.green() == color.green(),
            c.blue() == color.blue(),
            c.alpha() == a,
    {
        RGBA(color.r(), color.g(), color.b(), a)
    }

    /// Gets the red channel.
    pub fn r(&self) -> (v: T)
        ensures
            v == self.red(),
    {
        self.0
    }

    /// Gets the green channel.
    pub fn g(&self) -> (v: T)
        ensures
            v == self.green(),
    {
        self.1
    }

    /// Gets the blue channel.
    pub fn b(&self) -> (v: T)
        ensures
            v == self.blue(),
    {
        self.2
    }

    /// Gets the alpha channel.
    pub fn a(&self) -> (v: T)
        ensures
            v == self.alpha(),
    {
        self.3
    }

    /// The red, green and blue channels, without alpha.
    pub fn rgb(&self) -> (c: RGB<T>)
        ensures
            c == RGB::spec_new(self.red(), self.green(), self.blue()),
            c.red() == self.red(),
            c.green() == self.green(),
            c.blue() == self.blue(),
    {
        RGB::new(self.0, self.1, self.2)
    }
}

impl RGBA<u8> {
    /// The integer that packs the channels as `0xRRGGBBAA`.
    pub open spec fn packed(self) -> int {
        self.red() * 0x1000000 + self.green() * 0x10000 + self.blue() * 0x100 + self.alpha()
    }

    /// The color whose channels are bytes 3, 2, 1 and 0 of `v` (byte 0 the lowest).
    pub closed spec fn unpacked(v: u32) -> RGBA<u8> {
        RGBA(
            (v / 0x1000000 % 0x100) as u8,
            (v / 0x10000 % 0x100) as u8,
            (v / 0x100 % 0x100) as u8,
            (v % 0x100) as u8,
        )
    }

    /// The gray value `(28 r + 151 g + 77 b) / 256`, rounded down; alpha plays no part.
    pub fn to_gray(&self) -> (y: u8)
        ensures
            y == byte_gray(self.red(), self.green(), self.blue()),
    {
        gray_byte(self.0, self.1, self.2)
    }

    /// Packs the channels into an integer as `0xRRGGBBAA`.
    pub fn as_u32(&self) -> (v: u32)
        ensures
            v == self.packed(),
    {
        let (r, g, b, a) = (self.0 as u32, self.1 as u32, self.2 as u32, self.3 as u32);
        assert((r << 24u32) | (g << 16u32) | (b << 8u32) | a == r * 0x1000000 + g * 0x10000 + b
            * 0x100 + a) by (bit_vector)
            requires
                r < 0x100,
                g < 0x100,
                b < 0x100,
                a < 0x100,
        ;
        (r << 24u32) | (g << 16u32) | (b << 8u32) | a
    }
}

/// Conversion of other values into a four-channel color.
pub trait IntoRGBA<T> {
    fn into_rgba(self) -> RGBA<T>;
}

impl<T: Copy> IntoRGBA<T> for (T, T, T, T) {
    fn into_rgba(self) -> (c: RGBA<T>)
        ensures
            c == RGBA::spec_new(self.0, self.1, self.2, self.3),
    {
        RGBA(self.0, self.1, self.2, self.3)
    }
}

impl vstd::std_specs::convert::FromSpecImpl<u32> for RGBA<u8> {
    open spec fn obeys_from_spec() -> bool {
        true
    }

    open spec fn from_spec(v: u32) -> RGBA<u8> {
        RGBA::unpacked(v)
    }
}

impl From<u32> for RGBA<u8> {
    /// Unpacks `0xRRGGBBAA`.
    fn from(v: u32) -> (c: RGBA<u8>)
        ensures
            c == RGBA::unpacked(v),
            c.red() == v / 0x1000000 % 0x100,
            c.green() == v / 0x10000 % 0x100,
            c.blue() == v / 0x100 % 0x100,
            c.alpha() == v % 0x100,
    {
        assert((v & 0xFF000000) >> 24u32 == v / 0x1000000 % 0x100) by (bit_vector);
        assert((v & 0x00FF0000) >> 16u32 == v / 0x10000 % 0x100) by (bit_vector);
        assert((v & 0x0000FF00) >> 8u32 == v / 0x100 % 0x100) by (bit_vector);
        assert(v & 0x000000FF == v % 0x100) by (bit_vector);
        RGBA(
            ((v & 0xFF000000) >> 24u32) as u8,
            ((v & 0x00FF0000) >> 16u32) as u8,
            ((v & 0x0000FF00) >> 8u32) as u8,
            (v & 0x000000FF) as u8,
        )
    }
}

impl vstd::std_specs::convert::FromSpecImpl<RGBA<u8>> for u32 {
    open spec fn obeys_from_spec() -> bool {
        true
    }

    open spec fn from_spec(c: RGBA<u8>) -> u32 {
        c.packed() as u32
    }
}

impl From<RGBA<u8>> for u32 {
    /// Packs the channels as `0xRRGGBBAA`.
    fn from(c: RGBA<u8>) -> (v: u32)
        ensures
            v == c.packed(),
    {
        c.as_u32()
    }
}

impl vstd::std_specs::ops::AddSpecImpl for RGBA<u8> {
    open spec fn obeys_add_spec() -> bool {
        true
    }

    open spec fn add_req(self, rhs: RGBA<u8>) -> bool {
        true
    }

    open spec fn add_spec(self, rhs: RGBA<u8>) -> RGBA<u8> {
        RGBA::spec_new(
            byte_sum(self.red(), rhs.red()) as u8,
            byte_sum(self.green(), rhs.green()) as u8,
            byte_sum(self.blue(), rhs.blue()) as u8,
            self.alpha(),
        )
    }
}

impl core::ops::Add for RGBA<u8> {
    type Output = RGBA<u8>;

    /// Channel-wise sum of the colors, each wrapped modulo 256; alpha is kept from `self`.
    fn add(self, rhs: RGBA<u8>) -> (c: RGBA<u8>)
        ensures
            c.red() == byte_sum(self.red(), rhs.red()),
            c.green() == byte_sum(self.green(), rhs.green()),
            c.blue() == byte_sum(self.blue(), rhs.blue()),
            c.alpha() == self.alpha(),
    {
        RGBA(add_byte(self.0, rhs.0), add_byte(self.1, rhs.1), add_byte(self.2, rhs.2), self.3)
    }
}

impl vstd::std_specs::ops::SubSpecImpl for RGBA<u8> {
    open spec fn obeys_sub_spec() -> bool {
        true
    }

    open spec fn sub_req(self, rhs: RGBA<u8>) -> bool {
        true
    }

    open spec fn sub_spec(self, rhs: RGBA<u8>) -> RGBA<u8> {
        RGBA::spec_new(
            byte_difference(self.red(), rhs.red()) as u8,
            byte_difference(self.green(), rhs.green()) as u8,
            byte_difference(self.blue(), rhs.blue()) as u8,
            self.alpha(),
        )
    }
}

impl core::ops::Sub for RGBA<u8> {
    type Output = RGBA<u8>;

    /// Channel-wise difference of the colors, each wrapped modulo 256; alpha is kept from `self`.
    fn sub(self, rhs: RGBA<u8>) -> (c: RGBA<u8>)
        ensures
            c.red() == byte_difference(self.red(), rhs.red()),
            c.green() == byte_difference(self.green(), rhs.green()),
            c.blue() == byte_difference(self.blue(), rhs.blue()),
            c.alpha() == self.alpha(),
    {
        RGBA(sub_byte(self.0, rhs.0), sub_byte(self.1, rhs.1), sub_byte(self.2, rhs.2), self.3)
    }
}

impl vstd::std_specs::ops::MulSpecImpl for RGBA<u8> {
    open spec fn obeys_mul_spec() -> bool {
        true
    }

    open spec fn mul_req(self, rhs: RGBA<u8>) -> bool {
        true
    }

    open spec fn mul_spec(self, rhs: RGBA<u8>) -> RGBA<u8> {
        RGBA::spec_new(
            byte_product(self.red(), rhs.red()) as u8,
            byte_product(self.green(), rhs.green()) as u8,
            byte_product(self.blue(), rhs.blue()) as u8,
            self.alpha(),
        )
    }
}

impl core::ops::Mul for RGBA<u8> {
    type Output = RGBA<u8>;

    /// Channel-wise product of the colors, each wrapped modulo 256; alpha is kept from `self`.
    fn mul(self, rhs: RGBA<u8>) -> (c: RGBA<u8>)
        ensures
            c.red() == byte_product(self.red(), rhs.red()),
            c.green() == byte_product(self.green(), rhs.green()),
            c.blue() == byte_product(self.blue(), rhs.blue()),
            c.alpha() == self.alpha(),
    {
        RGBA(mul_byte(self.0, rhs.0), mul_byte(self.1, rhs.1), mul_byte(self.2, rhs.2), self.3)
    }
}

impl vstd::std_specs::ops::DivSpecImpl for RGBA<u8> {
    open spec fn obeys_div_spec() -> bool {
        true
    }

    open spec fn div_req(self, rhs: RGBA<u8>) -> bool {
        rhs.red() != 0 && rhs.green() != 0 && rhs.blue() != 0
    }

    open spec fn div_spec(self, rhs: RGBA<u8>) -> RGBA<u8> {
        RGBA::spec_new(
            byte_quotient(self.red(), rhs.red()) as u8,
            byte_quotient(self.green(), rhs.green()) as u8,
            byte_quotient(self.blue(), rhs.blue()) as u8,
            self.alpha(),
        )
    }
}

impl core::ops::Div for RGBA<u8> {
    type Output = RGBA<u8>;

    /// Channel-wise quotient of the colors, rounded down; alpha is kept from `self`.
    /// No color channel of `rhs` may be zero.
    fn div(self, rhs: RGBA<u8>) -> (c: RGBA<u8>)
        ensures
            c.red() == byte_quotient(self.red(), rhs.red()),
            c.green() == byte_quotient(self.green(), rhs.green()),
            c.blue() == byte_quotient(self.blue(), rhs.blue()),
            c.alpha() == self.alpha(),
    {
        RGBA(div_byte(self.0, rhs.0), div_byte(self.1, rhs.1), div_byte(self.2, rhs.2), self.3)
    }
}

/// Unpacking the integer that a color packs into gives the color back.
pub proof fn lemma_unpack_packed(c: RGBA<u8>)
    ensures
        RGBA::unpacked(c.packed() as u32) == c,
{
    let (r, g, b, a) = (c.0 as u32, c.1 as u32, c.2 as u32, c.3 as u32);
    assert({
        let v = r * 0x1000000 + g * 0x10000 + b * 0x100 + a;
        &&& v / 0x1000000 % 0x100 == r
        &&& v / 0x10000 % 0x100 == g
        &&& v / 0x100 % 0x100 == b
        &&& v % 0x100 == a
    }) by (bit_vector)
        requires
            r < 0x100,
            g < 0x100,
            b < 0x100,
            a < 0x100,
    ;
}

/// Packing the color that an integer unpacks into gives the integer back.
pub proof fn lemma_packed_unpacked(v: u32)
    ensures
        RGBA::unpacked(v).packed() == v,
{
    assert((v / 0x1000000 % 0x100) * 0x1000000 + (v / 0x10000 % 0x100) * 0x10000 + (v / 0x100
        % 0x100) * 0x100 + v % 0x100 == v) by (bit_vector);
}

} // verus!
