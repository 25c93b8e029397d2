//! Blend modes: each combines a source color (`self`) with a destination
//! color (`rhs`) of the same type.
use vstd::prelude::*;

verus! {

/// Clear: every channel of the result is zero.
pub trait Clear {
    type Output;

    fn clear(self, rhs: Self) -> Self::Output;
}

/// Source: the result is `self`.
pub trait Src {
    type Output;

    fn src(self, rhs: Self) -> Self::Output;
}

/// Destination: the result is `rhs`.
pub trait Dst {
    type Output;

    fn dst(self, rhs: Self) -> Self::Output;
}

/// Source over: `src + dst * (1 - src.alpha)`.
pub trait SrcOver {
    type Output;

    fn src_over(self, rhs: Self) -> Self::Output;
}

/// Destination over: `src * (1 - dst.alpha) + dst`.
pub trait DstOver {
    type Output;

    fn dst_over(self, rhs: Self) -> Self::Output;
}

/// Source in: `src * dst.alpha`.
pub trait SrcIn {
    type Output;

    fn src_in(self, rhs: Self) -> Self::Output;
}

/// Destination in: `dst * src.alpha`.
pub trait DstIn {
    type Output;

    fn dst_in(self, rhs: Self) -> Self::Output;
}

/// Source out: `src * (1 - dst.alpha)`.
pub trait SrcOut {
    type Output;

    fn src_out(self, rhs: Self) -> Self::Output;
}

/// Destination out: `dst * (1 - src.alpha)`.
pub trait DstOut {
    type Output;

    fn dst_out(self, rhs: Self) -> Self::Output;
}

/// Source atop: `src * dst.alpha + dst * (1 - src.alpha)`.
pub trait SrcATop {
    type Output;

    fn src_atop(self, rhs: Self) -> Self::Output;
}

/// Destination atop: `src * (1 - dst.alpha) + dst * src.alpha`.
pub trait DstATop {
    type Output;

    fn dst_atop(self, rhs: Self) -> Self::Output;
}

/// Xor: `src * (1 - dst.alpha) + dst * (1 - src.alpha)`.
pub trait Xor {
    type Output;

    fn xor(self, rhs: Self) -> Self::Output;
}

/// Darken: whichever of `src` and `dst` has the lower gray value; `dst` on a tie.
pub trait Darken {
    type Output;

    fn darken(self, rhs: Self) -> Self::Output;
}

/// Lighten: whichever of `src` and `dst` has the higher gray value; `dst` on a tie.
pub trait Lighten {
    type Output;

    fn lighten(self, rhs: Self) -> Self::Output;
}

/// Multiply: `src * dst`, channel by channel.
pub trait Multiply {
    type Output;

    fn multiply(self, rhs: Self) -> Self::Output;
}

/// Screen: `1 - (1 - src) * (1 - dst)`, channel by channel.
pub trait Screen {
    type Output;

    fn screen(self, rhs: Self) -> Self::Output;
}

} // verus!
