//! Colors with three or four channels, their byte arithmetic and packing,
//! and the names of the Porter-Duff and simple blend modes.
use vstd::prelude::*;

pub mod blend;
pub mod channel;
mod rgb;
mod rgba;

pub use rgb::{IntoRGB, RGB};
pub use rgba::{IntoRGBA, RGBA};

verus! {

/// A marker for the types that a channel can hold.
pub trait InnerType: Copy {}

impl InnerType for u8 {}

} // verus!
