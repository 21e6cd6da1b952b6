//! State machine and animations of an LED lantern driven by an infrared
//! remote: raw codes become commands, commands and frame ticks move the
//! state, and the state renders to one row of pixels per frame.

use vstd::prelude::*;

pub mod animation;
pub mod color;
pub mod command;
pub mod lantern;
pub mod strip;

pub use crate::animation::{Animation, AnimationKind};
pub use crate::color::{IndexedColor, Rgb};
pub use crate::command::{decode, StripCommand};
pub use crate::lantern::{Fire, Lantern};
pub use crate::strip::Strip;

verus! {

/// Number of addressable pixels on the strip.
pub const STRIP_SIZE: usize = 16;

/// The address that this device's remote sends with every code.
pub const IR_ADDRESS: u8 = 7;

} // verus!
