//! Settings of the DOOM fire animation.
use vstd::prelude::*;

use crate::ui::bg_animation::Color;

verus! {

/// Settings of the DOOM fire.
#[derive(Debug, Clone, Copy, PartialEq, Eq, Structural)]
pub struct Options {
    /// Decay control: higher means taller flames.
    pub height: u8,
    /// Horizontal jitter.
    pub spread: u8,
    /// Color of the flame tips.
    pub top: Color,
    /// Color of the flame middle.
    pub middle: Color,
    /// Color of the flame base.
    pub bottom: Color,
}

/// The settings that the fire starts with.
pub open spec fn default_options() -> Options {
    Options {
        height: 6,
        spread: 2,
        top: Color::Rgb(0xEF, 0xEF, 0xC7),
        middle: Color::Rgb(0xDF, 0x57, 0x07),
        bottom: Color::Rgb(0x9F, 0x27, 0x07),
    }
}

impl Default for Options {
    fn default() -> (r: Self)
        ensures
            r == default_options(),
    {
        Options {
            height: 6,
            spread: 2,
            top: Color::Rgb(0xEF, 0xEF, 0xC7),
            middle: Color::Rgb(0xDF, 0x57, 0x07),
            bottom: Color::Rgb(0x9F, 0x27, 0x07),
        }
    }
}

} // verus!
