//! Packed four-channel colour.

use vstd::prelude::*;

verus! {

/// The channels of a [`Colour`], as contracts speak of them.
pub struct Rgba {
    pub r: u8,
    pub g: u8,
    pub b: u8,
    pub a: u8,
}

/// Divisor that takes a channel byte to its normalised value in `[0, 1]`.
pub const CHANNEL_MAX: u8 = 255;

/// An immutable RGBA colour, one byte per channel.
#[derive(Debug, Clone, Copy, PartialEq, Eq)]
pub struct Colour {
    channels: [u8; 4],
}

impl View for Colour {
    type V = Rgba;

    closed spec fn view(&self) -> Rgba {
        Rgba { r: self.channels[0], g: self.channels[1], b: self.channels[2], a: self.channels[3] }
    }
}

impl Colour {
    /// The colour of the given channels.
    pub fn new(r: u8, g: u8, b: u8, a: u8) -> (c: Colour)
        ensures
            c@ == (Rgba { r, g, b, a }),
    {
        Colour { channels: [r, g, b, a] }
    }

    /// The red channel.
    pub fn r(&self) -> (v: u8)
        ensures
            v == self@.r,
    {
        self.channels[0]
    }

    /// The green channel.
    pub fn g(&self) -> (v: u8)
        ensures
            v == self@.g,
    {
        self.channels[1]
    }

    /// The blue channel.
    pub fn b(&self) -> (v: u8)
        ensures
            v == self@.b,
    {
        self.channels[2]
    }

    /// The alpha channel.
    pub fn a(&self) -> (v: u8)
        ensures
            v == self@.a,
    {
        self.channels[3]
    }
}

} // verus!
