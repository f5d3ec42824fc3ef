//! Raw RGBA8 pixel buffers.

use vstd::prelude::*;

verus! {

/// Bytes per pixel of an RGBA8 image.
pub const BYTES_PER_PIXEL: u8 = 4;

/// What a [`Texture`] holds, as contracts speak of it.
#[verifier::ext_equal]
pub struct Image {
    pub width: u16,
    pub height: u16,
    /// Row-major RGBA8 bytes.
    pub pixels: Seq<u8>,
}

impl Image {
    /// The number of bytes that an image of this width and height takes.
    pub open spec fn byte_len(self) -> int {
        self.width * self.height * BYTES_PER_PIXEL
    }

    /// The buffer holds exactly one RGBA8 pixel per texel.
    pub open spec fn well_formed(self) -> bool {
        self.pixels.len() == self.byte_len()
    }

    /// The image of the given size whose every byte is zero.
    pub open spec fn transparent(width: u16, height: u16) -> Image {
        Image {
            width,
            height,
            pixels: Seq::new((width * height * BYTES_PER_PIXEL) as nat, |i: int| 0u8),
        }
    }
}

/// A pixel buffer with the dimensions it claims to have. The buffer is taken
/// as given: whether it fits the dimensions is asked with
/// [`Texture::is_well_formed`], and nothing is uploaded for one that does not.
#[derive(Debug)]
pub struct Texture {
    width: u16,
    height: u16,
    data: Vec<u8>,
}

impl View for Texture {
    type V = Image;

    closed spec fn view(&self) -> Image {
        Image { width: self.width, height: self.height, pixels: self.data@ }
    }
}

impl Texture {
    /// A texture of the given size over the given bytes, whatever their
    /// number.
    pub fn new(width: u16, height: u16, data: Vec<u8>) -> (t: Texture)
        ensures
            t@ == (Image { width, height, pixels: data@ }),
    {
        Texture { width, height, data }
    }

    /// The fully transparent image of the given size.
    pub fn transparent(width: u16, height: u16) -> (t: Texture)
        requires
            width * height * BYTES_PER_PIXEL <= usize::MAX,
        ensures
            t@ == Image::transparent(width, height),
            t@.well_formed(),
    {
        let len: usize = (width as usize) * (height as usize) * (BYTES_PER_PIXEL as usize);
        let mut data: Vec<u8> = Vec::new();
        let mut i: usize = 0;
        while i < len
            invariant
                i <= len,
                data@.len() == i,
                forall|k: int| 0 <= k < i ==> data@[k] == 0u8,
            decreases len - i,
        {
            data.push(0u8);
            i = i + 1;
        }
        Texture { width, height, data }
    }

    /// The width in texels.
    pub fn width(&self) -> (w: u16)
        ensures
            w == self@.width,
    {
        self.width
    }

    /// The height in texels.
    pub fn height(&self) -> (h: u16)
        ensures
            h == self@.height,
    {
        self.height
    }

    /// The pixel bytes.
    pub fn data(&self) -> (d: &Vec<u8>)
        ensures
            d@ == self@.pixels,
    {
        &self.data
    }

    /// Whether the buffer holds exactly `width * height` RGBA8 pixels.
    pub fn is_well_formed(&self) -> (ok: bool)
        ensures
            ok == self@.well_formed(),
    {
        let w: u64 = self.width as u64;
        let h: u64 = self.height as u64;
        assert(w * h * BYTES_PER_PIXEL <= u64::MAX && w * h <= u64::MAX) by (nonlinear_arith)
            requires
                w <= 0xFFFF,
                h <= 0xFFFF,
                BYTES_PER_PIXEL == 4,
        ;
        self.data.len() as u64 == w * h * (BYTES_PER_PIXEL as u64)
    }
}

} // verus!
