//! A plugin's logo as decoded pixels. Decoding the logo's file is the
//! host's work; the library takes the pixels and holds them to their size.

use vstd::prelude::*;

verus! {

/// A decoded image: rows of pixels, four bytes each (red, green, blue,
/// alpha). It always holds exactly the pixels of its size.
#[derive(Debug)]
pub struct LogoImage {
    width: u32,
    height: u32,
    rgba: Vec<u8>,
}

/// A decoded image as plain values.
pub struct LogoView {
    pub width: u32,
    pub height: u32,
    pub rgba: Seq<u8>,
}

impl View for LogoImage {
    type V = LogoView;

    closed spec fn view(&self) -> LogoView {
        LogoView { width: self.width, height: self.height, rgba: self.rgba@ }
    }
}

impl LogoImage {
    #[verifier::type_invariant]
    spec fn holds_its_pixels(self) -> bool {
        self.rgba@.len() == 4 * self.width * self.height
    }

    /// An image of the given size, if `rgba` holds exactly its pixels.
    pub fn new(width: u32, height: u32, rgba: Vec<u8>) -> (logo: Option<LogoImage>)
        ensures
            logo is Some <==> rgba@.len() == 4 * width * height,
            logo is Some ==> logo->0@ == (LogoView { width, height, rgba: rgba@ }),
    {
        let quad: u64 = 4 * (width as u64);
        assert(quad * height <= 0x3_ffff_fffc * 0xffff_ffff) by (nonlinear_arith)
            requires
                0 <= quad <= 0x3_ffff_fffc,
                0 <= height <= 0xffff_ffff,
        ;
        let wanted: u128 = (quad as u128) * (height as u128);
        if rgba.len() as u128 == wanted {
            Some(LogoImage { width, height, rgba })
        } else {
            None
        }
    }

    /// The width in pixels.
    pub fn width(&self) -> (width: u32)
        ensures
            width == self@.width,
    {
        self.width
    }

    /// The height in pixels.
    pub fn height(&self) -> (height: u32)
        ensures
            height == self@.height,
    {
        self.height
    }

    /// The pixels, row by row: four bytes for each pixel of the image.
    pub fn rgba(&self) -> (rgba: &Vec<u8>)
        ensures
            rgba@ == self@.rgba,
            rgba@.len() == 4 * self@.width * self@.height,
    {
        proof {
            use_type_invariant(self);
        }
        &self.rgba
    }
}

impl DeepView for LogoImage {
    type V = LogoView;

    open spec fn deep_view(&self) -> LogoView {
        self@
    }
}

} // verus!
