//! RGBA images: row-major grids of pixels with four 8-bit channels.

use vstd::prelude::*;

verus! {

/// Mathematical model of an image: its dimensions and the flat row-major
/// channel data, four bytes (red, green, blue, alpha) per pixel.
#[verifier::ext_equal]
pub ghost struct ImageView {
    pub width: int,
    pub height: int,
    pub data: Seq<u8>,
}

impl ImageView {
    /// Validity of an image: the data holds exactly four bytes per pixel,
    /// and each dimension fits in 32 bits (as image file formats have it).
    pub open spec fn wf(self) -> bool {
        &&& 0 <= self.width <= u32::MAX
        &&& 0 <= self.height <= u32::MAX
        &&& self.data.len() == self.width * self.height * 4
    }

    /// Channel `c` of the pixel at column `x`, row `y`.
    pub open spec fn px(self, x: int, y: int, c: int) -> u8 {
        self.data[(y * self.width + x) * 4 + c]
    }
}

/// Why an image could not be constructed.
#[derive(Clone, Copy, Debug, PartialEq, Eq, Structural)]
pub enum ImageError {
    /// The flat data does not hold exactly `width * height * 4` bytes.
    SizeMismatch,
}

/// An RGBA image: `width * height` pixels in row-major order, four bytes
/// per pixel.
pub struct Image {
    width: usize,
    height: usize,
    pixels: Vec<u8>,
}

impl View for Image {
    type V = ImageView;

    closed spec fn view(&self) -> ImageView {
        ImageView { width: self.width as int, height: self.height as int, data: self.pixels@ }
    }
}

impl Image {
    /// Builds an image from its dimensions and its flat row-major RGBA
    /// bytes, rejecting data whose length does not match the dimensions.
    pub fn new(width: usize, height: usize, pixels: Vec<u8>) -> (r: Result<Image, ImageError>)
        requires
            width <= u32::MAX,
            height <= u32::MAX,
        ensures
            match r {
                Ok(im) => {
                    &&& pixels.len() == width * height * 4
                    &&& im@.wf()
                    &&& im@.width == width
                    &&& im@.height == height
                    &&& im@.data == pixels@
                },
                Err(ImageError::SizeMismatch) => pixels.len() != width * height * 4,
            },
    {
        match width.checked_mul(height) {
            Some(cells) => match cells.checked_mul(4) {
                Some(total) => {
                    if pixels.len() == total {
                        Ok(Image { width, height, pixels })
                    } else {
                        Err(ImageError::SizeMismatch)
                    }
                },
                None => {
                    // width * height * 4 exceeds usize::MAX, so no Vec can
                    // have that length.
                    Err(ImageError::SizeMismatch)
                },
            },
            None => Err(ImageError::SizeMismatch),
        }
    }

    /// Builds an image from parts already known to agree in size.
    pub fn from_parts(width: usize, height: usize, pixels: Vec<u8>) -> (r: Image)
        requires
            width <= u32::MAX,
            height <= u32::MAX,
            pixels.len() == width * height * 4,
        ensures
            r@.wf(),
            r@.width == width,
            r@.height == height,
            r@.data == pixels@,
    {
        Image { width, height, pixels }
    }

    /// Number of pixel columns.
    pub fn width(&self) -> (r: usize)
        ensures
            r == self@.width,
    {
        self.width
    }

    /// Number of pixel rows.
    pub fn height(&self) -> (r: usize)
        ensures
            r == self@.height,
    {
        self.height
    }

    /// Number of bytes of row-major channel data: `width * height * 4`.
    pub fn byte_len(&self) -> (r: usize)
        ensures
            r == self@.data.len(),
    {
        self.pixels.len()
    }

    /// Channel `c` of the pixel at column `x`, row `y`.
    pub fn channel_at(&self, x: usize, y: usize, c: usize) -> (r: u8)
        requires
            self@.wf(),
            x < self@.width,
            y < self@.height,
            c < 4,
        ensures
            r == self@.px(x as int, y as int, c as int),
    {
        let len: usize = self.pixels.len();
        proof {
            crate::correlate::lemma_row_major_bound(x as int, y as int, self@.width, self@.height);
        }
        let cell: usize = y * self.width + x;
        self.pixels[cell * 4 + c]
    }

    /// Borrows the flat row-major channel data.
    pub fn pixel_data(&self) -> (r: &Vec<u8>)
        ensures
            r@ == self@.data,
    {
        &self.pixels
    }

    /// Gives up the image, handing back its flat row-major channel data.
    pub fn into_pixels(self) -> (r: Vec<u8>)
        ensures
            r@ == self@.data,
    {
        self.pixels
    }
}

} // verus!
