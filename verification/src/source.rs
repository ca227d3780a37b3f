//! The decoded bitmap that the widget shows.

use vstd::prelude::*;
use image::DynamicImage;
use crate::geometry::Size;

verus! {

/// A picture of the `image` crate in any of its pixel formats. Nothing of its
/// content is visible to the proofs.
#[verifier::external_type_specification]
#[verifier::external_body]
pub struct ExDynamicImage(DynamicImage);

/// What a bitmap is: its extent and its bytes, four per pixel in the order
/// red, green, blue, alpha, row after row from the top.
pub ghost struct Raster {
    pub size: Size,
    pub pixels: Seq<u8>,
}

impl Raster {
    /// The number of bytes that the extent calls for.
    pub open spec fn byte_len(self) -> nat {
        (4 * self.size.width * self.size.height) as nat
    }

    /// There are exactly as many bytes as the extent calls for.
    pub open spec fn well_formed(self) -> bool {
        self.pixels.len() == self.byte_len()
    }

    /// The bitmap of the given extent whose pixels are the first bytes of
    /// `buffer`, four for each pixel.
    pub open spec fn from_buffer(width: u32, height: u32, buffer: Seq<u8>) -> Raster {
        Raster { size: Size { width, height }, pixels: buffer.subrange(0, 4 * width * height) }
    }

    /// The bitmap that a picture gives once it is converted to 8-bit RGBA:
    /// the extent of the converted image and the bytes of its pixels.
    pub open spec fn of_picture(picture: DynamicImage) -> Raster {
        Raster::from_buffer(rgba8_of(picture).0, rgba8_of(picture).1, rgba8_of(picture).2)
    }

    /// The number of bytes in one row.
    pub open spec fn row_len(self) -> int {
        4 * self.size.width
    }

    /// Where byte `k` of the bitmap turned upside down is found in this one:
    /// at the same place of its row, in the row as far from the bottom as the
    /// row of `k` is from the top.
    pub open spec fn mirror(self, k: int) -> int {
        (self.size.height - 1 - k / self.row_len()) * self.row_len() + k % self.row_len()
    }

    /// The same bitmap with its rows in the opposite order, bottom row first.
    pub open spec fn flipped(self) -> Raster {
        Raster {
            size: self.size,
            pixels: Seq::new(self.pixels.len(), |k: int| self.pixels[self.mirror(k)]),
        }
    }
}

/// A decoded bitmap: width, height and interleaved RGBA bytes. It is never
/// changed after it is made, and it always holds four bytes for each pixel.
pub struct SourceImage {
    width: u32,
    height: u32,
    pixels: Vec<u8>,
}

impl View for SourceImage {
    type V = Raster;

    closed spec fn view(&self) -> Raster {
        Raster { size: Size { width: self.width, height: self.height }, pixels: self.pixels@ }
    }
}

/// What `image::DynamicImage::to_rgba8` makes of a picture: the width and the
/// height of the converted image and the bytes of its raw buffer. The
/// conversion reads nothing but the picture, so the same picture always gives
/// the same three.
pub uninterp spec fn rgba8_of(picture: DynamicImage) -> (u32, u32, Seq<u8>);

/// Converts a picture to 8-bit RGBA with `image::DynamicImage::to_rgba8` and
/// takes the result apart into width, height and raw buffer.
///
/// Not proved, but taken from the `image` crate: the three parts are what the
/// conversion gives for this picture, and the buffer of an `image::RgbaImage`
/// holds at least four bytes for each pixel of its extent. It may hold more,
/// since a buffer made from a longer vector keeps the vector whole. Which
/// bytes a picture gives is not said here.
#[verifier::external_body]
fn rgba8_parts(content: &DynamicImage) -> (parts: (u32, u32, Vec<u8>))
    ensures
        (parts.0, parts.1, parts.2@) == rgba8_of(*content),
        4 * parts.0 * parts.1 <= parts.2@.len(),
{
    let rgba = content.to_rgba8();
    (rgba.width(), rgba.height(), rgba.into_raw())
}

impl SourceImage {
    #[verifier::type_invariant]
    spec fn well_formed(&self) -> bool {
        self.pixels@.len() == 4 * self.width * self.height
    }

    /// Makes a bitmap from its extent and a buffer of RGBA bytes. The buffer
    /// must hold four bytes for each pixel, else the result is `None`; bytes
    /// behind the last pixel are dropped.
    pub fn new(width: u32, height: u32, buffer: Vec<u8>) -> (made: Option<SourceImage>)
        ensures
            made is Some <==> 4 * width * height <= buffer@.len(),
            made matches Some(image) ==> image@ == Raster::from_buffer(width, height, buffer@),
    {
        assert(0 <= 4 * width * height <= 4 * 0xffff_ffff * 0xffff_ffff && 4 * (width * height)
            == 4 * width * height) by (nonlinear_arith)
            requires
                0 <= width <= 0xffff_ffff,
                0 <= height <= 0xffff_ffff,
        ;
        let wanted: u128 = 4 * (width as u128) * (height as u128);
        if wanted <= buffer.len() as u128 {
            let mut pixels = buffer;
            pixels.truncate(wanted as usize);
            Some(SourceImage { width, height, pixels })
        } else {
            None
        }
    }

    /// Takes the pixels of a picture, converted to 8-bit RGBA: the bitmap has
    /// the extent of the converted image and holds the bytes of its pixels,
    /// without what the converted buffer may hold behind the last of them.
    pub fn from_dynamic(content: &DynamicImage) -> (image: SourceImage)
        ensures
            image@ == Raster::of_picture(*content),
            image@.well_formed(),
    {
        let (width, height, buffer) = rgba8_parts(content);
        // The converted buffer holds every pixel, so a bitmap is always made.
        SourceImage::new(width, height, buffer).unwrap()
    }

    /// The bitmap with its rows in the opposite order, bottom row first, as
    /// a bottom-up device-independent bitmap wants them.
    pub fn flipped(&self) -> (turned: SourceImage)
        ensures
            turned@ == self@.flipped(),
    {
        proof {
            use_type_invariant(self);
        }
        let total: usize = self.pixels.len();
        let ghost width = self.width as int;
        let ghost height = self.height as int;
        assert(4 * width * height == height * (4 * width) && (width == 0 || height == 0 ==> 4
            * width * height == 0) && (height >= 1 ==> 4 * width <= 4 * width * height) && (width
            >= 1 ==> height <= 4 * width * height)) by (nonlinear_arith)
            requires
                0 <= width,
                0 <= height,
        ;
        if self.width == 0 || self.height == 0 {
            let turned = SourceImage { width: self.width, height: self.height, pixels: Vec::new() };
            assert(turned@.pixels =~= self@.flipped().pixels);
            return turned;
        }
        let row_len: usize = 4 * (self.width as usize);
        let rows: usize = self.height as usize;
        let mut pixels: Vec<u8> = Vec::with_capacity(total);
        let mut row: usize = 0;
        while row < rows
            invariant
                row <= rows,
                rows == self.height,
                row_len == self@.row_len(),
                row_len > 0,
                total == self.pixels@.len(),
                total == rows * row_len,
                pixels@.len() == row * row_len,
                forall|k: int|
                    0 <= k < pixels@.len() ==> pixels@[k] == self.pixels@[self@.mirror(k)],
            decreases rows - row,
        {
            assert((rows - 1 - row) * row_len + row_len <= rows * row_len && 0 <= (rows - 1 - row)
                * row_len) by (nonlinear_arith)
                requires
                    0 <= row < rows,
                    row_len > 0,
            ;
            let from: usize = (rows - 1 - row) * row_len;
            let mut at: usize = 0;
            while at < row_len
                invariant
                    at <= row_len,
                    row < rows,
                    rows == self.height,
                    row_len == self@.row_len(),
                    row_len > 0,
                    total == self.pixels@.len(),
                    from == (rows - 1 - row) * row_len,
                    from + row_len <= total,
                    pixels@.len() == row * row_len + at,
                    forall|k: int|
                        0 <= k < pixels@.len() ==> pixels@[k] == self.pixels@[self@.mirror(k)],
                decreases row_len - at,
            {
                proof {
                    vstd::arithmetic::div_mod::lemma_fundamental_div_mod_converse(
                        row * row_len + at,
                        row_len as int,
                        row as int,
                        at as int,
                    );
                }
                pixels.push(self.pixels[from + at]);
                at += 1;
            }
            assert((row + 1) * row_len == row * row_len + row_len) by (nonlinear_arith);
            row += 1;
        }
        let turned = SourceImage { width: self.width, height: self.height, pixels };
        assert(turned@.pixels =~= self@.flipped().pixels);
        turned
    }

    pub fn width(&self) -> (w: u32)
        ensures
            w == self@.size.width,
    {
        self.width
    }

    pub fn height(&self) -> (h: u32)
        ensures
            h == self@.size.height,
    {
        self.height
    }

    /// The intrinsic size of the bitmap.
    pub fn size(&self) -> (s: Size)
        ensures
            s == self@.size,
    {
        Size { width: self.width, height: self.height }
    }

    /// The RGBA bytes, four per pixel, row after row.
    pub fn pixels(&self) -> (bytes: &Vec<u8>)
        ensures
            bytes@ == self@.pixels,
            self@.well_formed(),
    {
        proof {
            use_type_invariant(self);
        }
        &self.pixels
    }
}

} // verus!
