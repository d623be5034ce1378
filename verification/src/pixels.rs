//! Pixel buffers: rectangular images of four 8-bit channels per pixel, in
//! row-major order, and their enlargement on the CPU.

use vstd::prelude::*;
use image::imageops::{resize, FilterType};
use image::{ImageBuffer, Rgba};
use crate::error::UpscaleError;
use crate::geometry::{
    buffer_len, byte_len, factor_in_range, is_valid_factor, wide_product,
};

verus! {

/// What a pixel buffer holds, as mathematical values.
pub struct Pixels {
    pub width: u32,
    pub height: u32,
    pub data: Seq<u8>,
}

impl Pixels {
    /// The byte length is exactly `width * height * 4`.
    pub open spec fn wf(self) -> bool {
        self.data.len() == byte_len(self.width as int, self.height as int)
    }
}

/// A rectangular image in red, green, blue, alpha order, eight bits per
/// channel. Its byte length always equals `width * height * 4`.
#[derive(Debug)]
pub struct PixelBuffer {
    width: u32,
    height: u32,
    data: Vec<u8>,
}

impl View for PixelBuffer {
    type V = Pixels;

    closed spec fn view(&self) -> Pixels {
        Pixels { width: self.width, height: self.height, data: self.data@ }
    }
}

/// The bytes that `image::imageops::resize` with the nearest-neighbour
/// filter produces from an image of `width` by `height` pixels, four bytes
/// each, when asked for `new_width` by `new_height` pixels.
pub uninterp spec fn nearest_resized(
    pixels: Seq<u8>,
    width: u32,
    height: u32,
    new_width: u32,
    new_height: u32,
) -> Seq<u8>;

/// Whether the enlargement of a `width` by `height` image by `factor` can
/// be computed on this machine: both new extents fit in 32 bits, and
/// neither the result nor the intermediate image of 32-bit samples
/// exceeds the largest allocation.
pub open spec fn resize_fits(width: u32, height: u32, factor: u32) -> bool {
    &&& width * factor <= u32::MAX
    &&& height * factor <= u32::MAX
    &&& 16 * width * (height * factor) <= isize::MAX
    &&& 4 * (width * factor) * (height * factor) <= isize::MAX
}

/// Calls `image::imageops::resize` with `FilterType::Nearest` on the
/// pixels, framed as an RGBA image by `ImageBuffer::from_raw`.
///
/// Trusted: the result is present exactly when the bytes suffice for the
/// stated extent (otherwise `from_raw` declines); it is then named
/// `nearest_resized` of the arguments and has four bytes for each pixel
/// of the new extent. The size limits exclude the inputs on which the
/// crate's allocations overflow.
#[verifier::external_body]
fn resize_nearest(pixels: &Vec<u8>, width: u32, height: u32, new_width: u32, new_height: u32) -> (out:
    Option<Vec<u8>>)
    requires
        16 * width * new_height <= isize::MAX,
        4 * new_width * new_height <= isize::MAX,
    ensures
        out is Some <==> pixels@.len() >= byte_len(width as int, height as int),
        out matches Some(bytes) ==> bytes@ == nearest_resized(
            pixels@,
            width,
            height,
            new_width,
            new_height,
        ) && bytes@.len() == byte_len(new_width as int, new_height as int),
{
    let source = ImageBuffer::<Rgba<u8>, &[u8]>::from_raw(width, height, pixels.as_slice())?;
    Some(resize(&source, new_width, new_height, FilterType::Nearest).into_raw())
}

impl PixelBuffer {
    #[verifier::type_invariant]
    spec fn well_formed(self) -> bool {
        self.data@.len() == byte_len(self.width as int, self.height as int)
    }

    /// Frames `data` as an image of `width` by `height` pixels. Succeeds
    /// exactly when `data` holds four bytes for each pixel.
    pub fn from_raw(width: u32, height: u32, data: Vec<u8>) -> (buffer: Option<PixelBuffer>)
        ensures
            buffer is Some <==> data@.len() == byte_len(width as int, height as int),
            buffer matches Some(b) ==> b@ == (Pixels { width, height, data: data@ }) && b@.wf(),
    {
        let expected: u128 = buffer_len(width, height);
        if data.len() as u128 == expected {
            Some(PixelBuffer { width, height, data })
        } else {
            None
        }
    }

    /// A buffer of the given extent with every byte zero. `None` when the
    /// byte length does not fit in `usize`.
    pub fn zeroed(width: u32, height: u32) -> (buffer: Option<PixelBuffer>)
        ensures
            buffer is Some <==> byte_len(width as int, height as int) <= usize::MAX,
            buffer matches Some(b) ==> {
                &&& b@.width == width
                &&& b@.height == height
                &&& b@.wf()
                &&& forall|i: int| 0 <= i < b@.data.len() ==> b@.data[i] == 0u8
            },
    {
        let expected: u128 = buffer_len(width, height);
        if expected <= usize::MAX as u128 {
            let data: Vec<u8> = vec![0u8; expected as usize];
            Some(PixelBuffer { width, height, data })
        } else {
            None
        }
    }

    /// Width in pixels.
    pub fn width(&self) -> (width: u32)
        ensures
            width == self@.width,
    {
        self.width
    }

    /// Height in pixels.
    pub fn height(&self) -> (height: u32)
        ensures
            height == self@.height,
    {
        self.height
    }

    /// The bytes, row by row.
    pub fn as_bytes(&self) -> (bytes: &Vec<u8>)
        ensures
            bytes@ == self@.data,
            self@.wf(),
    {
        proof {
            use_type_invariant(self);
        }
        &self.data
    }

    /// Gives up the buffer for its bytes.
    pub fn into_raw(self) -> (bytes: Vec<u8>)
        ensures
            bytes@ == self@.data,
            self@.wf(),
    {
        proof {
            use_type_invariant(&self);
        }
        self.data
    }

    /// Enlarges the image by an integer factor with nearest-neighbour
    /// sampling, on the CPU.
    ///
    /// The factor is checked first; an image whose enlargement cannot be
    /// computed on this machine is refused next. Otherwise the result has
    /// exactly `width * factor` by `height * factor` pixels.
    pub fn upscale_nearest(&self, factor: u32) -> (result: Result<PixelBuffer, UpscaleError>)
        ensures
            !factor_in_range(factor) ==> result == Err::<PixelBuffer, UpscaleError>(
                UpscaleError::InvalidFactor(factor),
            ),
            factor_in_range(factor) && !resize_fits(self@.width, self@.height, factor) ==> result
                == Err::<PixelBuffer, UpscaleError>(UpscaleError::ImageTooLarge),
            factor_in_range(factor) && resize_fits(self@.width, self@.height, factor) ==> (result
                matches Ok(out) && out@.wf() && out@.width == self@.width * factor && out@.height
                == self@.height * factor && out@.data == nearest_resized(
                self@.data,
                self@.width,
                self@.height,
                out@.width,
                out@.height,
            )),
    {
        proof {
            use_type_invariant(self);
        }
        if !is_valid_factor(factor) {
            return Err(UpscaleError::InvalidFactor(factor));
        }
        let new_width: u64 = wide_product(self.width, factor);
        let new_height: u64 = wide_product(self.height, factor);
        if new_width > u32::MAX as u64 || new_height > u32::MAX as u64 {
            return Err(UpscaleError::ImageTooLarge);
        }
        let limit: u128 = isize::MAX as u128;
        let scratch: u128 = 4 * buffer_len(self.width, new_height as u32);
        let target: u128 = buffer_len(new_width as u32, new_height as u32);
        assert(scratch == 16 * self.width * (self.height * factor)) by (nonlinear_arith)
            requires
                scratch == 4 * (self.width * new_height * 4),
                new_height == self.height * factor,
        ;
        assert(target == 4 * (self.width * factor) * (self.height * factor)) by (nonlinear_arith)
            requires
                target == new_width * new_height * 4,
                new_width == self.width * factor,
                new_height == self.height * factor,
        ;
        if scratch > limit || target > limit {
            return Err(UpscaleError::ImageTooLarge);
        }
        match resize_nearest(&self.data, self.width, self.height, new_width as u32, new_height as u32) {
            Some(bytes) => {
                Ok(PixelBuffer { width: new_width as u32, height: new_height as u32, data: bytes })
            },
            None => {
                proof {
                    assert(false);
                }
                Err(UpscaleError::BadPixelData)
            },
        }
    }
}

} // verus!
