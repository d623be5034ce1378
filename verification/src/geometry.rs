//! Sizes: the upscale factor, image extents, buffer lengths and the
//! workgroup grid.

use vstd::prelude::*;
use crate::error::UpscaleError;

verus! {

/// Smallest accepted upscale factor.
pub const MIN_FACTOR: u32 = 1;

/// Largest accepted upscale factor.
pub const MAX_FACTOR: u32 = 8;

/// Bytes per pixel: red, green, blue, alpha, eight bits each.
pub const BYTES_PER_PIXEL: u32 = 4;

/// Edge length of the square workgroup that the kernel declares as its
/// local size. The dispatch grid is computed from the same constant.
pub const WORKGROUP_SIZE: u32 = 16;

/// Size in bytes of the parameter block pushed to the kernel: source width,
/// source height and factor, each an unsigned 32-bit integer.
pub const PUSH_CONSTANT_BYTES: u32 = 12;

/// Whether `factor` is an accepted upscale factor.
pub open spec fn factor_in_range(factor: u32) -> bool {
    MIN_FACTOR <= factor <= MAX_FACTOR
}

/// Number of workgroups needed to cover `extent` pixels along one axis.
pub open spec fn groups_for(extent: int) -> int {
    (extent + WORKGROUP_SIZE - 1) / (WORKGROUP_SIZE as int)
}

/// Byte length of a pixel buffer of the given extent.
pub open spec fn byte_len(width: int, height: int) -> int {
    width * height * BYTES_PER_PIXEL
}

/// Whether the upscaled image can be described at all: both output extents
/// fit in 32 bits and the output buffer length fits in `usize`.
pub open spec fn output_fits(width: u32, height: u32, factor: u32) -> bool {
    &&& width * factor <= u32::MAX
    &&& height * factor <= u32::MAX
    &&& byte_len(width * factor, height * factor) <= usize::MAX
}

/// A product of bounded factors is bounded by the product of the bounds.
pub proof fn product_is_bounded(a: int, b: int, a_max: int, b_max: int)
    by (nonlinear_arith)
    requires
        0 <= a <= a_max,
        0 <= b <= b_max,
    ensures
        0 <= a * b <= a_max * b_max,
{
}

/// The product of two 32-bit values, which always fits in 64 bits.
pub fn wide_product(a: u32, b: u32) -> (product: u64)
    ensures
        product == a * b,
{
    proof {
        product_is_bounded(a as int, b as int, u32::MAX as int, u32::MAX as int);
    }
    (a as u64) * (b as u64)
}

/// Byte length of a pixel buffer of the given extent, computed without
/// overflow.
pub fn buffer_len(width: u32, height: u32) -> (len: u128)
    ensures
        len == byte_len(width as int, height as int),
        len <= 4 * (u32::MAX * u32::MAX),
{
    let pixels: u64 = wide_product(width, height);
    proof {
        product_is_bounded(width as int, height as int, u32::MAX as int, u32::MAX as int);
    }
    (pixels as u128) * 4
}

/// Tells whether `factor` lies in `[MIN_FACTOR, MAX_FACTOR]`.
pub fn is_valid_factor(factor: u32) -> (ok: bool)
    ensures
        ok == factor_in_range(factor),
{
    MIN_FACTOR <= factor && factor <= MAX_FACTOR
}

/// The extent of the upscaled image: exactly `width * factor` by
/// `height * factor`.
///
/// The factor is checked first. An image whose upscaled extent or buffer
/// length cannot be represented is refused.
pub fn output_extent(width: u32, height: u32, factor: u32) -> (result: Result<
    (u32, u32),
    UpscaleError,
>)
    ensures
        !factor_in_range(factor) ==> result == Err::<(u32, u32), UpscaleError>(
            UpscaleError::InvalidFactor(factor),
        ),
        factor_in_range(factor) && !output_fits(width, height, factor) ==> result == Err::<
            (u32, u32),
            UpscaleError,
        >(UpscaleError::ImageTooLarge),
        factor_in_range(factor) && output_fits(width, height, factor) ==> (result matches Ok(
            extent,
        ) && extent.0 == width * factor && extent.1 == height * factor),
{
    if !is_valid_factor(factor) {
        return Err(UpscaleError::InvalidFactor(factor));
    }
    let out_width: u64 = wide_product(width, factor);
    let out_height: u64 = wide_product(height, factor);
    if out_width > u32::MAX as u64 || out_height > u32::MAX as u64 {
        return Err(UpscaleError::ImageTooLarge);
    }
    if buffer_len(out_width as u32, out_height as u32) > usize::MAX as u128 {
        return Err(UpscaleError::ImageTooLarge);
    }
    Ok((out_width as u32, out_height as u32))
}

/// Workgroups along one axis: `extent / 16`, rounded up.
pub fn workgroup_count(extent: u32) -> (groups: u32)
    ensures
        groups == groups_for(extent as int),
        groups * WORKGROUP_SIZE >= extent,
        extent > 0 ==> (groups - 1) * WORKGROUP_SIZE < extent,
        extent == 0 ==> groups == 0,
{
    let whole: u32 = extent / WORKGROUP_SIZE;
    if extent % WORKGROUP_SIZE == 0 {
        whole
    } else {
        whole + 1
    }
}

/// The two-dimensional dispatch grid for an output image; the third
/// dimension of the dispatch is always 1.
pub fn dispatch_grid(out_width: u32, out_height: u32) -> (grid: (u32, u32))
    ensures
        grid.0 == groups_for(out_width as int),
        grid.1 == groups_for(out_height as int),
{
    (workgroup_count(out_width), workgroup_count(out_height))
}

} // verus!
