//! What the tool says about an image: how it may be compressed, and how
//! much memory it takes.

use vstd::prelude::*;
use image::ColorType;

verus! {

#[verifier::external_type_specification]
pub struct ExColorType(image::ColorType);

/// How much compression a file of some size invites.
#[derive(Debug, Clone, Copy, PartialEq, Eq, Structural)]
pub enum SizeAdvice {
    /// More than 5 MiB: quality 60 to 80.
    High,
    /// More than 1 MiB: quality 70 to 85.
    Medium,
    /// Up to 1 MiB: quality 85 to 95.
    Light,
}

/// The advice on resizing an image of some width and height.
#[derive(Debug, Clone, Copy, PartialEq, Eq, Structural)]
pub enum DimensionAdvice {
    /// Wider than 1920 or higher than 1080: resize to 1920 by 1080.
    ResizeToFullHd,
    /// Wider than 1280 or higher than 720: resize to 1280 by 720 for the
    /// web.
    ResizeToHd,
    /// Small enough as it is.
    Keep,
}

/// The compression that a file of `bytes` bytes invites.
pub fn size_advice(bytes: u64) -> (advice: SizeAdvice)
    ensures
        bytes > 5 * 1024 * 1024 ==> advice == SizeAdvice::High,
        1024 * 1024 < bytes <= 5 * 1024 * 1024 ==> advice == SizeAdvice::Medium,
        bytes <= 1024 * 1024 ==> advice == SizeAdvice::Light,
{
    if bytes > 5 * 1024 * 1024 {
        SizeAdvice::High
    } else if bytes > 1024 * 1024 {
        SizeAdvice::Medium
    } else {
        SizeAdvice::Light
    }
}

/// The advice on resizing an image.
pub fn dimension_advice(width: u32, height: u32) -> (advice: DimensionAdvice)
    ensures
        width > 1920 || height > 1080 ==> advice == DimensionAdvice::ResizeToFullHd,
        !(width > 1920 || height > 1080) && (width > 1280 || height > 720) ==> advice
            == DimensionAdvice::ResizeToHd,
        width <= 1280 && height <= 720 ==> advice == DimensionAdvice::Keep,
{
    if width > 1920 || height > 1080 {
        DimensionAdvice::ResizeToFullHd
    } else if width > 1280 || height > 720 {
        DimensionAdvice::ResizeToHd
    } else {
        DimensionAdvice::Keep
    }
}

/// The number of pixels of an image.
pub fn total_pixels(width: u32, height: u32) -> (pixels: u64)
    ensures
        pixels == width * height,
{
    assert(width * height <= 0xffff_ffff * 0xffff_ffff) by (nonlinear_arith)
        requires
            width <= 0xffff_ffff,
            height <= 0xffff_ffff,
    ;
    (width as u64) * (height as u64)
}

/// The number of bytes that an image takes in memory, with so many bytes
/// for each pixel.
pub fn estimate_memory_usage(width: u32, height: u32, bytes_per_pixel: u8) -> (bytes: u128)
    ensures
        bytes == width * height * bytes_per_pixel,
{
    let pixels = total_pixels(width, height);
    assert(pixels * bytes_per_pixel <= 0xffff_ffff_ffff_ffff * 0xff) by (nonlinear_arith)
        requires
            pixels <= 0xffff_ffff_ffff_ffff,
            bytes_per_pixel <= 0xff,
    ;
    (pixels as u128) * (bytes_per_pixel as u128)
}

/// The bytes that the tool counts for a pixel of a color type: those of
/// its channels for the types with 8 and 16 bits a channel, and four for
/// any other.
pub open spec fn pixel_bytes(color: ColorType) -> u8 {
    match color {
        ColorType::Rgb8 => 3,
        ColorType::Rgba8 => 4,
        ColorType::L8 => 1,
        ColorType::La8 => 2,
        ColorType::Rgb16 => 6,
        ColorType::Rgba16 => 8,
        ColorType::L16 => 2,
        ColorType::La16 => 4,
        _ => 4,
    }
}

/// The bytes that the tool counts for a pixel of a color type.
pub fn bytes_per_pixel(color: ColorType) -> (bytes: u8)
    ensures
        bytes == pixel_bytes(color),
        1 <= bytes <= 8,
{
    match color {
        ColorType::Rgb8 => 3,
        ColorType::Rgba8 => 4,
        ColorType::L8 => 1,
        ColorType::La8 => 2,
        ColorType::Rgb16 => 6,
        ColorType::Rgba16 => 8,
        ColorType::L16 => 2,
        ColorType::La16 => 4,
        _ => 4,
    }
}

} // verus!
