//! The options of one compression.

use vstd::prelude::*;
use vstd::string::StringExecFns;
use std::path::Path;
use image::ImageFormat;
use crate::squeeze::constants::DEFAULT_QUALITY;
use crate::squeeze::constants::LIBDEFLATER_HIGH_LEVEL;
use crate::squeeze::constants::LIBDEFLATER_LOW_LEVEL;
use crate::squeeze::constants::MAX_FILE_SIZE;
use crate::squeeze::constants::MAX_IMAGE_DIMENSION;
use crate::squeeze::constants::MAX_QUALITY;
use crate::squeeze::constants::MIN_QUALITY;
use crate::squeeze::constants::ZOPFLI_ITERATIONS;
use crate::squeeze::error::CompressionError;
use crate::text::extension_of;
use crate::text::lowercase;
use crate::text::path_extension;
use crate::text::path_owned;
use crate::text::same_text;

verus! {

/// How an image is to be compressed.
#[derive(Debug, Clone)]
pub struct CompressionOptions {
    pub quality: u8,
    pub width: Option<u32>,
    pub height: Option<u32>,
    pub format: Option<String>,
}

/// The quality that is used where the caller gives `quality`.
pub open spec fn effective_quality(quality: Option<u8>) -> u8 {
    match quality {
        Some(q) => q,
        None => DEFAULT_QUALITY,
    }
}

impl CompressionOptions {
    /// Options with the default quality where none is given. A quality
    /// outside 1 to 100 is refused.
    pub fn new(
        quality: Option<u8>,
        width: Option<u32>,
        height: Option<u32>,
        format: Option<String>,
    ) -> (r: Result<Self, CompressionError>)
        ensures
            MIN_QUALITY <= effective_quality(quality) <= MAX_QUALITY ==> r == Ok::<
                Self,
                CompressionError,
            >(
                CompressionOptions {
                    quality: effective_quality(quality),
                    width,
                    height,
                    format,
                },
            ),
            !(MIN_QUALITY <= effective_quality(quality) <= MAX_QUALITY) ==> r == Err::<
                Self,
                CompressionError,
            >(CompressionError::InvalidQuality(effective_quality(quality))),
    {
        let quality = match quality {
            Some(q) => q,
            None => DEFAULT_QUALITY,
        };
        if quality < MIN_QUALITY || quality > MAX_QUALITY {
            return Err(CompressionError::InvalidQuality(quality));
        }
        Ok(CompressionOptions { quality, width, height, format })
    }
}

/// Refuses the path of a file that does not exist, `exists` saying whether
/// it does.
pub fn validate_file_exists(path: &Path, exists: bool) -> (r: Result<(), CompressionError>)
    ensures
        exists ==> r is Ok,
        !exists ==> (r matches Err(CompressionError::FileNotFound(p)) && p == path_owned(path)),
{
    crate::squeeze::utils::validate_file_exists(path, exists)
}

/// What a format name or an extension stands for when an image is saved.
#[derive(Debug, Clone, Copy, PartialEq, Eq)]
pub enum FormatChoice {
    /// The image is saved in this format.
    Save(ImageFormat),
    /// The format is known but cannot be written yet.
    NotYetSupported,
    /// The name stands for no format.
    Unknown,
}

/// What the name of a format stands for, the name being as an extension
/// has it. The name `jpegxl` is not among them.
pub open spec fn format_choice(name: Seq<char>) -> FormatChoice {
    if name == "jpg"@ || name == "jpeg"@ {
        FormatChoice::Save(ImageFormat::Jpeg)
    } else if name == "png"@ {
        FormatChoice::Save(ImageFormat::Png)
    } else if name == "webp"@ {
        FormatChoice::Save(ImageFormat::WebP)
    } else if name == "avif"@ {
        FormatChoice::Save(ImageFormat::Avif)
    } else if name == "heic"@ || name == "heif"@ || name == "jxl"@ {
        FormatChoice::NotYetSupported
    } else {
        FormatChoice::Unknown
    }
}

/// What the name of a format stands for when it is given as an override:
/// as `format_choice`, and `jpegxl` is known too.
pub open spec fn override_choice(lower: Seq<char>) -> FormatChoice {
    if lower == "jpegxl"@ {
        FormatChoice::NotYetSupported
    } else {
        format_choice(lower)
    }
}

/// The text of the error for a format that cannot be written yet.
pub open spec fn not_yet_supported_message(name: Seq<char>) -> Seq<char> {
    name + " format is not yet supported in this version. Use AVIF for modern compression"@
}

/// What a name stands for.
fn choose_format(name: &str) -> (choice: FormatChoice)
    ensures
        choice == format_choice(name@),
{
    if same_text(name, "jpg") || same_text(name, "jpeg") {
        FormatChoice::Save(ImageFormat::Jpeg)
    } else if same_text(name, "png") {
        FormatChoice::Save(ImageFormat::Png)
    } else if same_text(name, "webp") {
        FormatChoice::Save(ImageFormat::WebP)
    } else if same_text(name, "avif") {
        FormatChoice::Save(ImageFormat::Avif)
    } else if same_text(name, "heic") || same_text(name, "heif") || same_text(name, "jxl") {
        FormatChoice::NotYetSupported
    } else {
        FormatChoice::Unknown
    }
}

/// The error for a format that cannot be written yet.
fn not_yet_supported(name: &str) -> (e: CompressionError)
    ensures
        e matches CompressionError::UnsupportedFormat(m) && m@ == not_yet_supported_message(name@),
{
    let mut message = name.to_owned();
    message.append(" format is not yet supported in this version. Use AVIF for modern compression");
    CompressionError::UnsupportedFormat(message)
}

/// The format in which an image is saved. An override decides, whatever
/// its case: a name that stands for no format is refused with the name as
/// it was given, and one that cannot be written yet with a hint. Without
/// an override the extension of the output path decides, as it is
/// written: an extension that cannot be written yet is refused, and any
/// other extension, or none, gives JPEG.
pub fn determine_output_format(output: &Path, format: &Option<String>) -> (r: Result<
    ImageFormat,
    CompressionError,
>)
    ensures
        match *format {
            Some(name) => match override_choice(lowercase(name@)) {
                FormatChoice::Save(f) => r == Ok::<ImageFormat, CompressionError>(f),
                FormatChoice::NotYetSupported => r matches Err(
                    CompressionError::UnsupportedFormat(m),
                ) && m@ == not_yet_supported_message(name@),
                FormatChoice::Unknown => r matches Err(CompressionError::UnsupportedFormat(m))
                    && m@ == name@,
            },
            None => match path_extension(output) {
                Some(e) => match format_choice(e) {
                    FormatChoice::Save(f) => r == Ok::<ImageFormat, CompressionError>(f),
                    FormatChoice::NotYetSupported => r matches Err(
                        CompressionError::UnsupportedFormat(m),
                    ) && m@ == not_yet_supported_message(e),
                    FormatChoice::Unknown => r == Ok::<ImageFormat, CompressionError>(
                        ImageFormat::Jpeg,
                    ),
                },
                None => r == Ok::<ImageFormat, CompressionError>(ImageFormat::Jpeg),
            },
        },
{
    match format {
        Some(name) => {
            let lower = name.as_str().to_lowercase();
            if same_text(lower.as_str(), "jpegxl") {
                return Err(not_yet_supported(name.as_str()));
            }
            match choose_format(lower.as_str()) {
                FormatChoice::Save(f) => Ok(f),
                FormatChoice::NotYetSupported => Err(not_yet_supported(name.as_str())),
                FormatChoice::Unknown => Err(CompressionError::UnsupportedFormat(name.clone())),
            }
        },
        None => match extension_of(output) {
            Some(e) => match choose_format(e.as_str()) {
                FormatChoice::Save(f) => Ok(f),
                FormatChoice::NotYetSupported => Err(not_yet_supported(e.as_str())),
                FormatChoice::Unknown => Ok(ImageFormat::Jpeg),
            },
            None => Ok(ImageFormat::Jpeg),
        },
    }
}

/// How a PNG is compressed.
#[derive(Debug, Clone, Copy, PartialEq, Eq, Structural)]
pub enum PngCompression {
    /// Zopfli with this many iterations.
    Zopfli { iterations: u8 },
    /// Libdeflater at this level.
    Libdeflater { compression: u8 },
}

/// The compression of a PNG at a quality: Zopfli from 90, the high level
/// of libdeflater from 70, and its low level below.
pub fn png_compression(quality: u8) -> (c: PngCompression)
    ensures
        quality >= 90 ==> c == (PngCompression::Zopfli { iterations: ZOPFLI_ITERATIONS }),
        70 <= quality < 90 ==> c == (PngCompression::Libdeflater {
            compression: LIBDEFLATER_HIGH_LEVEL,
        }),
        quality < 70 ==> c == (PngCompression::Libdeflater { compression: LIBDEFLATER_LOW_LEVEL }),
{
    if quality >= 90 {
        PngCompression::Zopfli { iterations: ZOPFLI_ITERATIONS }
    } else if quality >= 70 {
        PngCompression::Libdeflater { compression: LIBDEFLATER_HIGH_LEVEL }
    } else {
        PngCompression::Libdeflater { compression: LIBDEFLATER_LOW_LEVEL }
    }
}

/// Refuses a file that is larger than allowed.
pub fn check_file_size(file_size: u64) -> (r: Result<(), CompressionError>)
    ensures
        file_size <= MAX_FILE_SIZE ==> r is Ok,
        file_size > MAX_FILE_SIZE ==> r == Err::<(), CompressionError>(
            CompressionError::FileTooLarge(file_size, MAX_FILE_SIZE),
        ),
{
    if file_size > MAX_FILE_SIZE {
        Err(CompressionError::FileTooLarge(file_size, MAX_FILE_SIZE))
    } else {
        Ok(())
    }
}

/// Refuses an image that is wider or higher than allowed.
pub fn check_dimensions(width: u32, height: u32) -> (r: Result<(), CompressionError>)
    ensures
        width <= MAX_IMAGE_DIMENSION && height <= MAX_IMAGE_DIMENSION ==> r is Ok,
        width > MAX_IMAGE_DIMENSION || height > MAX_IMAGE_DIMENSION ==> r == Err::<
            (),
            CompressionError,
        >(CompressionError::InvalidDimensions(width, height, MAX_IMAGE_DIMENSION)),
{
    if width > MAX_IMAGE_DIMENSION || height > MAX_IMAGE_DIMENSION {
        Err(CompressionError::InvalidDimensions(width, height, MAX_IMAGE_DIMENSION))
    } else {
        Ok(())
    }
}

/// The size to resize one side of an image to: the size asked for, unless
/// none is asked for, or zero, or the size that the side has.
pub fn resize_target(requested: Option<u32>, current: u32) -> (target: Option<u32>)
    ensures
        target == match requested {
            Some(size) => if size > 0 && size != current {
                Some(size)
            } else {
                None
            },
            None => None,
        },
{
    match requested {
        Some(size) => if size > 0 && size != current {
            Some(size)
        } else {
            None
        },
        None => None,
    }
}

} // verus!
