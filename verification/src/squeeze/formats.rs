//! The output formats of the image-compression tool.

use vstd::prelude::*;
use std::path::Path;
use std::str::FromStr;
use crate::squeeze::error::CompressionError;
use crate::text::extension_of;
use crate::text::lowercase;
use crate::text::path_extension;
use crate::text::same_text;

verus! {

#[verifier::external_type_specification]
pub struct ExImageFormat(image::ImageFormat);

/// A format that images can be written in.
#[derive(Debug, Clone, Copy, PartialEq, Eq, Structural)]
pub enum OutputFormat {
    Jpeg,
    Png,
    WebP,
}

/// The format that a lowercase format name stands for.
pub open spec fn format_named(lower: Seq<char>) -> Option<OutputFormat> {
    if lower == "jpeg"@ || lower == "jpg"@ {
        Some(OutputFormat::Jpeg)
    } else if lower == "png"@ {
        Some(OutputFormat::Png)
    } else if lower == "webp"@ {
        Some(OutputFormat::WebP)
    } else {
        None
    }
}

/// The format that a file extension stands for: JPEG where it names none.
pub open spec fn format_of_extension(extension: Option<Seq<char>>) -> OutputFormat {
    match extension {
        Some(e) => match format_named(lowercase(e)) {
            Some(f) => f,
            None => OutputFormat::Jpeg,
        },
        None => OutputFormat::Jpeg,
    }
}

/// Whether `r` is what reading the format name `s` gives: the format that
/// the name stands for, whatever its case, or the error for a format that
/// is not supported, with the name as it was given.
pub open spec fn reads_format(r: Result<OutputFormat, CompressionError>, s: Seq<char>) -> bool {
    match r {
        Ok(f) => format_named(lowercase(s)) == Some(f),
        Err(e) => format_named(lowercase(s)) is None && (e matches CompressionError::UnsupportedFormat(
            name,
        ) && name@ == s),
    }
}

impl OutputFormat {
    /// The format of the `image` crate of the same name.
    pub open spec fn image_format(self) -> image::ImageFormat {
        match self {
            OutputFormat::Jpeg => image::ImageFormat::Jpeg,
            OutputFormat::Png => image::ImageFormat::Png,
            OutputFormat::WebP => image::ImageFormat::WebP,
        }
    }

    pub open spec fn extension_text(self) -> Seq<char> {
        match self {
            OutputFormat::Jpeg => "jpg"@,
            OutputFormat::Png => "png"@,
            OutputFormat::WebP => "webp"@,
        }
    }

    pub open spec fn display_text(self) -> Seq<char> {
        match self {
            OutputFormat::Jpeg => "JPEG"@,
            OutputFormat::Png => "PNG"@,
            OutputFormat::WebP => "WebP"@,
        }
    }

    /// The file extension of this format.
    pub fn extension(&self) -> (r: &'static str)
        ensures
            r@ == self.extension_text(),
    {
        match self {
            OutputFormat::Jpeg => "jpg",
            OutputFormat::Png => "png",
            OutputFormat::WebP => "webp",
        }
    }

    /// The format of the `image` crate of the same name: `ImageFormat::Jpeg`
    /// for JPEG, `ImageFormat::Png` for PNG and `ImageFormat::WebP` for
    /// WebP.
    pub fn to_image_format(&self) -> (r: image::ImageFormat)
        ensures
            r == self.image_format(),
    {
        match self {
            OutputFormat::Jpeg => image::ImageFormat::Jpeg,
            OutputFormat::Png => image::ImageFormat::Png,
            OutputFormat::WebP => image::ImageFormat::WebP,
        }
    }

    /// The name of this format as it is shown to a reader.
    pub fn to_string(&self) -> (r: String)
        ensures
            r@ == self.display_text(),
    {
        match self {
            OutputFormat::Jpeg => "JPEG".to_owned(),
            OutputFormat::Png => "PNG".to_owned(),
            OutputFormat::WebP => "WebP".to_owned(),
        }
    }

    /// All formats, in the order they are offered.
    pub fn all_formats() -> (r: Vec<OutputFormat>)
        ensures
            r@ == seq![OutputFormat::Jpeg, OutputFormat::Png, OutputFormat::WebP],
    {
        let mut formats: Vec<OutputFormat> = Vec::new();
        formats.push(OutputFormat::Jpeg);
        formats.push(OutputFormat::Png);
        formats.push(OutputFormat::WebP);
        formats
    }

    /// The format names that the command line accepts.
    pub fn format_names() -> (r: Vec<&'static str>)
        ensures
            r@.len() == 3,
            r@[0]@ == "jpeg"@,
            r@[1]@ == "png"@,
            r@[2]@ == "webp"@,
    {
        let mut names: Vec<&'static str> = Vec::new();
        names.push("jpeg");
        names.push("png");
        names.push("webp");
        names
    }

    /// Reads a format name, whatever its case. `jpg` and `jpeg` both name
    /// JPEG; any other name than `png` and `webp` is refused, and the error
    /// holds the name as it was given.
    pub fn parse(s: &str) -> (r: Result<OutputFormat, CompressionError>)
        ensures
            reads_format(r, s@),
    {
        let lower = s.to_lowercase();
        match lookup_format(lower.as_str()) {
            Some(f) => Ok(f),
            None => Err(CompressionError::UnsupportedFormat(s.to_owned())),
        }
    }
}

/// The format that a lowercase name stands for.
fn lookup_format(lower: &str) -> (r: Option<OutputFormat>)
    ensures
        r == format_named(lower@),
{
    if same_text(lower, "jpeg") || same_text(lower, "jpg") {
        Some(OutputFormat::Jpeg)
    } else if same_text(lower, "png") {
        Some(OutputFormat::Png)
    } else if same_text(lower, "webp") {
        Some(OutputFormat::WebP)
    } else {
        None
    }
}

impl FromStr for OutputFormat {
    type Err = CompressionError;

    /// Reads a format name as `parse` does.
    fn from_str(s: &str) -> (r: Result<Self, Self::Err>)
        ensures
            reads_format(r, s@),
    {
        OutputFormat::parse(s)
    }
}

/// The output format for a path: the override where one is given, else the
/// format that the path's extension names, else JPEG.
pub fn determine_output_format(output_path: &Path, format_override: Option<&str>) -> (r: Result<
    OutputFormat,
    CompressionError,
>)
    ensures
        match format_override {
            Some(name) => match r {
                Ok(f) => format_named(lowercase(name@)) == Some(f),
                Err(e) => format_named(lowercase(name@)) is None && (e matches CompressionError::UnsupportedFormat(
                    text,
                ) && text@ == name@),
            },
            None => r == Ok::<OutputFormat, CompressionError>(
                format_of_extension(path_extension(output_path)),
            ),
        },
{
    match format_override {
        Some(name) => OutputFormat::parse(name),
        None => match extension_of(output_path) {
            Some(ext) => {
                let lower = ext.as_str().to_lowercase();
                match lookup_format(lower.as_str()) {
                    Some(f) => Ok(f),
                    None => Ok(OutputFormat::Jpeg),
                }
            },
            None => Ok(OutputFormat::Jpeg),
        },
    }
}

} // verus!
