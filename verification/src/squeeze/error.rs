//! What can go wrong in the image-compression tool.

use vstd::prelude::*;
use vstd::string::StringExecFns;
use std::path::PathBuf;
use crate::outside::path_display;
use crate::outside::path_shown;
use crate::text::decimal_text;
use crate::text::push_decimal;

verus! {

#[derive(Debug, Clone)]
pub enum CompressionError {
    Io(String),
    ImageProcessing(String),
    PngOptimization(String),
    InvalidQuality(u8),
    InvalidDimensions(u32, u32, u32),
    FileTooLarge(u64, u64),
    UnsupportedFormat(String),
    FileNotFound(PathBuf),
    DirectoryCreationFailed(PathBuf),
    NoImageFilesFound(String),
    WalkdirError(String),
    WalrusUpload(String),
    BatchMemoryLimitExceeded(u64, u64),
    BatchFileLimitExceeded(usize, usize),
    InsufficientMemory(u64, u64),
}

impl CompressionError {
    /// The error as it is shown to a reader.
    pub open spec fn message_text(self) -> Seq<char> {
        match self {
            CompressionError::Io(m) => "I/O error: "@ + m@,
            CompressionError::ImageProcessing(m) => "Image processing error: "@ + m@,
            CompressionError::PngOptimization(m) => "PNG optimization error: "@ + m@,
            CompressionError::InvalidQuality(q) => "Invalid quality value: "@ + decimal_text(
                q as nat,
            ) + ". Must be between 1 and 100"@,
            CompressionError::InvalidDimensions(w, h, max) => "Invalid image dimensions: "@
                + decimal_text(w as nat) + "x"@ + decimal_text(h as nat) + ". Maximum allowed: "@
                + decimal_text(max as nat) + "x"@ + decimal_text(max as nat),
            CompressionError::FileTooLarge(size, max) => "File too large: "@ + decimal_text(
                size as nat,
            ) + " bytes. Maximum allowed: "@ + decimal_text(max as nat) + " bytes"@,
            CompressionError::UnsupportedFormat(m) => "Unsupported format: "@ + m@,
            CompressionError::FileNotFound(p) => "File not found: "@ + path_shown(p),
            CompressionError::DirectoryCreationFailed(p) => "Failed to create output directory: "@
                + path_shown(p),
            CompressionError::NoImageFilesFound(m) => "No image files found in input path: "@ + m@,
            CompressionError::WalkdirError(m) => "Walkdir error: "@ + m@,
            CompressionError::WalrusUpload(m) => "Walrus upload error: "@ + m@,
            CompressionError::BatchMemoryLimitExceeded(needed, max) =>
                "Batch memory limit exceeded: estimated "@ + decimal_text(needed as nat)
                    + "MB, maximum allowed "@ + decimal_text(max as nat) + "MB"@,
            CompressionError::BatchFileLimitExceeded(files, max) =>
                "Batch file count limit exceeded: "@ + decimal_text(files as nat)
                    + " files, maximum allowed "@ + decimal_text(max as nat),
            CompressionError::InsufficientMemory(needed, available) =>
                "Insufficient available memory: estimated batch requires "@ + decimal_text(
                    needed as nat,
                ) + "MB, but only "@ + decimal_text(available as nat) + "MB available"@,
        }
    }

    /// The error as it is shown to a reader.
    pub fn message(&self) -> (text: String)
        ensures
            text@ == self.message_text(),
    {
        match self {
            CompressionError::Io(m) => "I/O error: ".to_owned().concat(m.as_str()),
            CompressionError::ImageProcessing(m) => "Image processing error: ".to_owned().concat(
                m.as_str(),
            ),
            CompressionError::PngOptimization(m) => "PNG optimization error: ".to_owned().concat(
                m.as_str(),
            ),
            CompressionError::InvalidQuality(q) => {
                let mut text = "Invalid quality value: ".to_owned();
                push_decimal(&mut text, *q as u64);
                text.append(". Must be between 1 and 100");
                text
            },
            CompressionError::InvalidDimensions(w, h, max) => {
                let mut text = "Invalid image dimensions: ".to_owned();
                push_decimal(&mut text, *w as u64);
                text.append("x");
                push_decimal(&mut text, *h as u64);
                text.append(". Maximum allowed: ");
                push_decimal(&mut text, *max as u64);
                text.append("x");
                push_decimal(&mut text, *max as u64);
                text
            },
            CompressionError::FileTooLarge(size, max) => {
                let mut text = "File too large: ".to_owned();
                push_decimal(&mut text, *size);
                text.append(" bytes. Maximum allowed: ");
                push_decimal(&mut text, *max);
                text.append(" bytes");
                text
            },
            CompressionError::UnsupportedFormat(m) => "Unsupported format: ".to_owned().concat(
                m.as_str(),
            ),
            CompressionError::FileNotFound(p) => "File not found: ".to_owned().concat(
                path_display(p).as_str(),
            ),
            CompressionError::DirectoryCreationFailed(p) =>
                "Failed to create output directory: ".to_owned().concat(path_display(p).as_str()),
            CompressionError::NoImageFilesFound(m) =>
                "No image files found in input path: ".to_owned().concat(m.as_str()),
            CompressionError::WalkdirError(m) => "Walkdir error: ".to_owned().concat(m.as_str()),
            CompressionError::WalrusUpload(m) => "Walrus upload error: ".to_owned().concat(
                m.as_str(),
            ),
            CompressionError::BatchMemoryLimitExceeded(needed, max) => {
                let mut text = "Batch memory limit exceeded: estimated ".to_owned();
                push_decimal(&mut text, *needed);
                text.append("MB, maximum allowed ");
                push_decimal(&mut text, *max);
                text.append("MB");
                text
            },
            CompressionError::BatchFileLimitExceeded(files, max) => {
                let mut text = "Batch file count limit exceeded: ".to_owned();
                push_decimal(&mut text, *files as u64);
                text.append(" files, maximum allowed ");
                push_decimal(&mut text, *max as u64);
                text
            },
            CompressionError::InsufficientMemory(needed, available) => {
                let mut text = "Insufficient available memory: estimated batch requires ".to_owned();
                push_decimal(&mut text, *needed);
                text.append("MB, but only ");
                push_decimal(&mut text, *available);
                text.append("MB available");
                text
            },
        }
    }
}

} // verus!
