//! Batches of images: which files belong to a batch, where their outputs
//! go, and how much memory and how many threads a batch may take.

use vstd::prelude::*;
use vstd::string::StrSliceExecFns;
use vstd::string::StringExecFns;
use std::path::Path;
use std::path::PathBuf;
use crate::squeeze::constants::MAX_BATCH_FILES;
use crate::squeeze::constants::MAX_BATCH_MEMORY_MIB;
use crate::squeeze::constants::MAX_CONCURRENT_LARGE_IMAGES;
use crate::squeeze::constants::MIN_AVAILABLE_MEMORY_MIB;
use crate::squeeze::error::CompressionError;
use crate::text::extension_of;
use crate::text::file_stem_of;
use crate::text::join_path;
use crate::text::lowercase;
use crate::text::path_extension;
use crate::text::path_file_stem;
use crate::text::path_joined;
use crate::text::same_text;

verus! {

/// Whether a lowercase extension is that of an image that a batch takes.
pub open spec fn is_batch_image_extension(lower: Seq<char>) -> bool {
    lower == "jpg"@ || lower == "jpeg"@ || lower == "png"@ || lower == "webp"@ || lower == "bmp"@
        || lower == "tiff"@ || lower == "gif"@ || lower == "avif"@ || lower == "heic"@ || lower
        == "heif"@ || lower == "jxl"@
}

/// Whether the extension of a path, whatever its case, is that of an image
/// that a batch takes.
pub fn is_image_file(path: &Path) -> (b: bool)
    ensures
        b == match path_extension(path) {
            Some(e) => is_batch_image_extension(lowercase(e)),
            None => false,
        },
{
    match extension_of(path) {
        Some(ext) => {
            let lower = ext.as_str().to_lowercase();
            let l = lower.as_str();
            same_text(l, "jpg") || same_text(l, "jpeg") || same_text(l, "png") || same_text(
                l,
                "webp",
            ) || same_text(l, "bmp") || same_text(l, "tiff") || same_text(l, "gif") || same_text(
                l,
                "avif",
            ) || same_text(l, "heic") || same_text(l, "heif") || same_text(l, "jxl")
        },
        None => false,
    }
}

/// The extension that a lowercase format name asks for.
pub open spec fn format_extension(lower: Seq<char>) -> Option<Seq<char>> {
    if lower == "jpeg"@ || lower == "jpg"@ {
        Some("jpg"@)
    } else if lower == "png"@ {
        Some("png"@)
    } else if lower == "webp"@ {
        Some("webp"@)
    } else {
        None
    }
}

/// The extension of an output file: the one that the format asks for, else
/// the input's own, else `jpg`. `None` for a format that is not offered.
pub open spec fn output_extension(input_path: &Path, format: Option<String>) -> Option<Seq<char>> {
    match format {
        Some(name) => format_extension(lowercase(name@)),
        None => match path_extension(input_path) {
            Some(e) => Some(e),
            None => Some("jpg"@),
        },
    }
}

/// The path of the output for an input: in `output_dir`, under the
/// input's stem and the extension of the output. An input without a file
/// name and a format that is not offered are refused.
pub fn generate_output_path(input_path: &Path, output_dir: &Path, format: &Option<String>) -> (r:
    Result<PathBuf, CompressionError>)
    ensures
        match r {
            Ok(path) => path_file_stem(input_path) is Some && output_extension(input_path, *format)
                is Some && path == path_joined(
                output_dir,
                path_file_stem(input_path)->0 + "."@ + output_extension(input_path, *format)->0,
            ),
            Err(e) => if path_file_stem(input_path) is None {
                e matches CompressionError::UnsupportedFormat(m) && m@ == "Invalid file name"@
            } else {
                output_extension(input_path, *format) is None && *format is Some && (
                e matches CompressionError::UnsupportedFormat(m) && m@ == (*format)->0@)
            },
        },
{
    let stem = match file_stem_of(input_path) {
        Some(stem) => stem,
        None => {
            return Err(CompressionError::UnsupportedFormat("Invalid file name".to_owned()));
        },
    };
    let extension = match format {
        Some(name) => {
            let lower = name.as_str().to_lowercase();
            let l = lower.as_str();
            if same_text(l, "jpeg") || same_text(l, "jpg") {
                "jpg".to_owned()
            } else if same_text(l, "png") {
                "png".to_owned()
            } else if same_text(l, "webp") {
                "webp".to_owned()
            } else {
                return Err(CompressionError::UnsupportedFormat(name.clone()));
            }
        },
        None => match extension_of(input_path) {
            Some(e) => e,
            None => "jpg".to_owned(),
        },
    };
    let mut file_name = stem;
    file_name.append(".");
    file_name.append(extension.as_str());
    Ok(join_path(output_dir, file_name.as_str()))
}

/// Why a batch is refused, given the number of its files, the memory that
/// it is estimated to need and the memory that is free, both in MiB.
/// `None` where the batch may run: it has no more files than allowed,
/// needs no more memory than allowed, and leaves the reserve free.
pub open spec fn batch_refusal(files: nat, needed_mib: nat, available_mib: nat) -> Option<
    CompressionError,
> {
    if files > MAX_BATCH_FILES {
        Some(CompressionError::BatchFileLimitExceeded(files as usize, MAX_BATCH_FILES))
    } else if needed_mib > MAX_BATCH_MEMORY_MIB {
        Some(CompressionError::BatchMemoryLimitExceeded(needed_mib as u64, MAX_BATCH_MEMORY_MIB))
    } else if needed_mib + MIN_AVAILABLE_MEMORY_MIB > available_mib {
        Some(CompressionError::InsufficientMemory(needed_mib as u64, available_mib as u64))
    } else {
        None
    }
}

/// Checks a batch against the limits on files and memory.
pub fn validate_batch_memory_limits(files: usize, needed_mib: u64, available_mib: u64) -> (r: Result<
    (),
    CompressionError,
>)
    ensures
        match r {
            Ok(()) => batch_refusal(files as nat, needed_mib as nat, available_mib as nat) is None,
            Err(e) => batch_refusal(files as nat, needed_mib as nat, available_mib as nat) == Some(e),
        },
{
    if files > MAX_BATCH_FILES {
        return Err(CompressionError::BatchFileLimitExceeded(files, MAX_BATCH_FILES));
    }
    if needed_mib > MAX_BATCH_MEMORY_MIB {
        return Err(CompressionError::BatchMemoryLimitExceeded(needed_mib, MAX_BATCH_MEMORY_MIB));
    }
    if needed_mib + MIN_AVAILABLE_MEMORY_MIB > available_mib {
        return Err(CompressionError::InsufficientMemory(needed_mib, available_mib));
    }
    Ok(())
}

/// The lesser of two numbers.
pub open spec fn least(a: int, b: int) -> int {
    if a <= b {
        a
    } else {
        b
    }
}

/// The number of threads for a batch. The baseline is the number of
/// threads at hand, but no more than there are files. With two or more
/// large images the batch takes at most two threads. The memory that is
/// free beyond the reserve, divided by the average need of a file, caps
/// the number too, but never under one.
pub open spec fn batch_parallelism(
    threads: nat,
    files: nat,
    large_images: nat,
    available_mib: nat,
    average_mib: nat,
) -> int {
    let baseline = least(threads as int, files as int);
    let large_cap = if large_images >= MAX_CONCURRENT_LARGE_IMAGES {
        MAX_CONCURRENT_LARGE_IMAGES as int
    } else {
        baseline
    };
    let spare = if available_mib >= MIN_AVAILABLE_MEMORY_MIB {
        available_mib - MIN_AVAILABLE_MEMORY_MIB
    } else {
        0
    };
    let by_memory = spare / (if average_mib >= 1 {
        average_mib as int
    } else {
        1
    });
    let memory_cap = if by_memory < 1 {
        1
    } else {
        least(by_memory, baseline)
    };
    least(large_cap, memory_cap)
}

/// The number of threads for a batch of at least one file on at least one
/// thread.
pub fn plan_parallelism(
    threads: usize,
    files: usize,
    large_images: usize,
    available_mib: u64,
    average_mib: u64,
) -> (r: usize)
    requires
        threads >= 1,
        files >= 1,
    ensures
        r == batch_parallelism(
            threads as nat,
            files as nat,
            large_images as nat,
            available_mib as nat,
            average_mib as nat,
        ),
        1 <= r <= threads,
        r <= files,
{
    let baseline = if threads <= files {
        threads
    } else {
        files
    };
    let large_cap = if large_images >= MAX_CONCURRENT_LARGE_IMAGES {
        MAX_CONCURRENT_LARGE_IMAGES
    } else {
        baseline
    };
    let spare = if available_mib >= MIN_AVAILABLE_MEMORY_MIB {
        available_mib - MIN_AVAILABLE_MEMORY_MIB
    } else {
        0
    };
    let average = if average_mib >= 1 {
        average_mib
    } else {
        1
    };
    let by_memory = spare / average;
    let memory_cap: usize = if by_memory < 1 {
        1
    } else if by_memory <= baseline as u64 {
        by_memory as usize
    } else {
        baseline
    };
    if large_cap <= memory_cap {
        large_cap
    } else {
        memory_cap
    }
}

/// Whether the name of a file or a directory marks it as hidden: it
/// begins with a dot. A batch leaves hidden entries out.
pub fn is_hidden_entry(name: &str) -> (b: bool)
    ensures
        b == (name@.len() > 0 && name@[0] == '.'),
{
    name.unicode_len() > 0 && name.get_char(0) == '.'
}

} // verus!
