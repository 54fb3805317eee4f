//! Checks on the paths that the image-compression tool is given.

use vstd::prelude::*;
use vstd::string::StringExecFns;
use vstd::string::StrSliceExecFns;
use std::path::Path;
use crate::squeeze::constants::MAX_FILE_SIZE;
use crate::squeeze::error::CompressionError;
use crate::text::decimal_text;
use crate::text::extension_of;
use crate::text::lowercase;
use crate::text::owned_path;
use crate::text::path_extension;
use crate::text::path_owned;
use crate::text::push_decimal;
use crate::text::same_text;

verus! {

/// Whether a lowercase extension may belong to an image.
pub open spec fn is_potential_image_extension(lower: Seq<char>) -> bool {
    lower == "jpg"@ || lower == "jpeg"@ || lower == "png"@ || lower == "webp"@ || lower == "bmp"@
        || lower == "tiff"@ || lower == "tif"@ || lower == "gif"@ || lower == "avif"@ || lower
        == "heic"@
}

/// Whether the extension of a path, whatever its case, may belong to an
/// image. A path without an extension does not.
pub fn is_potential_image_file(path: &Path) -> (b: bool)
    ensures
        b == match path_extension(path) {
            Some(e) => is_potential_image_extension(lowercase(e)),
            None => false,
        },
{
    match extension_of(path) {
        Some(ext) => {
            let lower = ext.as_str().to_lowercase();
            let l = lower.as_str();
            same_text(l, "jpg") || same_text(l, "jpeg") || same_text(l, "png") || same_text(l, "webp") || same_text(l, "bmp") || same_text(l, "tiff")
                || same_text(l, "tif") || same_text(l, "gif") || same_text(l, "avif") || same_text(l, "heic")
        },
        None => false,
    }
}

/// Whether the name of a path component looks like an attempt to leave a
/// directory: it has more than one character and begins with two dots.
pub open spec fn is_suspicious_name(name: Seq<char>) -> bool {
    name.len() > 1 && name[0] == '.' && name[1] == '.'
}

/// Whether the name of a path component is suspicious.
pub fn is_suspicious_component(name: &str) -> (b: bool)
    ensures
        b == is_suspicious_name(name@),
{
    let n = name.unicode_len();
    n > 1 && name.get_char(0) == '.' && name.get_char(1) == '.'
}

/// Whether a file of that size is too large to be an input.
pub fn exceeds_file_size_limit(size: u64) -> (b: bool)
    ensures
        b == (size > MAX_FILE_SIZE),
{
    size > MAX_FILE_SIZE
}

/// What was found at an input path: whether anything is there, whether
/// it is a file, its size where that can be told, and the names of the
/// ordinary components of its canonical form where it has one.
#[derive(Debug, Clone)]
pub struct InputPathFacts {
    pub exists: bool,
    pub is_file: bool,
    pub size: Option<u64>,
    pub components: Option<Vec<String>>,
}

/// Whether one of the names is suspicious.
pub open spec fn has_suspicious_name(names: Seq<String>) -> bool {
    exists|i: int| 0 <= i < names.len() && is_suspicious_name(#[trigger] names[i]@)
}

/// Whether one of the names is suspicious.
pub fn any_suspicious_component(names: &Vec<String>) -> (b: bool)
    ensures
        b == has_suspicious_name(names@),
{
    let mut i: usize = 0;
    while i < names.len()
        invariant
            i <= names@.len(),
            forall|j: int| 0 <= j < i ==> !is_suspicious_name(#[trigger] names@[j]@),
        decreases names@.len() - i,
    {
        if is_suspicious_component(names[i].as_str()) {
            return true;
        }
        i = i + 1;
    }
    false
}

/// The text of the error for a file that is too large.
pub open spec fn too_large_message(size: u64) -> Seq<char> {
    "File size ("@ + decimal_text(size as nat) + " bytes) exceeds maximum allowed size ("@
        + decimal_text(MAX_FILE_SIZE as nat) + " bytes)"@
}

/// What is wrong with a path: nothing is there, or it is refused with a
/// text.
pub enum PathFault {
    NotFound,
    Unsupported(Seq<char>),
}

/// What is wrong with an input path, if anything. The checks are made in
/// this order: something is there; it is a file; its size can be told and
/// is within the limit; it has a canonical form; no component of that form
/// is suspicious.
pub open spec fn input_path_fault(facts: InputPathFacts) -> Option<PathFault> {
    if !facts.exists {
        Some(PathFault::NotFound)
    } else if !facts.is_file {
        Some(PathFault::Unsupported("Input path is not a file"@))
    } else if facts.size is None {
        Some(PathFault::NotFound)
    } else if facts.size->0 > MAX_FILE_SIZE {
        Some(PathFault::Unsupported(too_large_message(facts.size->0)))
    } else if facts.components is None {
        Some(PathFault::NotFound)
    } else if has_suspicious_name(facts.components->0@) {
        Some(PathFault::Unsupported("Suspicious path component detected"@))
    } else {
        None
    }
}

/// Whether an error is the one for a fault of a path.
pub open spec fn is_path_error(error: CompressionError, path: &Path, fault: PathFault) -> bool {
    match fault {
        PathFault::NotFound => error matches CompressionError::FileNotFound(p) && p
            == path_owned(path),
        PathFault::Unsupported(text) => error matches CompressionError::UnsupportedFormat(m)
            && m@ == text,
    }
}

/// Checks an input path against what was found there.
pub fn validate_input_path(path: &Path, facts: &InputPathFacts) -> (r: Result<(), CompressionError>)
    ensures
        match r {
            Ok(()) => input_path_fault(*facts) is None,
            Err(e) => input_path_fault(*facts) is Some && is_path_error(
                e,
                path,
                input_path_fault(*facts)->0,
            ),
        },
{
    if !facts.exists {
        return Err(CompressionError::FileNotFound(owned_path(path)));
    }
    if !facts.is_file {
        return Err(CompressionError::UnsupportedFormat("Input path is not a file".to_owned()));
    }
    let size = match facts.size {
        Some(size) => size,
        None => {
            return Err(CompressionError::FileNotFound(owned_path(path)));
        },
    };
    if size > MAX_FILE_SIZE {
        let mut message = "File size (".to_owned();
        push_decimal(&mut message, size);
        message.append(" bytes) exceeds maximum allowed size (");
        push_decimal(&mut message, MAX_FILE_SIZE);
        message.append(" bytes)");
        return Err(CompressionError::UnsupportedFormat(message));
    }
    match &facts.components {
        None => Err(CompressionError::FileNotFound(owned_path(path))),
        Some(names) => {
            if any_suspicious_component(names) {
                Err(
                    CompressionError::UnsupportedFormat(
                        "Suspicious path component detected".to_owned(),
                    ),
                )
            } else {
                Ok(())
            }
        },
    }
}

/// Checks the names of the ordinary components of an output path: a
/// suspicious one is refused.
pub fn validate_output_components(names: &Vec<String>) -> (r: Result<(), CompressionError>)
    ensures
        !has_suspicious_name(names@) ==> r is Ok,
        has_suspicious_name(names@) ==> (r matches Err(CompressionError::UnsupportedFormat(m)) && m@
            == "Suspicious output path component detected"@),
{
    if any_suspicious_component(names) {
        Err(
            CompressionError::UnsupportedFormat(
                "Suspicious output path component detected".to_owned(),
            ),
        )
    } else {
        Ok(())
    }
}

} // verus!
