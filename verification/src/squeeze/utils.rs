//! Helpers shared by the commands of the image-compression tool.

use vstd::prelude::*;
use vstd::string::StringExecFns;
use std::path::Path;
use crate::squeeze::constants::WALRUS_BLOB_PATH;
use crate::squeeze::error::CompressionError;
use crate::text::decimal_text;
use crate::text::ends_with_char;
use crate::text::extension_of;
use crate::text::lowercase;
use crate::text::owned_path;
use crate::text::path_extension;
use crate::text::path_owned;
use crate::text::push_decimal;
use crate::text::same_text;
use crate::text::trim_end_char;
use crate::text::without_trailing;

verus! {

/// Refuses the path of a file that does not exist, `exists` saying whether
/// it does.
pub fn validate_file_exists(path: &Path, exists: bool) -> (r: Result<(), CompressionError>)
    ensures
        exists ==> r is Ok,
        !exists ==> (r matches Err(CompressionError::FileNotFound(p)) && p == path_owned(path)),
{
    if !exists {
        return Err(CompressionError::FileNotFound(owned_path(path)));
    }
    Ok(())
}

/// Whether a lowercase extension is one of the supported image formats.
pub open spec fn is_supported_image_extension(lower: Seq<char>) -> bool {
    lower == "jpg"@ || lower == "jpeg"@ || lower == "png"@ || lower == "webp"@ || lower == "bmp"@
        || lower == "tiff"@ || lower == "gif"@
}

/// Whether the extension of a path, whatever its case, is that of a
/// supported image format.
pub fn is_image_file(path: &Path) -> (b: bool)
    ensures
        b == match path_extension(path) {
            Some(e) => is_supported_image_extension(lowercase(e)),
            None => false,
        },
{
    match extension_of(path) {
        Some(ext) => {
            let lower = ext.as_str().to_lowercase();
            let l = lower.as_str();
            same_text(l, "jpg") || same_text(l, "jpeg") || same_text(l, "png") || same_text(l, "webp") || same_text(l, "bmp") || same_text(l, "tiff")
                || same_text(l, "gif")
        },
        None => false,
    }
}

/// The address of a blob: the aggregator's URL without its trailing
/// slashes, the blob path and the blob's id.
pub fn build_walrus_access_url(aggregator_url: &str, blob_id: &str) -> (url: String)
    ensures
        url@ == without_trailing(aggregator_url@, '/') + WALRUS_BLOB_PATH@ + blob_id@,
{
    let mut url = if ends_with_char(aggregator_url, '/') {
        trim_end_char(aggregator_url, '/').to_owned()
    } else {
        aggregator_url.to_owned()
    };
    url.append(WALRUS_BLOB_PATH);
    url.append(blob_id);
    url
}

/// The number of units that is nearest to `amount / unit`, and the even one
/// of two that are equally near.
pub open spec fn rounded_quotient(amount: nat, unit: nat) -> nat
    recommends
        unit > 0,
{
    let q = amount / unit;
    let r = amount % unit;
    if 2 * r > unit || (2 * r == unit && q % 2 == 1) {
        q + 1
    } else {
        q
    }
}

/// The power of two by which a number of at least 53 bits goes beyond 53
/// bits: the least of 1, 2, 4, ..., 2048 that brings `n` under `2^53` when
/// `n` is divided by it.
pub open spec fn excess_scale(n: nat, scale: nat) -> nat
    decreases 4096 - scale,
{
    if scale >= 2048 || scale == 0 || n / scale < 0x20_0000_0000_0000 {
        scale
    } else {
        excess_scale(n, 2 * scale)
    }
}

/// The number that a 64-bit count becomes when it is held in a double
/// precision float: the count itself below `2^53`, and above that the
/// nearest number with 53 significant bits, the even one of two that are
/// equally near.
pub open spec fn as_double(n: nat) -> nat {
    let scale = excess_scale(n, 1);
    rounded_quotient(n, scale) * scale
}

/// The number of divisions by 1024 that bring a size under 1024, at most
/// four.
pub open spec fn unit_index(size: nat) -> nat {
    if size < 1024 {
        0
    } else if size < 1024 * 1024 {
        1
    } else if size < 1024 * 1024 * 1024 {
        2
    } else if size < 1024 * 1024 * 1024 * 1024 {
        3
    } else {
        4
    }
}

/// The number of bytes in the unit with that index.
pub open spec fn unit_bytes(index: nat) -> nat {
    if index == 0 {
        1
    } else if index == 1 {
        1024
    } else if index == 2 {
        1024 * 1024
    } else if index == 3 {
        1024 * 1024 * 1024
    } else {
        1024 * 1024 * 1024 * 1024
    }
}

/// The name of the unit with that index.
pub open spec fn unit_name(index: nat) -> Seq<char> {
    if index == 0 {
        "B"@
    } else if index == 1 {
        "KB"@
    } else if index == 2 {
        "MB"@
    } else if index == 3 {
        "GB"@
    } else {
        "TB"@
    }
}

/// A size as people read it. Under 1024 bytes it is the number of bytes
/// and `B`. From there on it is the size in the largest unit up to `TB`
/// that does not exceed it, with one decimal, rounded to the nearest tenth
/// and to the even tenth of two that are equally near. Sizes from `2^53`
/// bytes are first rounded as a double precision float rounds them.
pub open spec fn file_size_text(bytes: nat) -> Seq<char> {
    if bytes < 1024 {
        decimal_text(bytes) + " B"@
    } else {
        let size = as_double(bytes);
        let index = unit_index(size);
        let tenths = rounded_quotient(10 * size, unit_bytes(index));
        decimal_text(tenths / 10) + "."@ + decimal_text(tenths % 10) + " "@ + unit_name(index)
    }
}

/// The nearest number of units, and the even one of two equally near.
fn round_quotient(amount: u128, unit: u128) -> (q: u128)
    requires
        unit > 0,
        amount < 0x1000_0000_0000_0000_0000,
    ensures
        q == rounded_quotient(amount as nat, unit as nat),
        q <= amount / unit + 1,
{
    let q = amount / unit;
    let r = amount % unit;
    if r > unit - r || (r == unit - r && q % 2 == 1) {
        q + 1
    } else {
        q
    }
}

/// The number that a count becomes in a double precision float.
fn to_double(n: u64) -> (v: u128)
    ensures
        v == as_double(n as nat),
        v <= 0x1_0000_0000_0000_0000,
        n < 0x20_0000_0000_0000 ==> v == n,
        n >= 0x20_0000_0000_0000 ==> v >= 0x400_0000_0000,
{
    let mut scale: u128 = 1;
    while scale < 2048 && (n as u128) / scale >= 0x20_0000_0000_0000
        invariant
            1 <= scale <= 2048,
            scale == 1 || scale == 2 || scale == 4 || scale == 8 || scale == 16 || scale == 32
                || scale == 64 || scale == 128 || scale == 256 || scale == 512 || scale == 1024
                || scale == 2048,
            excess_scale(n as nat, 1) == excess_scale(n as nat, scale as nat),
        decreases 4096 - scale,
    {
        scale = scale * 2;
    }
    assert(excess_scale(n as nat, scale as nat) == scale);
    let q = round_quotient(n as u128, scale);
    assert(q * scale <= 0x1_0000_0000_0000_0000) by (nonlinear_arith)
        requires
            q <= (n as u128) / scale + 1,
            1 <= scale <= 2048,
            n <= 0xffff_ffff_ffff_ffff,
            scale == 2048 || (n as u128) / scale < 0x20_0000_0000_0000,
    {
        if scale == 2048 {
            assert((n as u128) / scale <= 0x1f_ffff_ffff_ffff);
        }
    }
    assert(n >= 0x20_0000_0000_0000 ==> (n as int) / (scale as int) >= 0x400_0000_0000)
        by (nonlinear_arith)
        requires
            1 <= scale <= 2048,
    ;
    assert(q * scale >= q) by (nonlinear_arith)
        requires
            scale >= 1,
    ;
    q * scale
}

/// Formats a size in bytes as people read it, such as `512 B`, `1.5 KB` or
/// `1.0 GB`.
pub fn format_file_size(bytes: u64) -> (text: String)
    ensures
        text@ == file_size_text(bytes as nat),
{
    let mut text = String::new();
    if bytes < 1024 {
        push_decimal(&mut text, bytes);
        text.append(" B");
        assert(text@ =~= file_size_text(bytes as nat));
        return text;
    }
    let size = to_double(bytes);
    let (unit, name): (u128, &str) = if size < 1024 * 1024 {
        (1024, "KB")
    } else if size < 1024 * 1024 * 1024 {
        (1024 * 1024, "MB")
    } else if size < 1024 * 1024 * 1024 * 1024 {
        (1024 * 1024 * 1024, "GB")
    } else {
        (1024 * 1024 * 1024 * 1024, "TB")
    };
    assert(size >= 1024);
    assert(unit == unit_bytes(unit_index(size as nat)));
    assert(name@ == unit_name(unit_index(size as nat)));
    let tenths = round_quotient(10 * size, unit);
    assert((10 * size) as int / (unit as int) <= 0x280_0000_0000_0000) by (nonlinear_arith)
        requires
            unit >= 1024,
            size <= 0x1_0000_0000_0000_0000,
    ;
    assert(tenths / 10 <= u64::MAX);
    push_decimal(&mut text, (tenths / 10) as u64);
    text.append(".");
    push_decimal(&mut text, (tenths % 10) as u64);
    text.append(" ");
    text.append(name);
    assert(text@ =~= file_size_text(bytes as nat));
    text
}

} // verus!
