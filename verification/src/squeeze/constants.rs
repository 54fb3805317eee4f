//! Limits and defaults of the image-compression tool.

use vstd::prelude::*;

verus! {

pub const DEFAULT_QUALITY: u8 = 80;

pub const MIN_QUALITY: u8 = 1;

pub const MAX_QUALITY: u8 = 100;

pub const DEFAULT_EPOCHS: u64 = 10;

pub const TEMP_EPOCHS: u64 = 1;

pub const ZOPFLI_ITERATIONS: u8 = 15;

pub const LIBDEFLATER_HIGH_LEVEL: u8 = 12;

pub const LIBDEFLATER_LOW_LEVEL: u8 = 8;

pub const DEFAULT_WALRUS_AGGREGATOR: &'static str = "https://aggregator.walrus-testnet.walrus.space";

pub const DEFAULT_WALRUS_PUBLISHER: &'static str = "https://publisher.walrus-testnet.walrus.space";

/// The path under which an aggregator serves a blob.
pub const WALRUS_BLOB_PATH: &'static str = "/v1/blobs/";

/// The largest width or height of an image, in pixels.
pub const MAX_IMAGE_DIMENSION: u32 = 16384;

/// The largest file, in bytes: 100 MiB.
pub const MAX_FILE_SIZE: u64 = 104857600;

/// The most memory a batch may need, in MiB.
pub const MAX_BATCH_MEMORY_MIB: u64 = 2048;

/// The most files in a batch.
pub const MAX_BATCH_FILES: usize = 10000;

/// The memory to keep free while a batch runs, in MiB.
pub const MIN_AVAILABLE_MEMORY_MIB: u64 = 512;

/// Above this estimate, in MiB, an image counts as large.
pub const LARGE_IMAGE_THRESHOLD_MIB: u64 = 50;

/// The most large images to work on at once.
pub const MAX_CONCURRENT_LARGE_IMAGES: usize = 2;

} // verus!
