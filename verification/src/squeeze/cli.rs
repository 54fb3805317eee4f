//! The commands of the image-compression tool, as plain data.

use vstd::prelude::*;
use std::path::PathBuf;

verus! {

/// The parsed command line.
#[derive(Debug, Clone)]
pub struct Args {
    pub command: Commands,
}

/// One command with its arguments.
#[derive(Debug, Clone)]
pub enum Commands {
    Compress {
        input: PathBuf,
        output: PathBuf,
        quality: Option<u8>,
        width: Option<u32>,
        height: Option<u32>,
        format: Option<String>,
        threads: Option<usize>,
    },
    Batch {
        input: String,
        output: PathBuf,
        quality: Option<u8>,
        width: Option<u32>,
        height: Option<u32>,
        format: Option<String>,
        threads: Option<usize>,
        recursive: bool,
    },
    Upload {
        input: PathBuf,
        aggregator_url: Option<String>,
        publisher_url: Option<String>,
        epochs: Option<u64>,
        temp: bool,
    },
    Info { input: PathBuf },
}

} // verus!
