//! The pure parts of the image-compression tool: formats, options, limits
//! and the texts it prints.

pub mod batch;
pub mod cli;
pub mod constants;
pub mod error;
pub mod formats;
pub mod info;
pub mod logger;
pub mod processing;
pub mod upload;
pub mod utils;
pub mod validation;
pub mod walrus;
