//! Verified core of a command-line OCR client.
//!
//! The library holds the logic of the tool: file validation, credential and
//! configuration checks, the wire-format builders and response validators for
//! the upload and OCR endpoints, the retry policy, the error taxonomy with its
//! exit codes, and the output formatting with secret redaction.  Everything
//! here is specified by contracts and verified; the thin shell that performs
//! filesystem and network I/O lives outside the library and only calls in.

pub mod api_error;
pub mod auth;
pub mod cache;
pub mod cli;
pub mod client;
pub mod config;
pub mod credentials;
pub mod error;
pub mod file;
pub mod files;
pub mod json;
pub mod metrics;
pub mod ocr;
pub mod ocr_api;
pub mod pipeline;
pub mod text;

pub use cache::{generate_file_hash, CacheEntry, CacheStats, CombinedCacheStats, FileCacheKey, OCRCacheKey};
pub use config::{Config, RetryPolicy};
pub use credentials::APICredentials;
pub use error::Error;
pub use file::FileUpload;
pub use metrics::{APIMetrics, FileMetrics};
pub use ocr::OCRResult;
pub use text::u64_to_string;
