//! A small façade over an S3-compatible object store: validating the
//! connection settings, reading the keys out of a bucket listing and
//! preparing the upload of one local file.

pub mod bucket_model;
pub mod config;
pub mod error;
pub mod listing;
pub mod media_type;
pub mod report;
pub mod upload;
