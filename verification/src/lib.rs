//! Mirror the contents of an S3-compatible object store to a local
//! directory tree: enumerate buckets, enumerate the objects of each
//! bucket, fetch each object's bytes and write them under
//! `<root><sep><bucket><sep><key>`.
//!
//! The traversal and all path derivation live here, verified; the
//! network and filesystem calls are issued by an unverified driver
//! that feeds their outcomes back as events.

pub mod config;
pub mod errors;
pub mod export;
pub mod hexstr;
pub mod listing;
pub mod paths;
pub mod plan;
