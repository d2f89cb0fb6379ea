//! Catalog synchronization and image-cache consistency engine.
//!
//! The library keeps a local product catalog (a relational store plus a
//! directory of product images) consistent with a remote JSON manifest that
//! names a versioned database snapshot and a set of image files.  The modules
//! hold the decision logic of that engine: which files to download, which
//! local files are stale, how the stored version may advance, and how image
//! filenames are matched to product codes.  All file, network and database
//! traffic is performed by the surrounding application, which feeds plain
//! values into these functions and carries their decisions out.

pub mod cache;
pub mod catalog;
pub mod chars;
pub mod cleanup;
pub mod codes;
pub mod container;
pub mod digest;
pub mod downloader;
pub mod headers;
pub mod manifest;
pub mod mime;
pub mod paths;
pub mod text;
