//! Watches a directory for compressed artifact archives, extracts them, and
//! locates the entry file to open.
//!
//! The library holds the verified logic of the pipeline: resolving the
//! configuration, deciding which notification events trigger an extraction,
//! decoding an archive into its entries, computing the extraction
//! destination, and selecting the shallowest entry file.  The surrounding
//! binary performs the file-system reads and writes and hands plain values
//! in and out.

pub mod archive;
pub mod config;
pub mod locate;
pub mod paths;
pub mod pipeline;
pub mod watch;
