//! Reconstructs a versioned distribution from its manifest: manifest parsing,
//! package routing, checksum validation, endpoint selection and the layout of
//! the final archive, each with a machine-checked contract.

pub mod cli;
pub mod common;
pub mod legacy_downloader;
pub mod modern_downloader;
