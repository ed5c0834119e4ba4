//! The ways in which a run can fail.

use vstd::prelude::*;
use vstd::string::*;

verus! {

/// A response carried no total size, so it cannot be held against the manifest.
#[derive(Debug, Clone, Copy, PartialEq, Eq)]
pub struct NoTotalSize;

impl NoTotalSize {
    /// The text shown for this failure.
    pub open spec fn text() -> Seq<char> {
        "Could not find total size for request and inable to validate it against the RbxPkgManifest"@
    }

    /// Renders the failure as text.
    #[allow(clippy::inherent_to_string)]
    pub fn to_string(&self) -> (r: String)
        ensures
            r@ == Self::text(),
    {
        String::from_str("Could not find total size for request and inable to validate it against the RbxPkgManifest")
    }
}

/// The advertised size of a payload differs from the size the manifest records.
#[derive(Debug, Clone, Copy, PartialEq, Eq)]
pub struct BadTotalSize;

impl BadTotalSize {
    /// The text shown for this failure.
    pub open spec fn text() -> Seq<char> {
        "The total size is not equal to the expected total size"@
    }

    /// Renders the failure as text.
    #[allow(clippy::inherent_to_string)]
    pub fn to_string(&self) -> (r: String)
        ensures
            r@ == Self::text(),
    {
        String::from_str("The total size is not equal to the expected total size")
    }
}

/// A payload's checksum differs from the one the manifest records; this ends the run.
#[derive(Debug, Clone, Copy, PartialEq, Eq)]
pub struct InvalidMd5Hash;

impl InvalidMd5Hash {
    /// The text shown for this failure.
    pub open spec fn text() -> Seq<char> {
        "The md5 hash generated is not the same as that defined in the rbxPkgManifest"@
    }

    /// Renders the failure as text.
    #[allow(clippy::inherent_to_string)]
    pub fn to_string(&self) -> (r: String)
        ensures
            r@ == Self::text(),
    {
        String::from_str("The md5 hash generated is not the same as that defined in the rbxPkgManifest")
    }
}

/// A package could not be unpacked into its destination.
#[derive(Debug, Clone, Copy, PartialEq, Eq)]
pub struct ZipExtractionError;

impl ZipExtractionError {
    /// The text shown for this failure.
    pub open spec fn text() -> Seq<char> {
        "The zip has failed to be extracted"@
    }

    /// Renders the failure as text.
    #[allow(clippy::inherent_to_string)]
    pub fn to_string(&self) -> (r: String)
        ensures
            r@ == Self::text(),
    {
        String::from_str("The zip has failed to be extracted")
    }
}

/// A file or directory of the staging tree could not be created.
#[derive(Debug, Clone, Copy, PartialEq, Eq)]
pub struct FileCreationError;

impl FileCreationError {
    /// The text shown for this failure.
    pub open spec fn text() -> Seq<char> {
        "Could not create a file"@
    }

    /// Renders the failure as text.
    #[allow(clippy::inherent_to_string)]
    pub fn to_string(&self) -> (r: String)
        ensures
            r@ == Self::text(),
    {
        String::from_str("Could not create a file")
    }
}

/// The output archive is already there; it is never overwritten.
#[derive(Debug, Clone, Copy, PartialEq, Eq)]
pub struct FileAlreadyExistError;

impl FileAlreadyExistError {
    /// The text shown for this failure.
    pub open spec fn text() -> Seq<char> {
        "Could not create a file since one already exist"@
    }

    /// Renders the failure as text.
    #[allow(clippy::inherent_to_string)]
    pub fn to_string(&self) -> (r: String)
        ensures
            r@ == Self::text(),
    {
        String::from_str("Could not create a file since one already exist")
    }
}

/// The command line names no known way to run.
#[derive(Debug, Clone, Copy, PartialEq, Eq)]
pub struct BadCliUse;

impl BadCliUse {
    /// The text shown for this failure.
    pub open spec fn text() -> Seq<char> {
        "Please use the exe in the way described when running with no args"@
    }

    /// Renders the failure as text.
    #[allow(clippy::inherent_to_string)]
    pub fn to_string(&self) -> (r: String)
        ensures
            r@ == Self::text(),
    {
        String::from_str("Please use the exe in the way described when running with no args")
    }
}

/// The manifest text lacks its marker line or holds a size that is no unsigned 64-bit decimal number.
#[derive(Debug, Clone, Copy, PartialEq, Eq)]
pub struct ManifestFormatError;

impl ManifestFormatError {
    /// The text shown for this failure.
    pub open spec fn text() -> Seq<char> {
        "The rbxPkgManifest is malformed"@
    }

    /// Renders the failure as text.
    #[allow(clippy::inherent_to_string)]
    pub fn to_string(&self) -> (r: String)
        ensures
            r@ == Self::text(),
    {
        String::from_str("The rbxPkgManifest is malformed")
    }
}

} // verus!
