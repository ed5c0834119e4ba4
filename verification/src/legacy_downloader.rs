//! The endpoint family that is reached under one fixed address.

use crate::common::Downloader;
use vstd::prelude::*;
use vstd::string::*;

verus! {

/// An endpoint family with an address of its own.
pub enum Version {
    GAMETEST2,
}

impl Version {
    /// The family's name, as it is written on the command line.
    pub open spec fn name(&self) -> Seq<char> {
        match self {
            Version::GAMETEST2 => "gametest2"@,
        }
    }

    /// The address under which the family is served.
    pub open spec fn url(&self) -> Seq<char> {
        "http://setup."@ + self.name() + ".robloxlabs.com"@
    }

    /// Renders the family's name.
    #[allow(clippy::inherent_to_string)]
    pub fn to_string(&self) -> (r: String)
        ensures
            r@ == self.name(),
    {
        match self {
            Version::GAMETEST2 => String::from_str("gametest2"),
        }
    }

    /// Renders the family's address.
    pub fn to_url(&self) -> (r: String)
        ensures
            r@ == self.url(),
    {
        String::from_str("http://setup.").concat(self.to_string().as_str()).concat(
            ".robloxlabs.com",
        )
    }
}

/// The address at which an endpoint tells its latest version.
pub fn version_url(cdn: &str) -> (r: String)
    ensures
        r@ == cdn@ + "/version"@,
{
    String::from_str(cdn).concat("/version")
}

/// The distribution of the given version on this family, with its packages
/// yet to be listed.
#[allow(non_snake_case)]
pub fn From(version_hash: &str) -> (d: Downloader)
    ensures
        d.cdn@ == Version::GAMETEST2.url(),
        d.version_hash@ == version_hash@,
        d.roblox_packages@.len() == 0,
{
    Downloader {
        cdn: Version::GAMETEST2.to_url(),
        version_hash: String::from_str(version_hash),
        roblox_packages: Vec::new(),
    }
}

} // verus!
