//! What a command line asks for.

use crate::common::errors::BadCliUse;
use crate::common::text::{has_prefix, same_text, starts_with};
use vstd::prelude::*;
use vstd::string::*;

verus! {

/// What to fetch, as the command line asks for it.
#[derive(Debug, PartialEq, Eq)]
pub enum Invocation {
    /// No argument at all, not even the program's name: the usage is shown.
    Usage,
    /// The latest version from the fastest of the candidate endpoints.
    ModernLatest,
    /// The latest version from the fixed endpoint family.
    LegacyLatest,
    /// The given version from the fastest of the candidate endpoints.
    ModernVersion(String),
    /// The given version from the fixed endpoint family.
    LegacyVersion(String),
}

/// The reading of a command line, whose first argument is the program's
/// name. One argument more names the endpoint family, `gametest2` or `live`;
/// a second one names the version and begins with `version-`. Anything else
/// is refused.
pub open spec fn reads_as(args: Seq<String>, r: Result<Invocation, BadCliUse>) -> bool {
    if args.len() == 0 {
        r == Ok::<Invocation, BadCliUse>(Invocation::Usage)
    } else if args.len() == 1 {
        r == Ok::<Invocation, BadCliUse>(Invocation::ModernLatest)
    } else if args.len() == 2 {
        if args[1]@ == "gametest2"@ {
            r == Ok::<Invocation, BadCliUse>(Invocation::LegacyLatest)
        } else if args[1]@ == "live"@ {
            r == Ok::<Invocation, BadCliUse>(Invocation::ModernLatest)
        } else {
            r is Err
        }
    } else if !has_prefix(args[2]@, "version-"@) {
        r is Err
    } else if args[1]@ == "gametest2"@ {
        r matches Ok(Invocation::LegacyVersion(v)) && v@ == args[2]@
    } else if args[1]@ == "live"@ {
        r matches Ok(Invocation::ModernVersion(v)) && v@ == args[2]@
    } else {
        r is Err
    }
}

/// Reads a command line.
pub fn parse_args(args: &Vec<String>) -> (r: Result<Invocation, BadCliUse>)
    ensures
        reads_as(args@, r),
{
    let n: usize = args.len();
    if n == 0 {
        return Ok(Invocation::Usage);
    }
    if n == 1 {
        return Ok(Invocation::ModernLatest);
    }
    let legacy: bool = same_text(args[1].as_str(), "gametest2");
    let live: bool = same_text(args[1].as_str(), "live");
    if n == 2 {
        if legacy {
            Ok(Invocation::LegacyLatest)
        } else if live {
            Ok(Invocation::ModernLatest)
        } else {
            Err(BadCliUse)
        }
    } else if !starts_with(args[2].as_str(), "version-") {
        Err(BadCliUse)
    } else if legacy {
        Ok(Invocation::LegacyVersion(String::from_str(args[2].as_str())))
    } else if live {
        Ok(Invocation::ModernVersion(String::from_str(args[2].as_str())))
    } else {
        Err(BadCliUse)
    }
}

} // verus!
