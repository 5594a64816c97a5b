//! Target identifiers: the platform triple that selects which build of each
//! artifact a host installs.
use vstd::prelude::*;
use vstd::string::*;
use crate::text::{owned, same_text};

verus! {

/// The target identifier for a host architecture and operating system.
/// Known pairs map to their full triple; any other pair falls back to
/// `{arch}-unknown-{os}`.
pub open spec fn target_spec(arch: Seq<char>, os: Seq<char>) -> Seq<char> {
    if arch == "x86_64"@ && os == "linux"@ {
        "x86_64-unknown-linux-gnu"@
    } else if arch == "aarch64"@ && os == "linux"@ {
        "aarch64-unknown-linux-gnu"@
    } else if arch == "x86_64"@ && os == "macos"@ {
        "x86_64-apple-darwin"@
    } else if arch == "aarch64"@ && os == "macos"@ {
        "aarch64-apple-darwin"@
    } else {
        arch + "-unknown-"@ + os
    }
}

/// Maps a host architecture and operating system to its target identifier.
pub fn target_identifier(arch: &str, os: &str) -> (r: String)
    ensures
        r@ == target_spec(arch@, os@),
{
    let x86 = same_text(arch, "x86_64");
    let arm = same_text(arch, "aarch64");
    let linux = same_text(os, "linux");
    let macos = same_text(os, "macos");
    if x86 && linux {
        owned("x86_64-unknown-linux-gnu")
    } else if arm && linux {
        owned("aarch64-unknown-linux-gnu")
    } else if x86 && macos {
        owned("x86_64-apple-darwin")
    } else if arm && macos {
        owned("aarch64-apple-darwin")
    } else {
        let mut r = owned(arch);
        r.append("-unknown-");
        r.append(os);
        r
    }
}

} // verus!
