//! The finite set of operating-system identifiers a host can report.

use vstd::prelude::*;

verus! {

/// The operating-system identifiers the runtime environment can report:
/// a finite set of canonical lower-case names.
pub open spec fn is_os_identifier(s: Seq<char>) -> bool {
    ||| s == "linux"@
    ||| s == "macos"@
    ||| s == "ios"@
    ||| s == "freebsd"@
    ||| s == "dragonfly"@
    ||| s == "netbsd"@
    ||| s == "openbsd"@
    ||| s == "solaris"@
    ||| s == "android"@
    ||| s == "windows"@
}

/// Reports whether `s` is one of the canonical operating-system identifiers.
pub fn is_known_platform(s: &str) -> (r: bool)
    ensures
        r == is_os_identifier(s@),
{
    let t = s.to_owned();
    t == "linux".to_owned() || t == "macos".to_owned() || t == "ios".to_owned()
        || t == "freebsd".to_owned() || t == "dragonfly".to_owned()
        || t == "netbsd".to_owned() || t == "openbsd".to_owned()
        || t == "solaris".to_owned() || t == "android".to_owned()
        || t == "windows".to_owned()
}

} // verus!
