use vstd::prelude::*;
use vstd::string::*;

use crate::config_value::str_equal;

verus! {

/// A platform a task can be limited to.
#[derive(PartialEq, Eq, Structural, Clone, Copy, Debug)]
pub enum Os {
    Linux,
    Mac,
    Ios,
    FreeBsd,
    Dragonfly,
    NetBsd,
    OpenBsd,
    Solaris,
    Android,
    Windows,
}

/// The tag that names `os` in configuration files and in the platform
/// constant of std.
pub open spec fn os_tag(os: Os) -> Seq<char> {
    match os {
        Os::Linux => "linux"@,
        Os::Mac => "macos"@,
        Os::Ios => "ios"@,
        Os::FreeBsd => "freebsd"@,
        Os::Dragonfly => "dragonfly"@,
        Os::NetBsd => "netbsd"@,
        Os::OpenBsd => "openbsd"@,
        Os::Solaris => "solaris"@,
        Os::Android => "android"@,
        Os::Windows => "windows"@,
    }
}

/// The platform whose tag is `s`, if any.
pub open spec fn os_of_tag(s: Seq<char>) -> Option<Os> {
    if s == "linux"@ {
        Some(Os::Linux)
    } else if s == "macos"@ {
        Some(Os::Mac)
    } else if s == "ios"@ {
        Some(Os::Ios)
    } else if s == "freebsd"@ {
        Some(Os::FreeBsd)
    } else if s == "dragonfly"@ {
        Some(Os::Dragonfly)
    } else if s == "netbsd"@ {
        Some(Os::NetBsd)
    } else if s == "openbsd"@ {
        Some(Os::OpenBsd)
    } else if s == "solaris"@ {
        Some(Os::Solaris)
    } else if s == "android"@ {
        Some(Os::Android)
    } else if s == "windows"@ {
        Some(Os::Windows)
    } else {
        None
    }
}

impl Os {
    /// Parses a platform tag; an unknown tag gives `"Unknown OS: <tag>"`.
    pub fn from_str(s: &str) -> (r: Result<Os, String>)
        ensures
            match os_of_tag(s@) {
                Some(os) => r == Ok::<Os, String>(os),
                None => r is Err && r->Err_0@ == "Unknown OS: "@ + s@,
            },
    {
        if str_equal(s, "linux") {
            Ok(Os::Linux)
        } else if str_equal(s, "macos") {
            Ok(Os::Mac)
        } else if str_equal(s, "ios") {
            Ok(Os::Ios)
        } else if str_equal(s, "freebsd") {
            Ok(Os::FreeBsd)
        } else if str_equal(s, "dragonfly") {
            Ok(Os::Dragonfly)
        } else if str_equal(s, "netbsd") {
            Ok(Os::NetBsd)
        } else if str_equal(s, "openbsd") {
            Ok(Os::OpenBsd)
        } else if str_equal(s, "solaris") {
            Ok(Os::Solaris)
        } else if str_equal(s, "android") {
            Ok(Os::Android)
        } else if str_equal(s, "windows") {
            Ok(Os::Windows)
        } else {
            let mut message = String::from_str("Unknown OS: ");
            message.append(s);
            Err(message)
        }
    }

    /// The platform's tag.
    pub fn to_string(&self) -> (r: String)
        ensures
            r@ == os_tag(*self),
    {
        match self {
            Os::Linux => String::from_str("linux"),
            Os::Mac => String::from_str("macos"),
            Os::Ios => String::from_str("ios"),
            Os::FreeBsd => String::from_str("freebsd"),
            Os::Dragonfly => String::from_str("dragonfly"),
            Os::NetBsd => String::from_str("netbsd"),
            Os::OpenBsd => String::from_str("openbsd"),
            Os::Solaris => String::from_str("solaris"),
            Os::Android => String::from_str("android"),
            Os::Windows => String::from_str("windows"),
        }
    }
}

} // verus!
