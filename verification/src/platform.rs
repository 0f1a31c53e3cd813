//! What the program says of the machine it runs on.

use core::convert::Infallible;
use vstd::prelude::*;
use crate::text::{trim_text, trimmed};

verus! {

/// The operating system, the architecture and the family of the platform.
#[derive(Debug, Clone, PartialEq, Eq)]
pub struct PlatformInfo {
    pub os: String,
    pub arch: String,
    pub family: String,
}

impl PlatformInfo {
    /// The platform with the given names.
    pub fn new(os: &str, arch: &str, family: &str) -> (r: PlatformInfo)
        ensures
            r.os@ == os@,
            r.arch@ == arch@,
            r.family@ == family@,
    {
        PlatformInfo { os: os.to_owned(), arch: arch.to_owned(), family: family.to_owned() }
    }

    /// Operating system and architecture, joined by a hyphen.
    pub fn display(&self) -> (r: String)
        ensures
            r@ == self.os@ + "-"@ + self.arch@,
    {
        let mut out: String = self.os.clone();
        out.append("-");
        out.append(self.arch.as_str());
        out
    }
}

/// The identifier of a host of which nothing is known. Asking cannot fail.
pub fn get_host_identifier() -> (r: Result<String, Infallible>)
    ensures
        r is Ok,
        r->Ok_0@ == "unknown-platform"@,
{
    Ok("unknown-platform".to_owned())
}

/// The identifier that a Unix host has by what its `hostname` command
/// printed, `None` standing for a command that failed.
pub open spec fn unix_identifier(output: Option<Seq<char>>) -> Seq<char> {
    match output {
        Some(text) => if trimmed(text).len() > 0 {
            trimmed(text)
        } else {
            "unknown-unix-host"@
        },
        None => "unknown-unix-host"@,
    }
}

/// The identifier of a Unix host: what `hostname` printed, trimmed, or a
/// fixed name where the command failed or printed nothing.
pub fn unix_host_identifier(output: Option<&str>) -> (r: String)
    ensures
        r@ == unix_identifier(
            match output {
                Some(text) => Some(text@),
                None => None,
            },
        ),
{
    match output {
        Some(text) => {
            let name: String = trim_text(text);
            if name.as_str().is_empty() {
                "unknown-unix-host".to_owned()
            } else {
                name
            }
        },
        None => "unknown-unix-host".to_owned(),
    }
}

/// The identifier of a Windows host: its computer name, or a fixed name
/// where the system gave none.
pub fn windows_host_identifier(computer_name: Option<String>) -> (r: String)
    ensures
        r@ == match computer_name {
            Some(name) => name@,
            None => "unknown-windows-host"@,
        },
{
    match computer_name {
        Some(name) => name,
        None => "unknown-windows-host".to_owned(),
    }
}

} // verus!
