//! The platforms a target path can be written for.

use vstd::prelude::*;

verus! {

/// A supported operating system, the key under which an entry lists its target.
#[derive(Copy, Clone, Debug, PartialEq, Eq, Hash, Structural)]
pub enum OS {
    Linux,
    Windows,
    MacOS,
}

/// Whether two pieces of text hold the same characters.
pub fn same_text(a: &str, b: &str) -> (r: bool)
    ensures
        r == (a@ == b@),
{
    let x = a.to_owned();
    let y = b.to_owned();
    x == y
}

impl OS {
    /// The lower-case name by which a host and a config document call the platform.
    pub open spec fn name_text(self) -> Seq<char> {
        match self {
            OS::Linux => "linux"@,
            OS::Windows => "windows"@,
            OS::MacOS => "macos"@,
        }
    }

    /// The platform that a lower-case name stands for, if it is a supported one.
    pub open spec fn named(name: Seq<char>) -> Option<OS> {
        if name == "linux"@ {
            Some(OS::Linux)
        } else if name == "macos"@ {
            Some(OS::MacOS)
        } else if name == "windows"@ {
            Some(OS::Windows)
        } else {
            None
        }
    }

    /// The name as it is shown to a user.
    pub open spec fn display_text(self) -> Seq<char> {
        match self {
            OS::Linux => "Linux"@,
            OS::Windows => "Windows"@,
            OS::MacOS => "MacOS"@,
        }
    }

    /// Maps the host's name for its operating system to a platform. Any other
    /// name than `linux`, `macos` and `windows` has none.
    pub fn from_name(name: &str) -> (r: Option<OS>)
        ensures
            r == OS::named(name@),
    {
        if same_text(name, "linux") {
            Some(OS::Linux)
        } else if same_text(name, "macos") {
            Some(OS::MacOS)
        } else if same_text(name, "windows") {
            Some(OS::Windows)
        } else {
            None
        }
    }

    /// The lower-case name of the platform.
    pub fn name(&self) -> (r: &'static str)
        ensures
            r@ == self.name_text(),
    {
        match self {
            OS::Linux => "linux",
            OS::Windows => "windows",
            OS::MacOS => "macos",
        }
    }

    /// The platform's name for display: `Linux`, `Windows` or `MacOS`.
    pub fn to_string(&self) -> (r: String)
        ensures
            r@ == self.display_text(),
    {
        match self {
            OS::Linux => "Linux".to_owned(),
            OS::Windows => "Windows".to_owned(),
            OS::MacOS => "MacOS".to_owned(),
        }
    }
}

/// Every platform is found again by its own name.
pub proof fn lemma_name_round_trip(os: OS)
    ensures
        OS::named(os.name_text()) == Some(os),
{
    reveal_strlit("linux");
    reveal_strlit("macos");
    reveal_strlit("windows");
    assert("linux"@.len() == 5);
    assert("macos"@.len() == 5);
    assert("windows"@.len() == 7);
    assert("linux"@[0] == 'l');
    assert("macos"@[0] == 'm');
}

} // verus!
