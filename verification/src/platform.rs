//! The kinds of system that the application runs on.

use vstd::prelude::*;

verus! {

/// The kind of system.
#[derive(Clone, Copy, Debug, PartialEq, Eq, Structural)]
pub enum Platform {
    Windows,
    Macos,
    Unix,
}

/// What the interface is told about the system.
#[derive(Debug)]
pub struct SystemInfo {
    pub system: String,
}

impl Platform {
    /// The name by which the interface knows the platform.
    pub open spec fn name_text(self) -> Seq<char> {
        match self {
            Platform::Windows => "windows"@,
            Platform::Macos => "macos"@,
            Platform::Unix => "unix"@,
        }
    }

    /// The name by which the interface knows the platform.
    pub fn name(self) -> (text: String)
        ensures
            text@ == self.name_text(),
    {
        match self {
            Platform::Windows => "windows".to_owned(),
            Platform::Macos => "macos".to_owned(),
            Platform::Unix => "unix".to_owned(),
        }
    }

    /// What separates the parts of a path on the platform.
    pub open spec fn separator_text(self) -> Seq<char> {
        match self {
            Platform::Windows => "\\"@,
            _ => "/"@,
        }
    }

    /// The program that a shell is launched with where nothing else is
    /// configured.
    pub open spec fn shell_text(self) -> Seq<char> {
        match self {
            Platform::Windows => "powershell.exe"@,
            _ => "bash"@,
        }
    }
}

/// What the interface is told about a system of kind `platform`.
pub fn get_system_info(platform: Platform) -> (info: SystemInfo)
    ensures
        info.system@ == platform.name_text(),
{
    SystemInfo { system: platform.name() }
}

} // verus!
