//! The operating systems the launcher runs on.

use vstd::prelude::*;

verus! {

/// The operating system the launcher was built for. Every rule that differs
/// between systems takes this value instead of being compiled per system.
#[derive(Clone, Copy, Debug, PartialEq, Eq, Structural)]
pub enum Platform {
    Windows,
    Linux,
    MacOs,
}

/// File name of the backend executable on `platform`.
pub open spec fn backend_file_name_spec(platform: Platform) -> Seq<char> {
    if platform == Platform::Windows {
        "lish-backend.exe"@
    } else {
        "lish-backend"@
    }
}

impl Platform {
    /// File name of the backend executable: with the `.exe` suffix on
    /// Windows, without it elsewhere.
    pub fn backend_file_name(self) -> (name: &'static str)
        ensures
            name@ == backend_file_name_spec(self),
    {
        match self {
            Platform::Windows => "lish-backend.exe",
            _ => "lish-backend",
        }
    }
}

} // verus!
