//! Platform detection: the closed set of supported platform tags and the
//! mapping from a host operating-system name to a tag.

use vstd::prelude::*;
use crate::command::SetupError;

verus! {

/// The closed set of supported platforms.
#[derive(Clone, Copy, PartialEq, Eq, Structural, Debug)]
pub enum Platform {
    Windows,
    Mac,
    Linux,
}

/// The tag string of a platform.
pub open spec fn tag_of(p: Platform) -> Seq<char> {
    match p {
        Platform::Windows => "windows"@,
        Platform::Mac => "mac"@,
        Platform::Linux => "linux"@,
    }
}

/// The platform for a host operating-system name, if it is supported.
pub open spec fn platform_of(os: Seq<char>) -> Option<Platform> {
    if os == "windows"@ {
        Some(Platform::Windows)
    } else if os == "macos"@ {
        Some(Platform::Mac)
    } else if os == "linux"@ {
        Some(Platform::Linux)
    } else {
        None
    }
}

impl Platform {
    /// The tag string of this platform.
    pub fn tag(&self) -> (r: &'static str)
        ensures
            r@ == tag_of(*self),
    {
        match self {
            Platform::Windows => "windows",
            Platform::Mac => "mac",
            Platform::Linux => "linux",
        }
    }
}

/// Maps a host operating-system name to its platform tag; any name outside
/// the supported set is an unsupported-platform failure.
pub fn detect_platform(os: &str) -> (r: Result<Platform, SetupError>)
    ensures
        platform_of(os@) matches Some(p) ==> r == Ok::<Platform, SetupError>(p),
        platform_of(os@) is None ==> r == Err::<Platform, SetupError>(SetupError::UnsupportedPlatform),
{
    let o = String::from_str(os);
    if o == String::from_str("windows") {
        Ok(Platform::Windows)
    } else if o == String::from_str("macos") {
        Ok(Platform::Mac)
    } else if o == String::from_str("linux") {
        Ok(Platform::Linux)
    } else {
        Err(SetupError::UnsupportedPlatform)
    }
}

} // verus!
