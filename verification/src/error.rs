//! Typed error surface of the toolchain resolver.
//!
//! Every resolver failure is reported as a value of [`AndroidError`]; no
//! operation silently substitutes a default for a missing toolchain
//! component. Errors that name a path carry the exact path that was probed.

use vstd::prelude::*;

verus! {

/// A failure of toolchain resolution or of the surrounding build step.
#[derive(Debug)]
pub enum AndroidError {
    /// No toolchain-root environment variable was set and no bundled
    /// toolchain directory exists under the supplied SDK root.
    AndroidNdkNotFound,
    /// A host identification string was available but matched no supported
    /// host platform; carries the string verbatim.
    UnsupportedHost(String),
    /// No host identification was available at all.
    UnsupportedTarget,
    /// An expected file or directory is absent; carries the probed path.
    PathNotFound(String),
    /// No per-API-level system library directory exists within the scanned
    /// bounds; carries the requested minimum API level.
    PlatformNotFound(u32),
}

impl AndroidError {
    /// A short human-readable description of the failure.
    pub fn describe(&self) -> (r: String)
        ensures
            r@.len() > 0,
    {
        let r = match self {
            AndroidError::AndroidNdkNotFound => "Android NDK installation not found",
            AndroidError::UnsupportedHost(_) => "unsupported host platform",
            AndroidError::UnsupportedTarget => "host platform could not be determined",
            AndroidError::PathNotFound(_) => "expected path not found",
            AndroidError::PlatformNotFound(_) => "platform library directory not found",
        };
        proof {
            reveal_strlit("Android NDK installation not found");
            reveal_strlit("unsupported host platform");
            reveal_strlit("expected path not found");
            reveal_strlit("host platform could not be determined");
            reveal_strlit("platform library directory not found");
        }
        String::from_str(r)
    }
}

} // verus!
