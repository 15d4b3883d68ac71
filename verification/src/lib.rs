//! Build-orchestration core of a cross-platform mobile packaging tool.
//!
//! The crate locates native cross-compilation toolchains on disk, builds
//! command descriptors for the external resource-packaging tool, models the
//! packaging tool's persistent daemon mode, and composes build steps into a
//! dependency-typed execution pipeline. All path and protocol computations
//! are pure: callers supply environment values and filesystem knowledge as
//! plain data, and perform the actual probing and process I/O themselves.

use vstd::prelude::*;

pub mod aapt2;
pub mod daemon;
pub mod error;
pub mod graph;
pub mod manifest;
pub mod metadata;
pub mod ndk;
pub mod pathset;
pub mod strings;
pub mod version;

verus! {

} // verus!
