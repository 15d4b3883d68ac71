//! The manifest-writing build step.
//!
//! A manifest document is supplied wholesale by the caller as rendered
//! text; this step's whole contract is to place that text, followed by a
//! line break, in a fixed-named file under a caller-chosen output
//! directory. The step computes the exact destination path and file
//! contents; the caller performs the write, truncating any previous file
//! so that re-running regenerates rather than accumulates.

use vstd::prelude::*;

use crate::graph::{Shape, UnitSignature};
use crate::strings::push_char;

verus! {

/// A manifest document, carried as its rendered markup text.
#[derive(Debug)]
pub struct AndroidManifest {
    pub rendered: String,
}

impl AndroidManifest {
    /// Wraps rendered manifest text.
    pub fn new(rendered: String) -> (r: AndroidManifest)
        ensures
            r.rendered@ == rendered@,
    {
        AndroidManifest { rendered }
    }
}

/// The fixed file name every generated manifest is written under.
pub open spec fn manifest_file_name() -> Seq<char> {
    "AndroidManifest.xml"@
}

/// The build step that writes a manifest into an output directory.
#[derive(Debug)]
pub struct GenAndroidManifest {
    pub out_dir: String,
    pub manifest: AndroidManifest,
}

impl GenAndroidManifest {
    /// A step that will write `manifest` under `out_dir`.
    pub fn new(out_dir: String, manifest: AndroidManifest) -> (r: GenAndroidManifest)
        ensures
            r.out_dir@ == out_dir@,
            r.manifest.rendered@ == manifest.rendered@,
    {
        GenAndroidManifest { out_dir, manifest }
    }

    /// The exact path of the file this step writes:
    /// `<out_dir>/AndroidManifest.xml`.
    pub fn target_path(&self) -> (r: String)
        ensures
            r@ == self.out_dir@ + "/"@ + manifest_file_name(),
    {
        let mut r = self.out_dir.clone();
        r.append("/");
        r.append("AndroidManifest.xml");
        proof {
            assert(r@ =~= self.out_dir@ + "/"@ + manifest_file_name());
        }
        r
    }

    /// The exact contents this step writes: the rendered manifest followed
    /// by one line break. Writing is deterministic in the step's own
    /// configuration, so a re-run overwrites the file with the same value.
    pub fn file_contents(&self) -> (r: String)
        ensures
            r@ == self.manifest.rendered@.push('\n'),
    {
        let mut r = self.manifest.rendered.clone();
        push_char(&mut r, '\n');
        r
    }

    /// This step consumes nothing from upstream and yields nothing: it is
    /// wired into a pipeline purely for its filesystem effect.
    pub fn signature(&self) -> (r: UnitSignature)
        ensures
            r == (UnitSignature { deps: Shape::Empty, output: Shape::Empty }),
    {
        UnitSignature { deps: Shape::Empty, output: Shape::Empty }
    }
}

} // verus!
