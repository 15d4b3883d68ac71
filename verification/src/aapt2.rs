//! Command descriptors for the external resource-packaging tool (AAPT2).
//!
//! The tool splits packaging into independent stages. [`Aapt2`] is a
//! stateless factory with one method per stage; each method returns an
//! immutable value object capturing one invocation. Nothing here performs
//! I/O: turning a descriptor into a running process is a collaborator's
//! concern, and each descriptor exposes its exact argument list through
//! `arguments`.

use vstd::prelude::*;

use crate::strings::{clone_string_vec, views_of};

verus! {

/// The facet of a built package that a dump invocation prints.
#[derive(Clone, Copy, Debug, PartialEq, Eq, Structural)]
pub enum SubCommand {
    Badging,
    Permissions,
    Resources,
    Strings,
    StyleParents,
    XmlTree,
}

/// The word naming a dump facet on the tool's command line.
pub open spec fn subcommand_word(sc: SubCommand) -> Seq<char> {
    match sc {
        SubCommand::Badging => "badging"@,
        SubCommand::Permissions => "permissions"@,
        SubCommand::Resources => "resources"@,
        SubCommand::Strings => "strings"@,
        SubCommand::StyleParents => "styleparents"@,
        SubCommand::XmlTree => "xmltree"@,
    }
}

impl SubCommand {
    /// The command-line spelling of this facet.
    pub fn as_str(self) -> (r: &'static str)
        ensures
            r@ == subcommand_word(self),
    {
        match self {
            SubCommand::Badging => "badging",
            SubCommand::Permissions => "permissions",
            SubCommand::Resources => "resources",
            SubCommand::Strings => "strings",
            SubCommand::StyleParents => "styleparents",
            SubCommand::XmlTree => "xmltree",
        }
    }
}

/// One `compile` invocation: turns raw resource files into intermediate
/// compiled form, one input at a time.
pub struct Aapt2Compile {
    pub input_res: Vec<String>,
    pub compiled_res: String,
}

/// The argument list of a `compile` invocation.
pub open spec fn compile_args(inputs: Seq<Seq<char>>, out: Seq<char>) -> Seq<Seq<char>> {
    seq!["compile"@] + inputs + seq!["-o"@, out]
}

impl Aapt2Compile {
    pub fn new(input_res: &Vec<String>, compiled_res: &String) -> (r: Aapt2Compile)
        ensures
            views_of(r.input_res@) == views_of(input_res@),
            r.compiled_res@ == compiled_res@,
    {
        Aapt2Compile { input_res: clone_string_vec(input_res), compiled_res: compiled_res.clone() }
    }

    /// The full argument list of this invocation.
    pub fn arguments(&self) -> (r: Vec<String>)
        ensures
            views_of(r@) == compile_args(views_of(self.input_res@), self.compiled_res@),
    {
        let mut r: Vec<String> = Vec::new();
        r.push(String::from_str("compile"));
        let mut inputs = clone_string_vec(&self.input_res);
        r.append(&mut inputs);
        r.push(String::from_str("-o"));
        r.push(self.compiled_res.clone());
        proof {
            assert(views_of(r@) =~= compile_args(views_of(self.input_res@), self.compiled_res@));
        }
        r
    }
}

/// One `link` invocation: merges compiled intermediates and a manifest
/// into a final package.
pub struct Aapt2Link {
    pub inputs: Vec<String>,
    pub output_apk: String,
    pub manifest: String,
}

/// The argument list of a `link` invocation.
pub open spec fn link_args(
    inputs: Seq<Seq<char>>,
    output_apk: Seq<char>,
    manifest: Seq<char>,
) -> Seq<Seq<char>> {
    seq!["link"@] + inputs + seq!["-o"@, output_apk, "--manifest"@, manifest]
}

impl Aapt2Link {
    pub fn new(inputs: &Vec<String>, output_apk: &String, manifest: &String) -> (r: Aapt2Link)
        ensures
            views_of(r.inputs@) == views_of(inputs@),
            r.output_apk@ == output_apk@,
            r.manifest@ == manifest@,
    {
        Aapt2Link {
            inputs: clone_string_vec(inputs),
            output_apk: output_apk.clone(),
            manifest: manifest.clone(),
        }
    }

    /// The full argument list of this invocation.
    pub fn arguments(&self) -> (r: Vec<String>)
        ensures
            views_of(r@) == link_args(views_of(self.inputs@), self.output_apk@, self.manifest@),
    {
        let mut r: Vec<String> = Vec::new();
        r.push(String::from_str("link"));
        let mut inputs = clone_string_vec(&self.inputs);
        r.append(&mut inputs);
        r.push(String::from_str("-o"));
        r.push(self.output_apk.clone());
        r.push(String::from_str("--manifest"));
        r.push(self.manifest.clone());
        proof {
            assert(views_of(r@) =~= link_args(
                views_of(self.inputs@),
                self.output_apk@,
                self.manifest@,
            ));
        }
        r
    }
}

/// One `dump` invocation: prints structured information about a built
/// package.
pub struct Aapt2Dump {
    pub subcommand: SubCommand,
    pub filename_apk: String,
}

/// The argument list of a `dump` invocation.
pub open spec fn dump_args(sc: SubCommand, apk: Seq<char>) -> Seq<Seq<char>> {
    seq!["dump"@, subcommand_word(sc), apk]
}

impl Aapt2Dump {
    pub fn new(subcommand: SubCommand, filename_apk: &String) -> (r: Aapt2Dump)
        ensures
            r.subcommand == subcommand,
            r.filename_apk@ == filename_apk@,
    {
        Aapt2Dump { subcommand, filename_apk: filename_apk.clone() }
    }

    /// The full argument list of this invocation.
    pub fn arguments(&self) -> (r: Vec<String>)
        ensures
            views_of(r@) == dump_args(self.subcommand, self.filename_apk@),
    {
        let mut r: Vec<String> = Vec::new();
        r.push(String::from_str("dump"));
        r.push(String::from_str(self.subcommand.as_str()));
        r.push(self.filename_apk.clone());
        proof {
            assert(views_of(r@) =~= dump_args(self.subcommand, self.filename_apk@));
        }
        r
    }
}

/// One `diff` invocation: reports resource-level differences between
/// packages.
pub struct Aapt2Diff {
    pub files: Vec<String>,
}

/// The argument list of a `diff` invocation.
pub open spec fn diff_args(files: Seq<Seq<char>>) -> Seq<Seq<char>> {
    seq!["diff"@] + files
}

impl Aapt2Diff {
    pub fn new(files: &Vec<String>) -> (r: Aapt2Diff)
        ensures
            views_of(r.files@) == views_of(files@),
    {
        Aapt2Diff { files: clone_string_vec(files) }
    }

    /// The full argument list of this invocation.
    pub fn arguments(&self) -> (r: Vec<String>)
        ensures
            views_of(r@) == diff_args(views_of(self.files@)),
    {
        let mut r: Vec<String> = Vec::new();
        r.push(String::from_str("diff"));
        let mut files = clone_string_vec(&self.files);
        r.append(&mut files);
        proof {
            assert(views_of(r@) =~= diff_args(views_of(self.files@)));
        }
        r
    }
}

/// One `optimize` invocation: applies post-link resource optimizations,
/// producing a new package.
pub struct Aapt2Optimize {
    pub input: String,
    pub output: String,
    pub extra: String,
}

/// The argument list of an `optimize` invocation.
pub open spec fn optimize_args(
    input: Seq<char>,
    output: Seq<char>,
    extra: Seq<char>,
) -> Seq<Seq<char>> {
    seq!["optimize"@, input, "-o"@, output, extra]
}

impl Aapt2Optimize {
    pub fn new(input: &String, output: &String, extra: &String) -> (r: Aapt2Optimize)
        ensures
            r.input@ == input@,
            r.output@ == output@,
            r.extra@ == extra@,
    {
        Aapt2Optimize { input: input.clone(), output: output.clone(), extra: extra.clone() }
    }

    /// The full argument list of this invocation.
    pub fn arguments(&self) -> (r: Vec<String>)
        ensures
            views_of(r@) == optimize_args(self.input@, self.output@, self.extra@),
    {
        let mut r: Vec<String> = Vec::new();
        r.push(String::from_str("optimize"));
        r.push(self.input.clone());
        r.push(String::from_str("-o"));
        r.push(self.output.clone());
        r.push(self.extra.clone());
        proof {
            assert(views_of(r@) =~= optimize_args(self.input@, self.output@, self.extra@));
        }
        r
    }
}

/// One `convert` invocation: toggles a package between its binary and
/// protobuf resource encodings.
pub struct Aapt2Convert {
    pub path: String,
}

/// The argument list of a `convert` invocation.
pub open spec fn convert_args(path: Seq<char>) -> Seq<Seq<char>> {
    seq!["convert"@, path]
}

impl Aapt2Convert {
    pub fn new(path: &String) -> (r: Aapt2Convert)
        ensures
            r.path@ == path@,
    {
        Aapt2Convert { path: path.clone() }
    }

    /// The full argument list of this invocation.
    pub fn arguments(&self) -> (r: Vec<String>)
        ensures
            views_of(r@) == convert_args(self.path@),
    {
        let mut r: Vec<String> = Vec::new();
        r.push(String::from_str("convert"));
        r.push(self.path.clone());
        proof {
            assert(views_of(r@) =~= convert_args(self.path@));
        }
        r
    }
}

/// One `version` invocation: reports the tool's own version.
pub struct Aapt2Version {
    pub version: String,
}

/// The argument list of a `version` invocation.
pub open spec fn version_args(version: Seq<char>) -> Seq<Seq<char>> {
    seq!["version"@, version]
}

impl Aapt2Version {
    pub fn new(version: String) -> (r: Aapt2Version)
        ensures
            r.version@ == version@,
    {
        Aapt2Version { version }
    }

    /// The full argument list of this invocation.
    pub fn arguments(&self) -> (r: Vec<String>)
        ensures
            views_of(r@) == version_args(self.version@),
    {
        let mut r: Vec<String> = Vec::new();
        r.push(String::from_str("version"));
        r.push(self.version.clone());
        proof {
            assert(views_of(r@) =~= version_args(self.version@));
        }
        r
    }
}

/// One `daemon` invocation: starts the tool in persistent batch mode.
pub struct Aapt2Daemon {
    pub trace_folder: String,
}

/// The argument list of a `daemon` invocation.
pub open spec fn daemon_args(trace_folder: Seq<char>) -> Seq<Seq<char>> {
    seq!["daemon"@, trace_folder]
}

impl Aapt2Daemon {
    pub fn new(trace_folder: &String) -> (r: Aapt2Daemon)
        ensures
            r.trace_folder@ == trace_folder@,
    {
        Aapt2Daemon { trace_folder: trace_folder.clone() }
    }

    /// The full argument list of this invocation.
    pub fn arguments(&self) -> (r: Vec<String>)
        ensures
            views_of(r@) == daemon_args(self.trace_folder@),
    {
        let mut r: Vec<String> = Vec::new();
        r.push(String::from_str("daemon"));
        r.push(self.trace_folder.clone());
        proof {
            assert(views_of(r@) =~= daemon_args(self.trace_folder@));
        }
        r
    }
}

/// The stateless factory: one method per stage of the packaging pipeline.
///
/// Descriptors never embed resolved toolchain paths: the packaging tool
/// and the native toolchain are separate external tools, and their path
/// families stay orthogonal.
#[derive(Clone, Copy)]
pub struct Aapt2;

impl Aapt2 {
    /// Compiles resources to be linked into a package.
    pub fn compile(self, input_res: &Vec<String>, compiled_res: &String) -> (r: Aapt2Compile)
        ensures
            views_of(r.input_res@) == views_of(input_res@),
            r.compiled_res@ == compiled_res@,
    {
        Aapt2Compile::new(input_res, compiled_res)
    }

    /// Links compiled resources into a package.
    pub fn link(self, inputs: &Vec<String>, output_apk: &String, manifest: &String) -> (r:
        Aapt2Link)
        ensures
            views_of(r.inputs@) == views_of(inputs@),
            r.output_apk@ == output_apk@,
            r.manifest@ == manifest@,
    {
        Aapt2Link::new(inputs, output_apk, manifest)
    }

    /// Prints information about a package built by the link stage.
    pub fn dump(self, subcommand: SubCommand, filename_apk: &String) -> (r: Aapt2Dump)
        ensures
            r.subcommand == subcommand,
            r.filename_apk@ == filename_apk@,
    {
        Aapt2Dump::new(subcommand, filename_apk)
    }

    /// Prints the differences in resources of two or more packages.
    pub fn diff(self, file: &Vec<String>) -> (r: Aapt2Diff)
        ensures
            views_of(r.files@) == views_of(file@),
    {
        Aapt2Diff::new(file)
    }

    /// Performs resource optimizations on a package.
    pub fn optimize(self, input: &String, output: &String, extra: &String) -> (r: Aapt2Optimize)
        ensures
            r.input@ == input@,
            r.output@ == output@,
            r.extra@ == extra@,
    {
        Aapt2Optimize::new(input, output, extra)
    }

    /// Converts a package between binary and protobuf formats.
    pub fn convert(self, path: &String) -> (r: Aapt2Convert)
        ensures
            r.path@ == path@,
    {
        Aapt2Convert::new(path)
    }

    /// Reports the version of the tool.
    pub fn version(self, version: String) -> (r: Aapt2Version)
        ensures
            r.version@ == version@,
    {
        Aapt2Version::new(version)
    }

    /// Runs the tool in daemon mode; see the daemon session model for the
    /// line protocol spoken on its input stream.
    pub fn daemon(self, trace_folder: &String) -> (r: Aapt2Daemon)
        ensures
            r.trace_folder@ == trace_folder@,
    {
        Aapt2Daemon::new(trace_folder)
    }
}

} // verus!
