//! The command line of the `rnl` tool, as plain data.  Parsing the command
//! line into these values is left to the program that wraps the library.
use vstd::prelude::*;

verus! {

/// The parsed command line.
pub struct Args {
    pub command: Command,
}

/// The subcommands.
pub enum Command {
    /// Create a new RNL project
    Init(InitOpts),
    /// Build the project for specified platform(s)
    Build(BuildOpts),
    /// Build and run the app
    Run(RunOpts),
    /// Add an element or platform to the project
    Add(AddOpts),
    /// Check build environment and dependencies
    Doctor,
    /// Remove build artifacts
    Clean,
}

/// Options of `rnl init`.
pub struct InitOpts {
    /// Name of the project to create
    pub name: String,
    /// Platforms to enable (comma-separated: linux,macos,windows)
    pub platforms: String,
    /// Directory to create the project in (defaults to ./<name>)
    pub dir: Option<String>,
}

/// Options of `rnl build`.
pub struct BuildOpts {
    /// Target platform (linux, macos, windows, or all)
    pub platform: String,
    /// Build in release mode
    pub release: bool,
    /// Only bundle JS, skip native compilation
    pub bundle_only: bool,
    /// Verbose output
    pub verbose: bool,
}

/// Options of `rnl run`.
pub struct RunOpts {
    /// Target platform (linux, macos, windows)
    pub platform: String,
    /// Build in release mode
    pub release: bool,
    /// Verbose output
    pub verbose: bool,
}

/// What `rnl add` adds.
pub enum AddTarget {
    /// Add a new custom element
    Element { name: String },
    /// Add support for a new platform
    Platform { name: String },
}

/// Options of `rnl add`.
pub struct AddOpts {
    pub target: AddTarget,
}

/// The build options that `rnl run` builds with: its platform, mode and
/// verbosity, and a native build (not only the bundle).
pub fn build_opts_for_run(opts: &RunOpts) -> (b: BuildOpts)
    ensures
        b.platform@ == opts.platform@,
        b.release == opts.release,
        !b.bundle_only,
        b.verbose == opts.verbose,
{
    BuildOpts {
        platform: opts.platform.clone(),
        release: opts.release,
        bundle_only: false,
        verbose: opts.verbose,
    }
}

} // verus!
