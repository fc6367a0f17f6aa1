//! What the `rnl` subcommands compute: files to write, errors to report,
//! and the configuration changes they make.  Touching the file system and
//! running tools is left to the program around the library.
use vstd::prelude::*;

pub mod add;
pub mod build_plan;
pub mod doctor;
pub mod init;

verus! {

/// A file that a command writes: its path relative to the project
/// directory, and its contents.
pub struct GeneratedFile {
    pub path: String,
    pub content: String,
}

/// A file of the given path and contents.
pub fn generated_file(path: &str, content: String) -> (f: GeneratedFile)
    ensures
        f.path@ == path@,
        f.content@ == content@,
{
    GeneratedFile { path: String::from_str(path), content }
}

/// What `rnl clean` removes, relative to the project directory, in order.
pub fn clean_paths() -> (paths: Vec<&'static str>)
    ensures
        paths@.len() == 4,
        paths@[0]@ == "target"@,
        paths@[1]@ == "dist"@,
        paths@[2]@ == "core/target"@,
        paths@[3]@ == "node_modules/.cache"@,
{
    let mut paths: Vec<&'static str> = Vec::new();
    paths.push("target");
    paths.push("dist");
    paths.push("core/target");
    paths.push("node_modules/.cache");
    paths
}

} // verus!
