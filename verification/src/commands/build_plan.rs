//! `rnl build`: which platforms a build targets, where its outputs go, how
//! esbuild is invoked, and how pkg-config's flags are divided between the
//! compiler and the linker.  Running the tools is the program's part.
use vstd::prelude::*;
use crate::commands::add::{platform_kind, platform_kind_spec, PlatformKind};
use crate::commands::init::requested_platforms;
use crate::config::{enabled_platform_names, Config};
use crate::strings::{
    contains_seq, contains_text, debug_quoted, debug_str, join, join_seq, split, split_whitespace,
    starts_with, str_eq, strings_view, trim, words_seq,
};

verus! {

/// Why a build could not start.
pub enum BuildError {
    /// A requested platform is not enabled in `rnl.toml`.
    PlatformNotEnabled { platform: String, enabled: Vec<String> },
    /// The platform is not one that RNL builds for.
    UnknownPlatform(String),
}

/// How `{:?}` prints a list of strings: `["a", "b"]`.
pub open spec fn debug_list(items: Seq<Seq<char>>) -> Seq<char> {
    "["@ + join_seq(items.map_values(|s: Seq<char>| debug_str(s)), ", "@) + "]"@
}

impl BuildError {
    pub open spec fn message_spec(&self) -> Seq<char> {
        match self {
            BuildError::PlatformNotEnabled { platform, enabled } => "Platform '"@ + platform@
                + "' is not enabled in rnl.toml. Enabled platforms: "@ + debug_list(
                strings_view(enabled@),
            ),
            BuildError::UnknownPlatform(p) => "Unknown platform: "@ + p@,
        }
    }

    /// The error message.
    pub fn message(&self) -> (m: String)
        ensures
            m@ == self.message_spec(),
    {
        match self {
            BuildError::PlatformNotEnabled { platform, enabled } => {
                let mut m = String::from_str("Platform '");
                m.append(platform.as_str());
                m.append("' is not enabled in rnl.toml. Enabled platforms: ");
                let list = debug_string_list(enabled);
                m.append(list.as_str());
                m
            },
            BuildError::UnknownPlatform(p) => {
                let mut m = String::from_str("Unknown platform: ");
                m.append(p.as_str());
                m
            },
        }
    }
}

/// `items` printed as `{:?}` prints a list of strings.
fn debug_string_list(items: &Vec<String>) -> (r: String)
    ensures
        r@ == debug_list(strings_view(items@)),
{
    let mut quoted: Vec<String> = Vec::new();
    let mut i: usize = 0;
    while i < items.len()
        invariant
            i <= items.len(),
            strings_view(quoted@) == strings_view(items@).take(i as int).map_values(
                |s: Seq<char>| debug_str(s),
            ),
        decreases items.len() - i,
    {
        let q = debug_quoted(items[i].as_str());
        let ghost before = quoted@;
        let ghost want = strings_view(items@).take(i + 1).map_values(|s: Seq<char>| debug_str(s));
        quoted.push(q);
        assert(strings_view(quoted@) =~= want) by {
            assert(quoted@ == before.push(q));
            assert(strings_view(before).len() == i);
            assert forall|j: int| 0 <= j < i + 1 implies strings_view(quoted@)[j] == want[j] by {
                if j < i {
                    assert(quoted@[j] == before[j]);
                    assert(strings_view(before)[j] == strings_view(items@).take(i as int).map_values(
                        |s: Seq<char>| debug_str(s),
                    )[j]);
                } else {
                    assert(strings_view(items@)[j] == items@[j]@);
                }
            }
        }
        i = i + 1;
    }
    assert(strings_view(items@).take(i as int) =~= strings_view(items@));
    let mut r = String::from_str("[");
    let body = join(&quoted, ", ");
    r.append(body.as_str());
    r.append("]");
    r
}

/// The platforms that `rnl build --platform option` targets: all enabled
/// ones for `all`, else the comma-separated names, each trimmed.
pub open spec fn target_platforms_spec(option: Seq<char>, config: Config) -> Seq<Seq<char>> {
    if option == "all"@ {
        enabled_platform_names(config.platforms)
    } else {
        requested_platforms(option)
    }
}

/// The platforms that a build targets, or the first requested platform
/// that is not enabled.
pub fn target_platforms(config: &Config, option: &str) -> (r: Result<Vec<String>, BuildError>)
    ensures
        match r {
            Ok(names) => strings_view(names@) == target_platforms_spec(option@, *config)
                && forall|i: int|
                0 <= i < names@.len() ==> enabled_platform_names(config.platforms).contains(
                    #[trigger] names@[i]@,
                ),
            Err(BuildError::PlatformNotEnabled { platform, enabled }) => {
                let wanted = requested_platforms(option@);
                let on = enabled_platform_names(config.platforms);
                &&& option@ != "all"@
                &&& strings_view(enabled@) == on
                &&& exists|i: int|
                    0 <= i < wanted.len() && wanted[i] == platform@ && !on.contains(platform@)
                        && forall|j: int| 0 <= j < i ==> on.contains(#[trigger] wanted[j])
            },
            Err(BuildError::UnknownPlatform(_)) => false,
        },
{
    let enabled_strs = config.enabled_platforms();
    let ghost on = enabled_platform_names(config.platforms);
    let mut enabled: Vec<String> = Vec::new();
    let mut k: usize = 0;
    while k < enabled_strs.len()
        invariant
            k <= enabled_strs@.len(),
            enabled_strs@.map_values(|p: &str| p@) == on,
            strings_view(enabled@) == on.take(k as int),
        decreases enabled_strs@.len() - k,
    {
        let ghost before = enabled@;
        let item = String::from_str(enabled_strs[k]);
        assert(item@ == on[k as int]);
        enabled.push(item);
        assert(strings_view(enabled@) =~= on.take(k + 1)) by {
            assert(enabled@ == before.push(item));
            assert(strings_view(before).len() == k);
        }
        k = k + 1;
    }
    assert(on.take(k as int) =~= on);
    if str_eq(option, "all") {
        proof {
            assert forall|i: int| 0 <= i < enabled@.len() implies on.contains(
                #[trigger] enabled@[i]@,
            ) by {
                assert(strings_view(enabled@)[i] == enabled@[i]@);
            }
        }
        return Ok(enabled);
    }
    let pieces = split(option, ',');
    let ghost wanted = requested_platforms(option@);
    let mut names: Vec<String> = Vec::new();
    let mut i: usize = 0;
    while i < pieces.len()
        invariant
            i <= pieces@.len(),
            wanted == requested_platforms(option@),
            option@ != "all"@,
            wanted.len() == pieces@.len(),
            strings_view(pieces@) == crate::strings::split_seq(option@, ','),
            strings_view(enabled@) == on,
            on == enabled_platform_names(config.platforms),
            strings_view(names@) == wanted.take(i as int),
            names@.len() == i,
            forall|j: int| 0 <= j < names@.len() ==> on.contains(#[trigger] names@[j]@),
        decreases pieces@.len() - i,
    {
        let name = trim(pieces[i].as_str());
        assert(name@ == wanted[i as int]);
        if !crate::strings::contains_string(&enabled, name.as_str()) {
            proof {
                assert forall|j: int| 0 <= j < i implies on.contains(#[trigger] wanted[j]) by {
                    assert(strings_view(names@)[j] == wanted.take(i as int)[j]);
                    assert(strings_view(names@)[j] == names@[j]@);
                }
            }
            assert(option@ != "all"@);
            assert(!on.contains(name@));
            assert(wanted[i as int] == name@);
            return Err(BuildError::PlatformNotEnabled { platform: name, enabled });
        }
        let ghost before = names@;
        names.push(name);
        assert(strings_view(names@) =~= wanted.take(i + 1)) by {
            assert(names@ == before.push(name));
            assert(strings_view(before).len() == before.len());
            assert forall|j: int| 0 <= j < i implies strings_view(names@)[j] == wanted[j] by {
                assert(names@[j] == before[j]);
                assert(strings_view(before)[j] == wanted.take(i as int)[j]);
            }
        }
        i = i + 1;
    }
    assert(wanted.take(i as int) =~= wanted);
    Ok(names)
}

/// The platform that `name` builds, or the error for a platform RNL does not build.
pub fn build_target(name: &str) -> (r: Result<PlatformKind, BuildError>)
    ensures
        match r {
            Ok(k) => platform_kind_spec(name@) == Some(k),
            Err(BuildError::UnknownPlatform(p)) => platform_kind_spec(name@) is None && p@ == name@,
            Err(BuildError::PlatformNotEnabled { .. }) => false,
        },
{
    match platform_kind(name) {
        Some(k) => Ok(k),
        None => Err(BuildError::UnknownPlatform(String::from_str(name))),
    }
}

/// The name of a build mode.
pub open spec fn mode_name(release: bool) -> Seq<char> {
    if release {
        "release"@
    } else {
        "debug"@
    }
}

/// `release` or `debug`.
pub fn build_mode(release: bool) -> (m: &'static str)
    ensures
        m@ == mode_name(release),
{
    if release {
        "release"
    } else {
        "debug"
    }
}

/// The directory of a platform's build outputs: `target/<platform>/<mode>`.
pub open spec fn output_dir_spec(platform: Seq<char>, release: bool) -> Seq<char> {
    "target/"@ + platform + "/"@ + mode_name(release)
}

/// The directory of a platform's build outputs.
pub fn output_dir(platform: &str, release: bool) -> (d: String)
    ensures
        d@ == output_dir_spec(platform@, release),
{
    let mut d = String::from_str("target/");
    d.append(platform);
    d.append("/");
    d.append(build_mode(release));
    d
}

/// Where the linked application lands: `target/<platform>/<mode>/<name>`.
pub fn binary_path(platform: &str, release: bool, name: &str) -> (p: String)
    ensures
        p@ == output_dir_spec(platform@, release) + "/"@ + name@,
{
    let mut p = output_dir(platform, release);
    p.append("/");
    p.append(name);
    p
}

/// Where the core library of a build mode lands.
pub fn librnl_path(release: bool) -> (p: String)
    ensures
        p@ == "core/target/"@ + mode_name(release) + "/librnl.a"@,
{
    let mut p = String::from_str("core/target/");
    p.append(build_mode(release));
    p.append("/librnl.a");
    p
}

/// The arguments with which esbuild bundles `src/index.tsx`.
pub open spec fn esbuild_args_spec(release: bool) -> Seq<Seq<char>> {
    seq![
        "src/index.tsx"@,
        "--bundle"@,
        "--outfile=target/bundle.js"@,
        "--format=iife"@,
        "--platform=neutral"@,
        "--loader:.tsx=tsx"@,
        "--loader:.ts=ts"@,
        if release {
            "--minify"@
        } else {
            "--sourcemap"@
        },
    ]
}

/// The arguments with which esbuild bundles the application.
pub fn esbuild_args(release: bool) -> (args: Vec<String>)
    ensures
        strings_view(args@) == esbuild_args_spec(release),
{
    let mut args: Vec<String> = Vec::new();
    args.push(String::from_str("src/index.tsx"));
    args.push(String::from_str("--bundle"));
    args.push(String::from_str("--outfile=target/bundle.js"));
    args.push(String::from_str("--format=iife"));
    args.push(String::from_str("--platform=neutral"));
    args.push(String::from_str("--loader:.tsx=tsx"));
    args.push(String::from_str("--loader:.ts=ts"));
    if release {
        args.push(String::from_str("--minify"));
    } else {
        args.push(String::from_str("--sourcemap"));
    }
    assert(strings_view(args@) =~= esbuild_args_spec(release));
    args
}

/// Whether a failed esbuild runner's error output says that the runner or
/// esbuild is missing, so that the next runner is tried.
pub fn runner_missing(stderr: &str) -> (r: bool)
    ensures
        r == (contains_seq(stderr@, "not found"@) || contains_seq(stderr@, "No such file"@)),
{
    contains_text(stderr, "not found") || contains_text(stderr, "No such file")
}

/// Whether a pkg-config flag is for the compiler (`-I`, `-D`).
pub open spec fn is_compiler_flag(w: Seq<char>) -> bool {
    "-I"@.is_prefix_of(w) || "-D"@.is_prefix_of(w)
}

/// Whether a pkg-config flag is for the linker (`-l`, `-L`).
pub open spec fn is_linker_flag(w: Seq<char>) -> bool {
    "-l"@.is_prefix_of(w) || "-L"@.is_prefix_of(w)
}

/// Divides pkg-config's output into the compiler flags and the linker flags,
/// each kept in order and joined with single spaces; other words are dropped.
pub fn split_pkg_config_flags(flags: &str) -> (r: (String, String))
    ensures
        r.0@ == join_seq(words_seq(flags@).filter(|w: Seq<char>| is_compiler_flag(w)), " "@),
        r.1@ == join_seq(words_seq(flags@).filter(|w: Seq<char>| is_linker_flag(w)), " "@),
{
    let words = split_whitespace(flags);
    let ghost ws = words_seq(flags@);
    let ghost cf = |w: Seq<char>| is_compiler_flag(w);
    let ghost lf = |w: Seq<char>| is_linker_flag(w);
    let mut cflags: Vec<String> = Vec::new();
    let mut libs: Vec<String> = Vec::new();
    let mut i: usize = 0;
    while i < words.len()
        invariant
            i <= words@.len(),
            strings_view(words@) == ws,
            cf == (|w: Seq<char>| is_compiler_flag(w)),
            lf == (|w: Seq<char>| is_linker_flag(w)),
            strings_view(cflags@) == ws.take(i as int).filter(cf),
            strings_view(libs@) == ws.take(i as int).filter(lf),
        decreases words@.len() - i,
    {
        let w = words[i].as_str();
        let ghost next = ws.take(i + 1);
        proof {
            assert(next =~= ws.take(i as int).push(ws[i as int]));
            ws.take(i as int).lemma_filter_push(ws[i as int], cf);
            ws.take(i as int).lemma_filter_push(ws[i as int], lf);
        }
        assert(w@ == ws[i as int]);
        if starts_with(w, "-I") || starts_with(w, "-D") {
            let ghost before = cflags@;
            cflags.push(String::from_str(w));
            assert(strings_view(cflags@) =~= strings_view(before).push(w@));
        }
        if starts_with(w, "-l") || starts_with(w, "-L") {
            let ghost before = libs@;
            libs.push(String::from_str(w));
            assert(strings_view(libs@) =~= strings_view(before).push(w@));
        }
        i = i + 1;
    }
    assert(ws.take(i as int) =~= ws);
    (join(&cflags, " "), join(&libs, " "))
}

/// The optimisation flags of the C++ compiler for a build mode.
pub fn cpp_optimization(release: bool) -> (f: &'static str)
    ensures
        f@ == (if release {
            "-O2"@
        } else {
            "-O0 -g"@
        }),
{
    if release {
        "-O2"
    } else {
        "-O0 -g"
    }
}

/// The optimisation flags of the Swift compiler for a build mode.
pub fn swift_optimization(release: bool) -> (f: &'static str)
    ensures
        f@ == (if release {
            "-O"@
        } else {
            "-Onone -g"@
        }),
{
    if release {
        "-O"
    } else {
        "-Onone -g"
    }
}

} // verus!
