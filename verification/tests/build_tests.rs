use rnl::cli::{build_opts_for_run, RunOpts};
use rnl::commands::add::PlatformKind;
use rnl::commands::build_plan::{
    binary_path, build_mode, build_target, cpp_optimization, esbuild_args, librnl_path,
    output_dir, runner_missing, split_pkg_config_flags, swift_optimization, target_platforms,
    BuildError,
};
use rnl::commands::clean_paths;
use rnl::config::Config;

#[test]
fn all_targets_every_enabled_platform() {
    let config = Config::default_for_project("app", &["macos", "linux"]);
    assert_eq!(target_platforms(&config, "all").ok().unwrap(), vec!["linux", "macos"]);
    assert_eq!(target_platforms(&config, " macos , linux").ok().unwrap(), vec!["macos", "linux"]);
}

#[test]
fn a_platform_that_is_not_enabled_is_refused() {
    let config = Config::default_for_project("app", &["linux"]);
    match target_platforms(&config, "linux,windows") {
        Err(e @ BuildError::PlatformNotEnabled { .. }) => assert_eq!(
            e.message(),
            "Platform 'windows' is not enabled in rnl.toml. Enabled platforms: [\"linux\"]"
        ),
        _ => panic!("expected a refusal"),
    }
    let none = Config::default_for_project("app", &[]);
    match target_platforms(&none, "linux") {
        Err(e) => assert_eq!(
            e.message(),
            "Platform 'linux' is not enabled in rnl.toml. Enabled platforms: []"
        ),
        _ => panic!("expected a refusal"),
    }
    assert!(target_platforms(&config, "").is_err());
}

#[test]
fn build_targets_by_name() {
    assert!(matches!(build_target("windows"), Ok(PlatformKind::Windows)));
    match build_target("beos") {
        Err(e) => assert_eq!(e.message(), "Unknown platform: beos"),
        _ => panic!("expected an unknown platform"),
    }
}

#[test]
fn output_locations() {
    assert_eq!(build_mode(true), "release");
    assert_eq!(build_mode(false), "debug");
    assert_eq!(output_dir("linux", false), "target/linux/debug");
    assert_eq!(binary_path("macos", true, "my-app"), "target/macos/release/my-app");
    assert_eq!(librnl_path(false), "core/target/debug/librnl.a");
    assert_eq!(cpp_optimization(true), "-O2");
    assert_eq!(cpp_optimization(false), "-O0 -g");
    assert_eq!(swift_optimization(true), "-O");
    assert_eq!(swift_optimization(false), "-Onone -g");
    assert_eq!(clean_paths(), vec!["target", "dist", "core/target", "node_modules/.cache"]);
}

#[test]
fn esbuild_arguments() {
    let release = esbuild_args(true);
    assert_eq!(
        release,
        vec![
            "src/index.tsx",
            "--bundle",
            "--outfile=target/bundle.js",
            "--format=iife",
            "--platform=neutral",
            "--loader:.tsx=tsx",
            "--loader:.ts=ts",
            "--minify",
        ]
    );
    assert_eq!(esbuild_args(false).last().unwrap(), "--sourcemap");
    assert!(runner_missing("bunx: command not found"));
    assert!(runner_missing("spawn esbuild: No such file or directory"));
    assert!(!runner_missing("error: Could not resolve \"rnl\""));
}

#[test]
fn pkg_config_flags_are_divided() {
    let (cflags, libs) = split_pkg_config_flags(
        "-I/usr/include/gtk-4.0 -pthread -DGDK_DISABLE_DEPRECATED  -lgtk-4 -L/usr/lib\n",
    );
    assert_eq!(cflags, "-I/usr/include/gtk-4.0 -DGDK_DISABLE_DEPRECATED");
    assert_eq!(libs, "-lgtk-4 -L/usr/lib");
    assert_eq!(split_pkg_config_flags(""), (String::new(), String::new()));
}

#[test]
fn run_builds_natively_with_its_options() {
    let run = RunOpts { platform: "linux".to_string(), release: true, verbose: false };
    let b = build_opts_for_run(&run);
    assert_eq!(b.platform, "linux");
    assert!(b.release && !b.bundle_only && !b.verbose);
}
