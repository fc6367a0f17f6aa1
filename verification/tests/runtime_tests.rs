use rnl::runtime::{
    bundle_script, format_console_args, headless_bundle_path, keep_draining, native_log_level,
    platform_bundle_path, ConsoleValue, JobOutcome, LogLevel, BOOTSTRAP_SCRIPT,
    DEFAULT_BUNDLE_PATH,
};

#[test]
fn console_arguments_are_printed_and_spaced() {
    let args = vec![ConsoleValue::Str("1 + 2 =".to_string()), ConsoleValue::Int(3)];
    assert_eq!(format_console_args(&args), "1 + 2 = 3");
    let args = vec![
        ConsoleValue::Bool(true),
        ConsoleValue::Bool(false),
        ConsoleValue::Null,
        ConsoleValue::Undefined,
        ConsoleValue::Other,
        ConsoleValue::Float("2.5".to_string()),
        ConsoleValue::Int(-17),
        ConsoleValue::Str(String::new()),
    ];
    assert_eq!(format_console_args(&args), "true false null undefined [object] 2.5 -17 ");
    assert_eq!(format_console_args(&Vec::new()), "");
}

#[test]
fn native_log_levels() {
    assert!(native_log_level("debug") == LogLevel::Debug);
    assert!(native_log_level("info") == LogLevel::Info);
    assert!(native_log_level("warn") == LogLevel::Warn);
    assert!(native_log_level("error") == LogLevel::Error);
    assert!(native_log_level("verbose") == LogLevel::Info);
    assert!(native_log_level("ERROR") == LogLevel::Info);
}

#[test]
fn the_job_queue_is_drained_while_jobs_run() {
    assert!(keep_draining(&JobOutcome::Ran));
    assert!(!keep_draining(&JobOutcome::Idle));
    assert!(!keep_draining(&JobOutcome::Failed));
}

#[test]
fn which_script_runs() {
    assert_eq!(bundle_script(true, Some("app()".to_string())), "app()");
    assert_eq!(bundle_script(false, Some("app()".to_string())), "app()");
    assert_eq!(bundle_script(true, None), "");
    assert_eq!(bundle_script(false, None), BOOTSTRAP_SCRIPT);
    assert_eq!(BOOTSTRAP_SCRIPT, "console.log(\"RNL Runtime ready - no bundle loaded\");");
}

#[test]
fn bundle_paths_from_arguments() {
    let args = |v: &[&str]| v.iter().map(|s| s.to_string()).collect::<Vec<String>>();
    assert_eq!(platform_bundle_path(&args(&["app", "dist/app.js"])), "dist/app.js");
    assert_eq!(platform_bundle_path(&args(&["app", "--verbose"])), DEFAULT_BUNDLE_PATH);
    assert_eq!(platform_bundle_path(&args(&["app"])), "target/bundle.js");
    assert_eq!(headless_bundle_path(&args(&["headless", "-x.js"])), "-x.js");
    assert_eq!(headless_bundle_path(&args(&["headless"])), "target/bundle.js");
}
