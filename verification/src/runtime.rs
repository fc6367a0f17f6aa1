//! The decisions of the JavaScript runtime's glue: how console arguments are
//! printed, at which level native log messages go out, when the pending job
//! queue is drained, and which script runs when no bundle can be read.  The
//! engine itself and the logger are the program's part.
use vstd::prelude::*;
use crate::strings::{i64_to_decimal, join, join_seq, signed_decimal, starts_with, str_eq, strings_view};

verus! {

/// A value passed to `console.log` and the other console methods, as the
/// engine classifies it.
pub enum ConsoleValue {
    /// A string (empty when the engine could not convert it)
    Str(String),
    /// A small integer
    Int(i32),
    /// A floating-point number, already printed by the engine's glue
    Float(String),
    Bool(bool),
    Null,
    Undefined,
    /// Any other value (object, function, symbol, ...)
    Other,
}

/// How one console argument is printed.
pub open spec fn console_text(v: ConsoleValue) -> Seq<char> {
    match v {
        ConsoleValue::Str(s) => s@,
        ConsoleValue::Int(i) => signed_decimal(i as int),
        ConsoleValue::Float(f) => f@,
        ConsoleValue::Bool(b) => if b {
            "true"@
        } else {
            "false"@
        },
        ConsoleValue::Null => "null"@,
        ConsoleValue::Undefined => "undefined"@,
        ConsoleValue::Other => "[object]"@,
    }
}

/// How one console argument is printed.
pub fn console_value_text(v: &ConsoleValue) -> (s: String)
    ensures
        s@ == console_text(*v),
{
    match v {
        ConsoleValue::Str(s) => s.clone(),
        ConsoleValue::Int(i) => i64_to_decimal(*i as i64),
        ConsoleValue::Float(f) => f.clone(),
        ConsoleValue::Bool(b) => if *b {
            String::from_str("true")
        } else {
            String::from_str("false")
        },
        ConsoleValue::Null => String::from_str("null"),
        ConsoleValue::Undefined => String::from_str("undefined"),
        ConsoleValue::Other => String::from_str("[object]"),
    }
}

/// The message of a console call: its arguments printed and separated by
/// single spaces.
pub fn format_console_args(args: &Vec<ConsoleValue>) -> (msg: String)
    ensures
        msg@ == join_seq(args@.map_values(|v: ConsoleValue| console_text(v)), " "@),
{
    let mut parts: Vec<String> = Vec::new();
    let mut i: usize = 0;
    while i < args.len()
        invariant
            i <= args@.len(),
            strings_view(parts@) == args@.take(i as int).map_values(
                |v: ConsoleValue| console_text(v),
            ),
        decreases args@.len() - i,
    {
        let text = console_value_text(&args[i]);
        let ghost before = parts@;
        let ghost want = args@.take(i + 1).map_values(|v: ConsoleValue| console_text(v));
        parts.push(text);
        assert(strings_view(parts@) =~= want) by {
            assert(parts@ == before.push(text));
            assert(strings_view(before).len() == i);
            assert forall|j: int| 0 <= j < i + 1 implies strings_view(parts@)[j] == want[j] by {
                if j < i {
                    assert(parts@[j] == before[j]);
                    assert(strings_view(before)[j] == args@.take(i as int).map_values(
                        |v: ConsoleValue| console_text(v),
                    )[j]);
                }
            }
        }
        i = i + 1;
    }
    assert(args@.take(i as int) =~= args@);
    join(&parts, " ")
}

/// The level of a log message.
#[derive(PartialEq, Eq, Structural, Clone, Copy)]
pub enum LogLevel {
    Debug,
    Info,
    Warn,
    Error,
}

/// The level that native code asks for by name; unknown names log at `Info`.
pub open spec fn log_level_spec(name: Seq<char>) -> LogLevel {
    if name == "debug"@ {
        LogLevel::Debug
    } else if name == "info"@ {
        LogLevel::Info
    } else if name == "warn"@ {
        LogLevel::Warn
    } else if name == "error"@ {
        LogLevel::Error
    } else {
        LogLevel::Info
    }
}

/// The level of a message that native code logs through `rnl_log`.
pub fn native_log_level(name: &str) -> (l: LogLevel)
    ensures
        l == log_level_spec(name@),
{
    if str_eq(name, "debug") {
        LogLevel::Debug
    } else if str_eq(name, "info") {
        LogLevel::Info
    } else if str_eq(name, "warn") {
        LogLevel::Warn
    } else if str_eq(name, "error") {
        LogLevel::Error
    } else {
        LogLevel::Info
    }
}

/// What running one pending job of the engine reported.
pub enum JobOutcome {
    /// A job ran; more may be pending.
    Ran,
    /// No job was pending.
    Idle,
    /// The job failed.
    Failed,
}

/// Whether draining the job queue goes on after `outcome`: only after a
/// job ran; an idle queue or a failed job ends it.
pub fn keep_draining(outcome: &JobOutcome) -> (more: bool)
    ensures
        more == (*outcome is Ran),
{
    match outcome {
        JobOutcome::Ran => true,
        JobOutcome::Idle => false,
        JobOutcome::Failed => false,
    }
}

/// Where the bundle is looked for when no path is given.
pub const DEFAULT_BUNDLE_PATH: &'static str = "target/bundle.js";

/// The script that runs when no bundle path was given and none was found.
pub const BOOTSTRAP_SCRIPT: &'static str = "console.log(\"RNL Runtime ready - no bundle loaded\");";

/// The script to run: what was read; failing that, the bootstrap script
/// when no path was given, and nothing when the given path could not be read.
pub fn bundle_script(path_given: bool, read: Option<String>) -> (script: String)
    ensures
        script@ == match read {
            Some(s) => s@,
            None => if path_given {
                Seq::<char>::empty()
            } else {
                BOOTSTRAP_SCRIPT@
            },
        },
{
    match read {
        Some(s) => s,
        None => if path_given {
            String::new()
        } else {
            String::from_str(BOOTSTRAP_SCRIPT)
        },
    }
}

/// The bundle that the platform program runs: its first argument, unless
/// there is none or it is an option (starts with `-`).
pub fn platform_bundle_path(args: &Vec<String>) -> (path: String)
    ensures
        path@ == (if args@.len() > 1 && !("-"@.is_prefix_of(args@[1]@)) {
            args@[1]@
        } else {
            DEFAULT_BUNDLE_PATH@
        }),
{
    if args.len() > 1 && !starts_with(args[1].as_str(), "-") {
        args[1].clone()
    } else {
        String::from_str(DEFAULT_BUNDLE_PATH)
    }
}

/// The bundle that the headless runner runs: its first argument, if any.
pub fn headless_bundle_path(args: &Vec<String>) -> (path: String)
    ensures
        path@ == (if args@.len() > 1 {
            args@[1]@
        } else {
            DEFAULT_BUNDLE_PATH@
        }),
{
    if args.len() > 1 {
        args[1].clone()
    } else {
        String::from_str(DEFAULT_BUNDLE_PATH)
    }
}

} // verus!
