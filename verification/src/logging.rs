//! Where logs go and how verbose they are.
//!
//! Per-event logging on the capture path is a latency hazard, so it is
//! `trace`-level only and off by default; the installed subscriber itself
//! lives with the application.

use vstd::prelude::*;
use crate::config::{LogLevel, filter_text};

verus! {

/// Directory name for log files, created beside the configuration.
pub const LOG_DIR: &'static str = "logs";

/// True when `s` is a single plain path component: non-empty ASCII letters
/// and digits, so it has no separator, drive prefix or `.`/`..` meaning on
/// any platform.
pub open spec fn plain_component(s: Seq<char>) -> bool {
    s.len() > 0 && forall|i: int|
        0 <= i < s.len() ==> ('a' <= #[trigger] s[i] <= 'z' || 'A' <= s[i] <= 'Z' || '0' <= s[i]
            <= '9')
}

/// True when `s` ends with `suffix`.
pub open spec fn ends_with(s: Seq<char>, suffix: Seq<char>) -> bool {
    s.len() >= suffix.len() && s.subrange(s.len() - suffix.len(), s.len() as int) == suffix
}

/// True when `base` has no verbatim prefix (`\\?\` or `//?/`), whose
/// joins Windows rewrites.
pub open spec fn not_verbatim(base: Seq<char>) -> bool {
    base.len() < 3 || base[2] != '?'
}

/// `joined` is `base`, at most one separator (`/` or `\`), then `child`.
pub open spec fn joined_with(joined: Seq<char>, base: Seq<char>, child: Seq<char>) -> bool {
    joined == base + child || joined == base + "/"@ + child || joined == base + "\\"@ + child
}

/// `std::path::Path::join` on paths held as UTF-8 text.
///
/// Claims that the joined path ends with `child`, and, unless `base` has a
/// verbatim prefix, that it is `base` followed by at most one separator and
/// then `child`: a relative component with no separator or prefix is pushed
/// onto `base`, with the platform's separator where `base` does not already
/// end in one. Which separator that is differs between platforms and is left
/// unsaid.
#[verifier::external_body]
fn join_path(base: &str, child: &str) -> (joined: String)
    requires
        plain_component(child@),
    ensures
        ends_with(joined@, child@),
        not_verbatim(base@) ==> joined_with(joined@, base@, child@),
{
    std::path::Path::new(base).join(child).to_string_lossy().into_owned()
}

/// The directory log files are written to: `logs` inside `config_dir`.
pub fn log_directory(config_dir: &str) -> (dir: String)
    ensures
        ends_with(dir@, LOG_DIR@),
        not_verbatim(config_dir@) ==> joined_with(dir@, config_dir@, LOG_DIR@),
{
    proof {
        reveal_strlit("logs");
    }
    join_path(config_dir, LOG_DIR)
}

/// The `tracing` filter directive for a configured level.
pub fn filter_for(level: LogLevel) -> (s: &'static str)
    ensures
        s@ == filter_text(level),
{
    level.as_filter_str()
}


/// `std::io::Error`, carried as the cause of a failure.
#[verifier::external_type_specification]
#[verifier::external_body]
pub struct ExIoError(std::io::Error);

/// Failures while setting up logging.
#[derive(Debug)]
pub enum LogError {
    /// The log directory could not be created.
    Directory {
        /// Directory that could not be created.
        path: String,
        /// Underlying error.
        source: std::io::Error,
    },
    /// A global subscriber was already installed.
    AlreadyInitialised,
}

/// `true` when `s` begins with `prefix`.
pub open spec fn starts_with(s: Seq<char>, prefix: Seq<char>) -> bool {
    s.len() >= prefix.len() && s.subrange(0, prefix.len() as int) == prefix
}

/// The text `std::io::Error`'s `Display` gives.
///
/// Nothing is claimed of it: the message comes from the operating system.
#[verifier::external_body]
fn io_error_text(e: &std::io::Error) -> String {
    e.to_string()
}

impl LogError {
    /// The message shown for this error: for a directory, which one and the
    /// operating system's reason after it.
    pub fn to_string(&self) -> (s: String)
        ensures
            match *self {
                LogError::Directory { path, .. } => starts_with(
                    s@,
                    "cannot create log directory "@ + path@ + ": "@,
                ),
                LogError::AlreadyInitialised => s@ == "logging was already initialised"@,
            },
    {
        proof {
            reveal_strlit("cannot create log directory ");
            reveal_strlit(": ");
            reveal_strlit("logging was already initialised");
        }
        match self {
            LogError::Directory { path, source } => {
                let mut s = String::from_str("cannot create log directory ");
                s.append(path.as_str());
                s.append(": ");
                let ghost head = s@;
                let reason = io_error_text(source);
                s.append(reason.as_str());
                assert(s@.subrange(0, head.len() as int) =~= head);
                s
            },
            LogError::AlreadyInitialised => String::from_str("logging was already initialised"),
        }
    }
}

} // verus!
