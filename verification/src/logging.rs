//! Request logging: the line written for a served request and its severity.
use vstd::prelude::*;
use vstd::string::*;
use crate::status::{internal_server_error, render_status, status_text};

verus! {

/// Severity of a log record.
#[derive(Clone, Copy, Debug, PartialEq, Eq, Structural)]
pub enum Level {
    Error,
    Info,
}

/// One line for the server log.
#[derive(Debug, PartialEq, Eq)]
pub struct LogRecord {
    pub level: Level,
    pub line: String,
}

/// What `Duration`'s `Debug` prints, with two digits after the decimal
/// point, for a duration of `secs` seconds and `nanos` nanoseconds.
pub uninterp spec fn elapsed_text(secs: u64, nanos: u32) -> Seq<char>;

/// `Duration::new` followed by the duration's `Debug` with precision 2
/// (`{:.2?}`). With less than a second of nanoseconds nothing is carried
/// into the seconds, so `Duration::new` cannot overflow. The text is a
/// function of the two numbers alone; it is named, not spelled out.
#[verifier::external_body]
fn render_elapsed(secs: u64, nanos: u32) -> (text: String)
    requires
        nanos < 1_000_000_000,
    ensures
        text@ == elapsed_text(secs, nanos),
{
    format!("{:.2?}", std::time::Duration::new(secs, nanos))
}

/// A log line: method, path, elapsed time in parentheses, status, with one
/// space between them.
pub open spec fn spec_log_line(
    method: Seq<char>,
    path: Seq<char>,
    elapsed: Seq<char>,
    status: Seq<char>,
) -> Seq<char> {
    method + " "@ + path + " ("@ + elapsed + ") "@ + status
}

/// Puts a log line together from its four parts, each already printed:
/// `<method> <path> (<elapsed>) <status>`.
pub fn log_line(method: &str, path: &str, elapsed: &str, status: &str) -> (line: String)
    ensures
        line@ == spec_log_line(method@, path@, elapsed@, status@),
{
    String::from_str(method).concat(" ").concat(path).concat(" (").concat(elapsed).concat(
        ") ",
    ).concat(status)
}

/// The facts of a served request, as values.
pub struct LogStringView {
    pub method: Seq<char>,
    pub path: Seq<char>,
    pub elapsed_secs: u64,
    pub elapsed_nanos: u32,
    pub status: u16,
}

impl LogStringView {
    /// The nanoseconds stay below one second and the status is a number
    /// that HTTP allows (100 to 999).
    pub open spec fn valid(self) -> bool {
        self.elapsed_nanos < 1_000_000_000 && 100 <= self.status < 1000
    }

    /// The log line of the request, with the elapsed time and the status
    /// printed as `Duration` and `StatusCode` print them.
    pub open spec fn line(self) -> Seq<char> {
        spec_log_line(
            self.method,
            self.path,
            elapsed_text(self.elapsed_secs, self.elapsed_nanos),
            status_text(self.status),
        )
    }

    /// Server-side failures are errors, everything else is information.
    pub open spec fn level(self) -> Level {
        if self.status >= 500 {
            Level::Error
        } else {
            Level::Info
        }
    }
}

/// A served request, ready to be printed: method, path, how long it took and
/// the status it ended with.
#[derive(Debug, PartialEq, Eq)]
pub struct LogString {
    method: String,
    path: String,
    elapsed_secs: u64,
    elapsed_nanos: u32,
    status: u16,
}

impl View for LogString {
    type V = LogStringView;

    closed spec fn view(&self) -> LogStringView {
        LogStringView {
            method: self.method@,
            path: self.path@,
            elapsed_secs: self.elapsed_secs,
            elapsed_nanos: self.elapsed_nanos,
            status: self.status,
        }
    }
}

impl LogString {
    #[verifier::type_invariant]
    spec fn well_formed(self) -> bool {
        self@.valid()
    }

    /// Records a served request. The elapsed time is `elapsed_secs` seconds
    /// and `elapsed_nanos` nanoseconds. Returns `None` exactly when the
    /// nanoseconds reach a full second or the status is no HTTP status.
    pub fn new(
        method: &str,
        path: &str,
        elapsed_secs: u64,
        elapsed_nanos: u32,
        status: u16,
    ) -> (info: Option<Self>)
        ensures
            info is Some <==> (LogStringView {
                method: method@,
                path: path@,
                elapsed_secs,
                elapsed_nanos,
                status,
            }).valid(),
            info is Some ==> info->0@ == (LogStringView {
                method: method@,
                path: path@,
                elapsed_secs,
                elapsed_nanos,
                status,
            }),
    {
        if elapsed_nanos < 1_000_000_000 && 100 <= status && status < 1000 {
            Some(
                LogString {
                    method: String::from_str(method),
                    path: String::from_str(path),
                    elapsed_secs,
                    elapsed_nanos,
                    status,
                },
            )
        } else {
            None
        }
    }

    /// The status the request ended with. Every recorded request is valid:
    /// its status is a number from 100 to 999.
    pub fn status(&self) -> (status: u16)
        ensures
            status == self@.status,
            self@.valid(),
    {
        proof {
            use_type_invariant(self);
        }
        self.status
    }

    /// The log line of the request.
    pub fn render(&self) -> (line: String)
        ensures
            line@ == self@.line(),
    {
        proof {
            use_type_invariant(self);
        }
        let elapsed = render_elapsed(self.elapsed_secs, self.elapsed_nanos);
        let status = render_status(self.status);
        log_line(self.method.as_str(), self.path.as_str(), elapsed.as_str(), status.as_str())
    }
}

/// Decides how a served request is logged: its line, at error severity
/// where the status is 500 or above and at informational severity
/// otherwise.
pub fn log_func(info: &LogString) -> (record: LogRecord)
    ensures
        record.level == info@.level(),
        record.line@ == info@.line(),
{
    let level = if info.status() >= internal_server_error() {
        Level::Error
    } else {
        Level::Info
    };
    LogRecord { level, line: info.render() }
}

} // verus!
