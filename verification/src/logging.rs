//! Log line construction. The supervisor writes its own lines and relayed
//! backend output in the form `[TAG] message`; in a packaged run the lines go
//! to an append-only file, in a development run to the inherited console.
//! Writing itself is the driver's job; every line's text is fixed here.

use vstd::prelude::*;
use vstd::string::StringExecFns;
use vstd::string::StrSliceExecFns;
use crate::text;

verus! {

/// Severity of one log line.
#[derive(Clone, Copy, PartialEq, Eq, Structural, Debug)]
pub enum Severity {
    Info,
    Error,
}

/// The tag written between brackets at the head of a log line.
pub open spec fn severity_tag_chars(s: Severity) -> Seq<char> {
    match s {
        Severity::Info => "INFO"@,
        Severity::Error => "ERROR"@,
    }
}

pub fn severity_tag(s: Severity) -> (r: &'static str)
    ensures
        r@ == severity_tag_chars(s),
{
    match s {
        Severity::Info => "INFO",
        Severity::Error => "ERROR",
    }
}

/// One finished log line: `[TAG] message`.
pub open spec fn log_line_chars(s: Severity, message: Seq<char>) -> Seq<char> {
    "["@ + severity_tag_chars(s) + "] "@ + message
}

pub fn format_log_line(severity: Severity, message: &str) -> (r: String)
    ensures
        r@ == log_line_chars(severity, message@),
{
    let mut s = String::from_str("[");
    s.append(severity_tag(severity));
    s.append("] ");
    s.append(message);
    s
}

/// Where log lines are written: the console while developing, an append-only
/// file in a packaged run. The choice is a function of one runtime flag.
#[derive(Clone, Copy, PartialEq, Eq, Structural, Debug)]
pub enum LogDestination {
    Console,
    LogFile,
}

pub open spec fn destination_for(is_packaged: bool) -> LogDestination {
    if is_packaged {
        LogDestination::LogFile
    } else {
        LogDestination::Console
    }
}

pub fn log_destination(is_packaged: bool) -> (r: LogDestination)
    ensures
        r == destination_for(is_packaged),
{
    if is_packaged {
        LogDestination::LogFile
    } else {
        LogDestination::Console
    }
}

/// Name of the log file under the per-user log directory.
pub fn log_file_name() -> (r: String)
    ensures
        r@ == "sidecar.log"@,
{
    String::from_str("sidecar.log")
}

pub fn info_line(message: &str) -> (r: String)
    ensures
        r@ == log_line_chars(Severity::Info, message@),
{
    format_log_line(Severity::Info, message)
}

pub fn error_line(message: &str) -> (r: String)
    ensures
        r@ == log_line_chars(Severity::Error, message@),
{
    format_log_line(Severity::Error, message)
}

pub fn app_start_line() -> (r: String)
    ensures
        r@ == log_line_chars(Severity::Info, "App starting"@),
{
    info_line("App starting")
}

pub fn app_exit_line() -> (r: String)
    ensures
        r@ == log_line_chars(Severity::Info, "App exiting"@),
{
    info_line("App exiting")
}

pub fn sidecar_start_line(port: u16) -> (r: String)
    ensures
        r@ == log_line_chars(
            Severity::Info,
            "Sidecar process starting on port "@ + text::decimal_chars(port as nat),
        ),
{
    let mut m = String::from_str("Sidecar process starting on port ");
    text::push_decimal(&mut m, port);
    format_log_line(Severity::Info, m.as_str())
}

pub fn sidecar_ready_line(host: &str, port: u16) -> (r: String)
    ensures
        r@ == log_line_chars(
            Severity::Info,
            "Sidecar process ready at http://"@ + host@ + ":"@ + text::decimal_chars(port as nat),
        ),
{
    let mut m = String::from_str("Sidecar process ready at http://");
    m.append(host);
    m.append(":");
    text::push_decimal(&mut m, port);
    format_log_line(Severity::Info, m.as_str())
}

pub fn sidecar_exit_line() -> (r: String)
    ensures
        r@ == log_line_chars(Severity::Info, "Sidecar process exiting"@),
{
    info_line("Sidecar process exiting")
}

pub fn sidecar_error_line(detail: &str) -> (r: String)
    ensures
        r@ == log_line_chars(Severity::Error, "Sidecar error: "@ + detail@),
{
    let mut m = String::from_str("Sidecar error: ");
    m.append(detail);
    format_log_line(Severity::Error, m.as_str())
}

pub fn terminate_success_line() -> (r: String)
    ensures
        r@ == log_line_chars(Severity::Info, "Sidecar process terminated successfully"@),
{
    info_line("Sidecar process terminated successfully")
}

pub fn kill_failure_line(detail: &str) -> (r: String)
    ensures
        r@ == log_line_chars(
            Severity::Error,
            "Sidecar error: "@ + "Failed to kill sidecar process: "@ + detail@,
        ),
{
    let mut m = String::from_str("Failed to kill sidecar process: ");
    m.append(detail);
    let r = sidecar_error_line(m.as_str());
    proof {
        assert("Sidecar error: "@ + ("Failed to kill sidecar process: "@ + detail@)
            =~= "Sidecar error: "@ + "Failed to kill sidecar process: "@ + detail@);
    }
    r
}

pub fn spawn_failure_line(detail: &str) -> (r: String)
    ensures
        r@ == log_line_chars(
            Severity::Error,
            "Sidecar error: "@ + "Failed to spawn sidecar: "@ + detail@,
        ),
{
    let mut m = String::from_str("Failed to spawn sidecar: ");
    m.append(detail);
    let r = sidecar_error_line(m.as_str());
    proof {
        assert("Sidecar error: "@ + ("Failed to spawn sidecar: "@ + detail@)
            =~= "Sidecar error: "@ + "Failed to spawn sidecar: "@ + detail@);
    }
    r
}

/// A line forwarded from the hosted UI is an error line exactly when its
/// level names the error severity, compared without regard to ASCII case.
pub open spec fn spec_is_error_level(s: Seq<char>) -> bool {
    s.len() == 5
    && (s[0] == 'e' || s[0] == 'E')
    && (s[1] == 'r' || s[1] == 'R')
    && (s[2] == 'r' || s[2] == 'R')
    && (s[3] == 'o' || s[3] == 'O')
    && (s[4] == 'r' || s[4] == 'R')
}

pub fn client_level_severity(level: &str) -> (r: Severity)
    ensures
        r == (if spec_is_error_level(level@) {
            Severity::Error
        } else {
            Severity::Info
        }),
{
    let n = level.unicode_len();
    if n != 5 {
        return Severity::Info;
    }
    let c0 = level.get_char(0);
    let c1 = level.get_char(1);
    let c2 = level.get_char(2);
    let c3 = level.get_char(3);
    let c4 = level.get_char(4);
    if (c0 == 'e' || c0 == 'E') && (c1 == 'r' || c1 == 'R') && (c2 == 'r' || c2 == 'R')
        && (c3 == 'o' || c3 == 'O') && (c4 == 'r' || c4 == 'R') {
        Severity::Error
    } else {
        Severity::Info
    }
}

} // verus!
