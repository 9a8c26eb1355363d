use vstd::prelude::*;
use crate::decimal::{decimal, decimal_text};
use crate::paths::PathParts;

verus! {

#[verifier::external_type_specification]
#[verifier::external_body]
pub struct ExSystemTime(std::time::SystemTime);

#[verifier::external_type_specification]
#[verifier::external_body]
pub struct ExSystemTimeError(std::time::SystemTimeError);

/// Relies on `std::time::SystemTime::now`: reads the system clock. Nothing is
/// promised of the instant it returns.
#[verifier::external_body]
fn clock_now() -> std::time::SystemTime {
    std::time::SystemTime::now()
}

/// Relies on `std::time::SystemTime::duration_since`, taken against the Unix
/// epoch: an error where the instant lies before it.
#[verifier::external_body]
fn since_unix_epoch(t: &std::time::SystemTime) -> Result<
    std::time::Duration,
    std::time::SystemTimeError,
> {
    t.duration_since(std::time::UNIX_EPOCH)
}

/// Relies on `std::time::Duration::as_secs`: the whole seconds of a duration.
#[verifier::external_body]
fn whole_seconds(d: &std::time::Duration) -> u64 {
    d.as_secs()
}

/// The current time as whole seconds since the Unix epoch, in decimal. A
/// clock that reads before the epoch gives `0`.
pub fn chrono_lite_timestamp() -> (r: String)
    ensures
        exists|secs: u64| r@ == decimal(secs as nat),
{
    let now = clock_now();
    let secs: u64 = match since_unix_epoch(&now) {
        Ok(d) => whole_seconds(&d),
        Err(_) => 0,
    };
    let r = decimal_text(secs);
    assert(r@ == decimal(secs as nat));
    r
}

/// The text of one log line: `[<seconds>] <message>` and a line break.
pub open spec fn log_line_spec(timestamp: Seq<char>, message: Seq<char>) -> Seq<char> {
    seq!['['] + timestamp + seq![']', ' '] + message + seq!['\n']
}

/// Formats one log line from a timestamp text and a message.
pub fn format_log_line(timestamp: &str, message: &str) -> (r: String)
    ensures
        r@ == log_line_spec(timestamp@, message@),
{
    proof {
        reveal_strlit("[");
        reveal_strlit("] ");
        reveal_strlit("\n");
    }
    let mut line = String::from_str("[");
    line.append(timestamp);
    line.append("] ");
    line.append(message);
    line.append("\n");
    assert(line@ =~= log_line_spec(timestamp@, message@));
    line
}

/// Formats one log line stamped with the current time.
pub fn log_line_now(message: &str) -> (r: String)
    ensures
        exists|secs: u64| r@ == log_line_spec(decimal(secs as nat), message@),
{
    let stamp = chrono_lite_timestamp();
    let r = format_log_line(stamp.as_str(), message);
    let ghost secs = choose|secs: u64| stamp@ == decimal(secs as nat);
    assert(r@ == log_line_spec(decimal(secs as nat), message@));
    r
}

pub open spec fn logs_dir_name() -> Seq<char> {
    seq!['l', 'o', 'g', 's']
}

pub open spec fn log_file_name() -> Seq<char> {
    seq!['s', 'e', 'r', 'v', 'i', 'c', 'e', '.', 'l', 'o', 'g']
}

/// The log directory used when the application root cannot be resolved.
pub open spec fn fallback_log_dir() -> Seq<Seq<char>> {
    seq![
        seq!['C', ':', '\\'],
        seq!['P', 'r', 'o', 'g', 'r', 'a', 'm', 'D', 'a', 't', 'a'],
        seq!['d', 'e', 'n', 'c', 'h', 'o', '-', 'c', 'l', 'i'],
        logs_dir_name(),
    ]
}

/// The log file: `<root>/logs/service.log`, or the fixed fallback directory
/// when there is no root.
pub open spec fn log_file_spec(root: Option<Seq<Seq<char>>>) -> Seq<Seq<char>> {
    match root {
        Some(r) => r.push(logs_dir_name()).push(log_file_name()),
        None => fallback_log_dir().push(log_file_name()),
    }
}

/// Where log lines are appended, given the application root if it was resolved.
pub fn log_file_path(root: Option<&PathParts>) -> (r: PathParts)
    ensures
        r@ == log_file_spec(
            match root {
                Some(p) => Some(p@),
                None => None,
            },
        ),
{
    proof {
        reveal_strlit("logs");
        reveal_strlit("service.log");
        reveal_strlit("C:\\");
        reveal_strlit("ProgramData");
        reveal_strlit("dencho-cli");
        assert("logs"@ =~= logs_dir_name());
        assert("service.log"@ =~= log_file_name());
        assert("C:\\"@ =~= fallback_log_dir()[0]);
        assert("ProgramData"@ =~= fallback_log_dir()[1]);
        assert("dencho-cli"@ =~= fallback_log_dir()[2]);
    }
    let dir = match root {
        Some(p) => p.join("logs"),
        None => {
            let mut parts: Vec<String> = Vec::new();
            parts.push(String::from_str("C:\\"));
            parts.push(String::from_str("ProgramData"));
            parts.push(String::from_str("dencho-cli"));
            parts.push(String::from_str("logs"));
            let d = PathParts::from_parts(parts);
            assert(d@ =~= fallback_log_dir());
            d
        },
    };
    dir.join("service.log")
}

} // verus!
