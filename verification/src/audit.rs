//! The audit trail: where it is kept and what each security event records.
//!
//! Writing the records to disk happens outside the library; here each event
//! is built as a value, and a record line is formatted from a timestamp text
//! and an event.

use vstd::prelude::*;
use crate::text::{concat2, concat3, str_eq, trim};

verus! {

/// One audit event: its type tag and its message.
pub struct AuditEvent {
    pub event_type: String,
    pub message: String,
}

impl AuditEvent {
    /// The event as a pair of character sequences.
    pub open spec fn view(&self) -> (Seq<char>, Seq<char>) {
        (self.event_type@, self.message@)
    }

    /// An event with the given type and message.
    pub fn new(event_type: &str, message: &str) -> (r: AuditEvent)
        ensures
            r.event_type@ == event_type@,
            r.message@ == message@,
    {
        AuditEvent { event_type: String::from_str(event_type), message: String::from_str(message) }
    }
}

/// The directory that holds the audit log: `AUDIT_LOG_DIR` when it is set,
/// otherwise a system directory for root and a per-user one for everybody
/// else (under `HOME`, or under `/tmp` when `HOME` is unset).
pub open spec fn audit_log_dir_spec(env_dir: Option<Seq<char>>, is_root: bool, home: Option<Seq<char>>) -> Seq<char> {
    match env_dir {
        Some(d) => d,
        None => if is_root {
            "/Library/Logs/osx-dek-rs"@
        } else {
            let h = match home {
                Some(h) => h,
                None => "/tmp"@,
            };
            h + "/Library/Logs/osx-dek-rs"@
        },
    }
}

/// The optional view of an optional string slice.
pub open spec fn opt_view(o: Option<&str>) -> Option<Seq<char>> {
    match o {
        Some(s) => Some(s@),
        None => None,
    }
}

/// The directory that holds the audit log, from the value of `AUDIT_LOG_DIR`,
/// whether the process runs as root, and the value of `HOME`.
pub fn get_audit_log_dir(env_dir: Option<&str>, is_root: bool, home: Option<&str>) -> (r: String)
    ensures
        r@ == audit_log_dir_spec(opt_view(env_dir), is_root, opt_view(home)),
{
    match env_dir {
        Some(d) => String::from_str(d),
        None => if is_root {
            String::from_str("/Library/Logs/osx-dek-rs")
        } else {
            let h = match home {
                Some(h) => h,
                None => "/tmp",
            };
            concat2(h, "/Library/Logs/osx-dek-rs")
        },
    }
}

/// The audit log file inside the audit log directory `dir`.
pub fn get_audit_log_file(dir: &str) -> (r: String)
    ensures
        r@ == dir@ + "/audit.log"@,
{
    concat2(dir, "/audit.log")
}

/// Whether the output of `id -u` names the root user: once surrounding
/// whitespace is removed it is exactly `0`.
pub fn is_root_output(output: &str) -> (r: bool)
    ensures
        r == (crate::text::trimmed(output@) == "0"@),
{
    let t = trim(output);
    str_eq(t.as_str(), "0")
}

/// Whether an event of this type is reported at error level by the process
/// logger (`ERROR` and `CRITICAL`); all others are reported at info level.
pub fn is_error_level(event_type: &str) -> (r: bool)
    ensures
        r == (event_type@ == "ERROR"@ || event_type@ == "CRITICAL"@),
{
    str_eq(event_type, "ERROR") || str_eq(event_type, "CRITICAL")
}

/// The line written to the audit log for `event` at the time `timestamp`:
/// `[timestamp] [type] message` and a newline.
pub open spec fn audit_line_spec(timestamp: Seq<char>, event_type: Seq<char>, message: Seq<char>) -> Seq<char> {
    "["@ + timestamp + "] ["@ + event_type + "] "@ + message + "\n"@
}

/// The audit log line for `event` at the time `timestamp`.
pub fn audit_line(timestamp: &str, event: &AuditEvent) -> (r: String)
    ensures
        r@ == audit_line_spec(timestamp@, event.event_type@, event.message@),
{
    let mut r = concat3("[", timestamp, "] [");
    r.append(event.event_type.as_str());
    r.append("] ");
    r.append(event.message.as_str());
    r.append("\n");
    r
}

/// The line written to the fallback log in the working directory when the
/// audit log cannot be opened.
pub fn fallback_line(line: &str) -> (r: String)
    ensures
        r@ == "(FALLBACK) "@ + line@,
{
    concat2("(FALLBACK) ", line)
}

/// A scan of the mount point `path` begins.
pub fn log_scan_start(path: &str) -> (r: AuditEvent)
    ensures
        r.event_type@ == "SCAN_START"@,
        r.message@ == "Starting scan of mount point: "@ + path@,
{
    AuditEvent {
        event_type: String::from_str("SCAN_START"),
        message: concat2("Starting scan of mount point: ", path),
    }
}

/// The word for the outcome of a scan.
pub open spec fn scan_status_word(virus_found: bool) -> Seq<char> {
    if virus_found {
        "INFECTED"@
    } else {
        "CLEAN"@
    }
}

/// A scan of `path` finished; `details` says how.
pub fn log_scan_complete(path: &str, virus_found: bool, details: &str) -> (r: AuditEvent)
    ensures
        r.event_type@ == "SCAN_COMPLETE"@,
        r.message@ == "Scan of "@ + path@ + " finished. Status: "@ + scan_status_word(virus_found)
            + ". Details: "@ + details@,
{
    let status = if virus_found {
        "INFECTED"
    } else {
        "CLEAN"
    };
    let mut m = concat3("Scan of ", path, " finished. Status: ");
    m.append(status);
    m.append(". Details: ");
    m.append(details);
    AuditEvent { event_type: String::from_str("SCAN_COMPLETE"), message: m }
}

/// Malware was found on `path`.
pub fn log_infection(path: &str, details: &str) -> (r: AuditEvent)
    ensures
        r.event_type@ == "INFECTION_DETECTED"@,
        r.message@ == "Malware found on "@ + path@ + ": "@ + details@,
{
    let mut m = concat3("Malware found on ", path, ": ");
    m.append(details);
    AuditEvent { event_type: String::from_str("INFECTION_DETECTED"), message: m }
}

/// A virus database update begins.
pub fn log_update_start() -> (r: AuditEvent)
    ensures
        r.event_type@ == "UPDATE_START"@,
        r.message@ == "Starting ClamAV database update (freshclam)"@,
{
    AuditEvent::new("UPDATE_START", "Starting ClamAV database update (freshclam)")
}

/// The word for the outcome of a database update.
pub open spec fn update_status_word(success: bool) -> Seq<char> {
    if success {
        "SUCCESS"@
    } else {
        "FAILED"@
    }
}

/// The message recorded when a database update finished.
pub open spec fn update_message(success: bool, details: Seq<char>) -> Seq<char> {
    "ClamAV database update "@ + update_status_word(success) + ". Details: "@ + details
}

/// A virus database update finished; `details` says how.
pub fn log_update_complete(success: bool, details: &str) -> (r: AuditEvent)
    ensures
        r.event_type@ == "UPDATE_COMPLETE"@,
        r.message@ == update_message(success, details@),
{
    let status = if success {
        "SUCCESS"
    } else {
        "FAILED"
    };
    let mut m = concat3("ClamAV database update ", status, ". Details: ");
    m.append(details);
    AuditEvent { event_type: String::from_str("UPDATE_COMPLETE"), message: m }
}

/// The service starts.
pub fn log_service_start() -> (r: AuditEvent)
    ensures
        r.event_type@ == "SERVICE_START"@,
        r.message@ == "ClamGuard service starting"@,
{
    AuditEvent::new("SERVICE_START", "ClamGuard service starting")
}

/// The service stops.
pub fn log_service_stop() -> (r: AuditEvent)
    ensures
        r.event_type@ == "SERVICE_STOP"@,
        r.message@ == "ClamGuard service stopping"@,
{
    AuditEvent::new("SERVICE_STOP", "ClamGuard service stopping")
}

/// An error in `context`.
pub fn log_error(context: &str, error: &str) -> (r: AuditEvent)
    ensures
        r.event_type@ == "ERROR"@,
        r.message@ == context@ + ": "@ + error@,
{
    AuditEvent { event_type: String::from_str("ERROR"), message: concat3(context, ": ", error) }
}

/// A new volume appeared at `path`.
pub fn log_mount_detected(path: &str) -> (r: AuditEvent)
    ensures
        r.event_type@ == "MOUNT_DETECTED"@,
        r.message@ == "New mount detected: "@ + path@,
{
    AuditEvent {
        event_type: String::from_str("MOUNT_DETECTED"),
        message: concat2("New mount detected: ", path),
    }
}

} // verus!
