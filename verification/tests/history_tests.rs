use chrono::{Local, TimeZone};
use clamguard::history::{History, ScanEntry, ScanStatus};
use clamguard::timestamp::Timestamp;

fn ts(secs: i64) -> Timestamp {
    Timestamp { secs, nanos: 0, offset_secs: 0 }
}

fn entry(t: Timestamp, path: &str) -> ScanEntry {
    ScanEntry {
        timestamp: t,
        path: path.to_string(),
        status: ScanStatus::Clean,
        details: String::new(),
        infected_files: vec![],
    }
}

#[test]
fn test_to_csv() {
    let mut history = History::new();
    let dt = Local.with_ymd_and_hms(2023, 1, 1, 12, 0, 0).unwrap();
    history.entries.push(ScanEntry {
        timestamp: Timestamp {
            secs: dt.timestamp(),
            nanos: 0,
            offset_secs: dt.offset().local_minus_utc(),
        },
        path: "/test/path".to_string(),
        status: ScanStatus::Clean,
        details: "No threats".to_string(),
        infected_files: vec!["file1".to_string(), "file2".to_string()],
    });

    let csv = history.to_csv().unwrap();

    assert!(csv.contains("Timestamp,Path,Status,Details,Infected Files"));
    assert!(csv.contains("/test/path"));
    assert!(csv.contains("Clean"));
    assert!(csv.contains("No threats"));
    assert!(csv.contains("file1; file2"));
    assert!(csv.lines().count() >= 2);
}

#[test]
fn csv_matches_chrono_and_quotes_fields() {
    let dt = Local.with_ymd_and_hms(2023, 1, 1, 12, 0, 0).unwrap();
    let mut history = History::new();
    history.entries.push(ScanEntry {
        timestamp: Timestamp { secs: dt.timestamp(), nanos: 0, offset_secs: dt.offset().local_minus_utc() },
        path: "/a,b".to_string(),
        status: ScanStatus::Infected,
        details: "say \"hi\"".to_string(),
        infected_files: vec![],
    });
    let csv = history.to_csv().unwrap();
    let expected = format!(
        "Timestamp,Path,Status,Details,Infected Files\n{},\"/a,b\",Infected,\"say \"\"hi\"\"\",\n",
        dt.to_rfc3339()
    );
    assert_eq!(csv, expected);
}

#[test]
fn rfc3339_text() {
    let mut h = History::new();
    h.entries.push(entry(Timestamp { secs: 1672574400, nanos: 0, offset_secs: 3600 }, "/v"));
    assert_eq!(
        h.to_csv().unwrap(),
        "Timestamp,Path,Status,Details,Infected Files\n2023-01-01T13:00:00+01:00,/v,Clean,,\n"
    );
}

#[test]
fn status_text() {
    assert_eq!(ScanStatus::Clean.to_display_string(), "Clean");
    assert_eq!(ScanStatus::Infected.to_display_string(), "Infected");
    assert_eq!(ScanStatus::Failed.to_display_string(), "Failed");
}

#[test]
fn prune_drops_year_old_entries_once() {
    let now = ts(1_700_000_000);
    let year = 365 * 86400;
    let mut h = History::new();
    h.entries.push(entry(ts(now.secs - year - 100), "/old"));
    h.entries.push(entry(ts(now.secs - year), "/edge"));
    h.entries.push(entry(ts(now.secs - year + 1), "/recent"));
    h.entries.push(entry(ts(now.secs), "/now"));
    h.prune(&now);
    let paths: Vec<&str> = h.entries.iter().map(|e| e.path.as_str()).collect();
    assert_eq!(paths, vec!["/recent", "/now"]);
    h.prune(&now);
    assert_eq!(h.entries.len(), 2);
}

#[test]
fn added_entry_is_kept_last() {
    let now = ts(1_700_000_000);
    let mut h = History::new();
    h.entries.push(entry(ts(1_000), "/ancient"));
    h.add_entry(now, "/new".to_string(), ScanStatus::Failed, "err".to_string(), vec![]);
    assert_eq!(h.entries.len(), 1);
    assert_eq!(h.entries[0].path, "/new");
    assert_eq!(h.entries[0].status, ScanStatus::Failed);
    assert_eq!(h.entries[0].timestamp, now);
}

#[test]
fn load_prunes_stored_history() {
    let mut stored = History::new();
    stored.entries.push(entry(ts(10), "/ancient"));
    stored.entries.push(entry(ts(Local::now().timestamp()), "/today"));
    let now = ts(Local::now().timestamp());
    let h = History::load(Some(stored), &now);
    assert_eq!(h.entries.len(), 1);
    assert_eq!(h.entries[0].path, "/today");
    assert!(History::load(None, &now).entries.is_empty());
}

#[test]
fn history_path() {
    assert_eq!(History::get_path("/logs"), "/logs/history.json");
}

#[test]
fn local_calendar() {
    // 2023-01-01 12:00:00 UTC, a Sunday
    let t = Timestamp { secs: 1672574400, nanos: 0, offset_secs: 0 };
    assert_eq!(t.day_number(), 19358);
    assert_eq!(t.hour(), 12);
    assert_eq!(t.minute(), 0);
    assert_eq!(t.weekday_from_sunday(), 0);
    // thirteen hours west it is Saturday 23:00
    let w = Timestamp { secs: 1672574400, nanos: 0, offset_secs: -13 * 3600 };
    assert_eq!(w.day_number(), 19357);
    assert_eq!(w.hour(), 23);
    assert_eq!(w.weekday_from_sunday(), 6);
    // before the epoch
    let b = Timestamp { secs: -1, nanos: 0, offset_secs: 0 };
    assert_eq!(b.day_number(), -1);
    assert_eq!(b.hour(), 23);
    assert_eq!(b.minute(), 59);
    assert_eq!(b.weekday_from_sunday(), 3);
    assert!(t.is_after(1672574399, 999));
    assert!(!t.is_after(1672574400, 0));
}

#[test]
fn csv_export_reads_back() {
    let mut h = History::new();
    let mut e = entry(ts(1_700_000_000), "/Volumes/a,b \"c\"");
    e.status = ScanStatus::Infected;
    e.details = "line one\nline two, with comma".to_string();
    e.infected_files = vec!["/x".to_string(), "/y\"z".to_string()];
    h.entries.push(e);
    h.entries.push(entry(ts(1_700_000_100), ""));
    let text = h.to_csv().unwrap();
    let mut reader = csv::ReaderBuilder::new().has_headers(false).from_reader(text.as_bytes());
    let records: Vec<Vec<String>> = reader
        .records()
        .map(|r| r.unwrap().iter().map(|f| f.to_string()).collect())
        .collect();
    assert_eq!(records.len(), 3);
    assert_eq!(records[0], vec!["Timestamp", "Path", "Status", "Details", "Infected Files"]);
    assert_eq!(records[1][1], "/Volumes/a,b \"c\"");
    assert_eq!(records[1][2], "Infected");
    assert_eq!(records[1][3], "line one\nline two, with comma");
    assert_eq!(records[1][4], "/x; /y\"z");
    assert_eq!(records[2][1], "");
    assert_eq!(records[2][4], "");
}
