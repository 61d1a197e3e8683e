use clamguard::audit::{
    audit_line, fallback_line, get_audit_log_dir, get_audit_log_file, is_error_level,
    is_root_output, log_error, log_infection, log_mount_detected, log_scan_complete,
    log_scan_start, log_service_start, log_service_stop, log_update_complete, log_update_start,
    AuditEvent,
};
use clamguard::config::{Config, ConfigEnv, ScheduleInterval};
use clamguard::guard::AppState;
use clamguard::history::{History, ScanEntry, ScanStatus};
use clamguard::service::{
    clamscan_check, eject_enabled, freshclam_check, freshclam_period_secs, scheduled_scan_due,
    version_text, wants_version, MountDecision, MountTracker,
};
use clamguard::timestamp::Timestamp;

fn no_env() -> ConfigEnv {
    ConfigEnv {
        eject_on_infection: None,
        discord_webhooks: None,
        slack_webhooks: None,
        freshclam_interval_hours: None,
        scheduled_scan_interval: None,
        scheduled_scan_time: None,
        scheduled_scan_day: None,
        show_uninstall_button: None,
        show_quit_button: None,
    }
}

#[test]
fn audit_messages() {
    let e = log_scan_start("/Volumes/X");
    assert_eq!((e.event_type.as_str(), e.message.as_str()), ("SCAN_START", "Starting scan of mount point: /Volumes/X"));
    let e = log_scan_complete("/V", true, "d");
    assert_eq!(e.message, "Scan of /V finished. Status: INFECTED. Details: d");
    let e = log_scan_complete("/V", false, "d");
    assert_eq!(e.message, "Scan of /V finished. Status: CLEAN. Details: d");
    let e = log_infection("/V", "sum");
    assert_eq!((e.event_type.as_str(), e.message.as_str()), ("INFECTION_DETECTED", "Malware found on /V: sum"));
    let e = log_update_start();
    assert_eq!((e.event_type.as_str(), e.message.as_str()), ("UPDATE_START", "Starting ClamAV database update (freshclam)"));
    let e = log_update_complete(true, "ok");
    assert_eq!(e.message, "ClamAV database update SUCCESS. Details: ok");
    let e = log_update_complete(false, "no");
    assert_eq!(e.message, "ClamAV database update FAILED. Details: no");
    let e = log_service_start();
    assert_eq!((e.event_type.as_str(), e.message.as_str()), ("SERVICE_START", "ClamGuard service starting"));
    let e = log_service_stop();
    assert_eq!((e.event_type.as_str(), e.message.as_str()), ("SERVICE_STOP", "ClamGuard service stopping"));
    let e = log_error("ctx", "bad");
    assert_eq!((e.event_type.as_str(), e.message.as_str()), ("ERROR", "ctx: bad"));
    let e = log_mount_detected("/Volumes/X");
    assert_eq!((e.event_type.as_str(), e.message.as_str()), ("MOUNT_DETECTED", "New mount detected: /Volumes/X"));
}

#[test]
fn audit_lines_and_places() {
    let e = AuditEvent::new("SCAN_START", "m");
    assert_eq!(audit_line("2024-01-02 03:04:05", &e), "[2024-01-02 03:04:05] [SCAN_START] m\n");
    assert_eq!(fallback_line("x\n"), "(FALLBACK) x\n");
    assert_eq!(get_audit_log_dir(Some("/custom"), true, Some("/home/u")), "/custom");
    assert_eq!(get_audit_log_dir(None, true, Some("/home/u")), "/Library/Logs/osx-dek-rs");
    assert_eq!(get_audit_log_dir(None, false, Some("/home/u")), "/home/u/Library/Logs/osx-dek-rs");
    assert_eq!(get_audit_log_dir(None, false, None), "/tmp/Library/Logs/osx-dek-rs");
    assert_eq!(get_audit_log_file("/d"), "/d/audit.log");
    assert!(is_root_output("0\n"));
    assert!(is_root_output("  0 "));
    assert!(!is_root_output("501\n"));
    assert!(!is_root_output("00"));
    assert!(is_error_level("ERROR"));
    assert!(is_error_level("CRITICAL"));
    assert!(!is_error_level("WARNING"));
}

#[test]
fn config_defaults_and_paths() {
    let c = Config::default();
    assert!(c.eject_on_infection);
    assert_eq!(c.freshclam_interval_hours, 12);
    assert_eq!(c.scheduled_scan_interval, ScheduleInterval::Never);
    assert_eq!(c.scheduled_scan_time, "02:00");
    assert_eq!(c.scheduled_scan_day, 0);
    assert!(!c.show_uninstall_button && !c.show_quit_button);
    assert!(c.discord_webhooks.is_empty() && c.slack_webhooks.is_empty());
    assert_eq!(ScheduleInterval::default(), ScheduleInterval::Never);

    assert_eq!(Config::get_path(Some("/etc/cg"), false, None), "/etc/cg/config.json");
    assert_eq!(Config::get_path(Some("/etc/cg/"), false, None), "/etc/cg/config.json");
    assert_eq!(Config::get_path(Some(""), false, None), "config.json");
    assert_eq!(Config::get_path(None, true, None), "/Library/Application Support/clamguard/config.json");
    assert_eq!(Config::get_path(None, false, Some("/Users/a")), "/Users/a/Library/Application Support/clamguard/config.json");
}

#[test]
fn environment_overrides() {
    let mut env = no_env();
    env.eject_on_infection = Some("FALSE".into());
    env.discord_webhooks = Some("https://d".into());
    env.freshclam_interval_hours = Some("24".into());
    env.scheduled_scan_interval = Some("Weekly".into());
    env.scheduled_scan_day = Some("x3".into());
    env.show_quit_button = Some("TrUe".into());
    let c = Config::load(None, &env);
    assert!(!c.eject_on_infection);
    assert_eq!(c.discord_webhooks, "https://d");
    assert_eq!(c.freshclam_interval_hours, 24);
    assert_eq!(c.scheduled_scan_interval, ScheduleInterval::Weekly);
    assert_eq!(c.scheduled_scan_day, 0);
    assert!(c.show_quit_button);
    assert!(!c.show_uninstall_button);

    let mut env = no_env();
    env.scheduled_scan_interval = Some("monthly".into());
    env.freshclam_interval_hours = Some("-1".into());
    env.eject_on_infection = Some("yes".into());
    let mut stored = Config::default();
    stored.scheduled_scan_interval = ScheduleInterval::Daily;
    stored.freshclam_interval_hours = 6;
    let c = Config::load(Some(stored), &env);
    assert_eq!(c.scheduled_scan_interval, ScheduleInterval::Daily);
    assert_eq!(c.freshclam_interval_hours, 6);
    assert!(!c.eject_on_infection);
}

#[test]
fn no_environment_keeps_stored_settings() {
    let mut stored = Config::default();
    stored.slack_webhooks = "s".into();
    stored.scheduled_scan_time = "14:30".into();
    let c = Config::load(Some(stored.clone()), &no_env());
    assert_eq!(c.slack_webhooks, stored.slack_webhooks);
    assert_eq!(c.scheduled_scan_time, stored.scheduled_scan_time);
    assert_eq!(c.eject_on_infection, stored.eject_on_infection);
}

fn at(secs: i64) -> Timestamp {
    Timestamp { secs, nanos: 0, offset_secs: 0 }
}

// 2023-01-01 12:00:00 UTC, a Sunday
const NOON: i64 = 1672574400;

#[test]
fn scheduled_scan() {
    let mut c = Config::default();
    let h = History::new();
    assert!(!scheduled_scan_due(&c, &h, &at(NOON)));
    c.scheduled_scan_interval = ScheduleInterval::Daily;
    c.scheduled_scan_time = "12:00".into();
    assert!(scheduled_scan_due(&c, &h, &at(NOON)));
    assert!(scheduled_scan_due(&c, &h, &at(NOON + 59)));
    assert!(!scheduled_scan_due(&c, &h, &at(NOON + 60)));
    c.scheduled_scan_interval = ScheduleInterval::Weekly;
    c.scheduled_scan_day = 0;
    assert!(scheduled_scan_due(&c, &h, &at(NOON)));
    c.scheduled_scan_day = 1;
    assert!(!scheduled_scan_due(&c, &h, &at(NOON)));
    c.scheduled_scan_interval = ScheduleInterval::Daily;
    c.scheduled_scan_time = "1200".into();
    assert!(!scheduled_scan_due(&c, &h, &at(NOON)));
    c.scheduled_scan_time = "ab:cd".into();
    assert!(scheduled_scan_due(&c, &h, &at(NOON - 10 * 3600)));
    c.scheduled_scan_time = "12:00:00".into();
    assert!(!scheduled_scan_due(&c, &h, &at(NOON)));
}

#[test]
fn scheduled_scan_runs_once_a_day() {
    let mut c = Config::default();
    c.scheduled_scan_interval = ScheduleInterval::Daily;
    c.scheduled_scan_time = "12:00".into();
    let mut h = History::new();
    h.add_entry(at(NOON - 3 * 3600), "/".into(), ScanStatus::Failed, "err".into(), vec![]);
    assert!(scheduled_scan_due(&c, &h, &at(NOON)));
    h.add_entry(at(NOON - 3 * 3600), "/Volumes/X".into(), ScanStatus::Clean, String::new(), vec![]);
    assert!(scheduled_scan_due(&c, &h, &at(NOON)));
    h.entries.push(ScanEntry {
        timestamp: at(NOON - 86400),
        path: "/".into(),
        status: ScanStatus::Clean,
        details: String::new(),
        infected_files: vec![],
    });
    assert!(scheduled_scan_due(&c, &h, &at(NOON)));
    h.add_entry(at(NOON - 11 * 3600), "/".into(), ScanStatus::Infected, String::new(), vec![]);
    assert!(!scheduled_scan_due(&c, &h, &at(NOON)));
}

#[test]
fn mounts_are_scanned_once_per_device() {
    let mut t = MountTracker::new();
    assert_eq!(t.on_created("/Volumes/USB", Some("USB"), Some(5), false), MountDecision::Scan);
    assert_eq!(t.on_created("/Volumes/USB", Some("USB"), Some(5), false), MountDecision::AlreadyScanned);
    assert_eq!(t.on_created("/Volumes/.Trashes", Some(".Trashes"), Some(5), false), MountDecision::Hidden);
    assert_eq!(t.on_created("/Volumes/B", Some("B"), None, false), MountDecision::Unreadable);
    assert_eq!(t.on_created("/Volumes/B", Some("B"), Some(7), true), MountDecision::InProgress);
    assert_eq!(t.on_created("/Volumes/B", None, Some(7), false), MountDecision::Scan);
    assert_eq!(t.on_created("/Volumes/USB", Some("USB"), Some(6), false), MountDecision::Scan);
    assert_eq!(t.paths(), vec!["/Volumes/USB".to_string(), "/Volumes/B".to_string()]);
    assert!(t.remove("/Volumes/USB"));
    assert!(!t.remove("/Volumes/USB"));
    assert_eq!(t.on_created("/Volumes/USB", Some("USB"), Some(6), false), MountDecision::Scan);
}

#[test]
fn startup_checks_and_command_line() {
    assert_eq!(freshclam_period_secs(0), None);
    assert_eq!(freshclam_period_secs(12), Some(43200));
    assert_eq!(freshclam_period_secs(u32::MAX), Some(u32::MAX as u64 * 3600));
    let e = clamscan_check("clamscan", false).unwrap();
    assert_eq!(e.message, "CRITICAL: clamscan not found in common paths or PATH. Please install ClamAV.");
    assert!(clamscan_check("clamscan", true).is_none());
    assert!(clamscan_check("/usr/bin/clamscan", false).is_none());
    let e = freshclam_check("freshclam", false).unwrap();
    assert_eq!(e.message, "WARNING: freshclam not found in common paths or PATH. Database updates might fail.");
    assert!(freshclam_check("/usr/bin/freshclam", false).is_none());

    let args: Vec<String> = vec!["prog".into(), "-v".into()];
    assert!(wants_version(&args));
    assert!(!wants_version(&vec!["prog".to_string()]));
    let mut c = Config::default();
    c.eject_on_infection = false;
    assert!(!eject_enabled(&vec!["prog".to_string()], &c));
    assert!(eject_enabled(&vec!["prog".to_string(), "--eject".to_string()], &c));
    assert_eq!(version_text("1.2.3"), "clamguard version 1.2.3");
}

#[test]
fn shared_state_scans_and_tasks() {
    let mut s = AppState::new(Config::default(), History::new());
    s.decrement();
    assert_eq!(s.active_tasks, 0);
    s.add_scan("/V".into());
    assert_eq!(s.active_tasks, 1);
    assert!(s.has_active_scan("/V"));
    assert_eq!(s.active_scans[0].state.current_file, "Starting...");
    s.update_scan_status("/V", "/V/a".into());
    assert_eq!(s.active_scans[0].state.current_file, "/V/a");
    assert!(!s.is_cancel_requested("/V"));
    s.cancel_scan("/V");
    assert!(s.is_cancel_requested("/V"));
    s.update_scan_status("/W", "x".into());
    s.cancel_scan("/W");
    assert!(!s.is_cancel_requested("/W"));
    s.add_scan("/V".into());
    assert_eq!(s.active_scans.len(), 1);
    assert!(!s.is_cancel_requested("/V"));
    assert_eq!(s.active_tasks, 2);
    s.add_scan("/W".into());
    assert_eq!(s.active_scan_paths(), vec!["/V".to_string(), "/W".to_string()]);
    s.remove_scan("/V");
    assert_eq!(s.active_scan_paths(), vec!["/W".to_string()]);
    assert_eq!(s.active_tasks, 2);
    s.remove_scan("/W");
    s.remove_scan("/W");
    assert_eq!(s.active_tasks, 0);
    s.report_infection();
    assert!(s.infection_found);
    s.clear_infection();
    assert!(!s.infection_found);
}

#[test]
fn scan_results_are_recorded() {
    let mut s = AppState::new(Config::default(), History::new());
    let now = Timestamp { secs: chrono::Local::now().timestamp(), nanos: 0, offset_secs: 0 };
    s.record_scan_result(now, "/V".into(), Ok((true, "sum".into(), vec!["/V/a".into()])));
    assert!(s.infection_found);
    assert_eq!(s.history.entries[0].status, ScanStatus::Infected);
    assert_eq!(s.history.entries[0].infected_files, vec!["/V/a".to_string()]);
    s.clear_infection();
    s.record_scan_result(now, "/W".into(), Ok((false, "ok".into(), vec![])));
    assert!(!s.infection_found);
    assert_eq!(s.history.entries[1].status, ScanStatus::Clean);
    s.record_scan_result(now, "/X".into(), Err("no such file".into()));
    assert_eq!(s.history.entries[2].status, ScanStatus::Failed);
    assert_eq!(s.history.entries[2].details, "no such file");
    s.add_history_entry(now, "/Y".into(), ScanStatus::Clean, String::new(), vec![]);
    assert_eq!(s.history.entries.len(), 4);
    s.record_scan_result(now, "/Z".into(), Err("e".into()));
    assert_eq!(s.history.entries.len(), 5);
}
