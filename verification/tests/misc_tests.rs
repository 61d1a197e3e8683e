use clamguard::notifications::{notification_message, notifications_for, webhook_urls, WebhookKind};
use clamguard::text::{i64_to_decimal, join_path, parse_u32, split_char, trim, u64_to_decimal};
use clamguard::tray::{day_label, export_status_message, icon_state, tab_for, tray_changed, tray_menu, GuiTab, MenuAction};
use clamguard::utils::{
    admin_osascript, agent_plist_path, find_clamscan, find_freshclam, get_clamav_datadir,
    icon_rgba, installed_markers, legacy_cleanup, plist_content, service_paths, user_bin_path,
    DatadirChoice, IconState,
};

#[test]
fn numbers_round_trip() {
    for n in [0u32, 7, 10, 12345, u32::MAX] {
        assert_eq!(parse_u32(&u64_to_decimal(n as u64)), Some(n));
    }
    assert_eq!(parse_u32("+5"), Some(5));
    assert_eq!(parse_u32("-0"), None);
    assert_eq!(parse_u32(""), None);
    assert_eq!(parse_u32("+"), None);
    assert_eq!(parse_u32("4294967296"), None);
    assert_eq!(parse_u32("007"), Some(7));
    assert_eq!(parse_u32(" 7"), None);
    assert_eq!(i64_to_decimal(-42), "-42");
    assert_eq!(i64_to_decimal(i64::MIN), i64::MIN.to_string());
    assert_eq!(u64_to_decimal(u64::MAX), u64::MAX.to_string());
}

#[test]
fn text_helpers() {
    assert_eq!(trim("\t a b \u{3000}\n"), "a b");
    assert_eq!(trim(&trim("  x  ")), trim("  x  "));
    assert_eq!(trim("   "), "");
    assert_eq!(split_char("a,,b,", ','), vec!["a", "", "b", ""]);
    assert_eq!(split_char("", ','), vec![""]);
    assert_eq!(join_path("/a", "b"), "/a/b");
    assert_eq!(join_path("/a/", "b"), "/a/b");
    assert_eq!(join_path("", "b"), "b");
}

#[test]
fn webhooks() {
    assert_eq!(webhook_urls(" a , ,b,"), vec!["a".to_string(), "b".to_string()]);
    assert!(webhook_urls("").is_empty());
    let m = notification_message("S", "/V");
    assert_eq!(m, "\u{1F6A8} **Infected items found on /V** \u{1F6A8}\n\n```\nS\n```");
    let n = notifications_for("S", "/V", "d1,d2", " s1 ");
    assert_eq!(n.len(), 3);
    assert_eq!(n[0].kind, WebhookKind::Discord);
    assert_eq!(n[1].url, "d2");
    assert_eq!(n[2].kind, WebhookKind::Slack);
    assert_eq!(n[2].url, "s1");
    assert!(n.iter().all(|x| x.message == m));
}

#[test]
fn tools_are_found_in_order() {
    let none: Vec<String> = vec![];
    assert_eq!(find_clamscan(&none), "clamscan");
    assert_eq!(find_clamscan(&vec!["/usr/bin/clamscan".to_string()]), "/usr/bin/clamscan");
    assert_eq!(
        find_clamscan(&vec!["/usr/bin/clamscan".to_string(), "/opt/homebrew/bin/clamscan".to_string()]),
        "/opt/homebrew/bin/clamscan"
    );
    assert_eq!(find_freshclam(&none), "freshclam");
    assert_eq!(find_freshclam(&vec!["/usr/local/bin/freshclam".to_string()]), "/usr/local/bin/freshclam");
}

fn float_icon(state: IconState) -> Vec<u8> {
    let size = 22;
    let mut rgba = Vec::with_capacity(size * size * 4);
    for y in 0..size {
        for x in 0..size {
            let dx = x as f32 - (size as f32 / 2.0);
            let dy = y as f32 - (size as f32 / 2.0);
            let dist = (dx * dx + dy * dy).sqrt();
            if dist < (size as f32 / 2.0) - 4.0 {
                match state {
                    IconState::Active => rgba.extend_from_slice(&[0, 122, 255, 255]),
                    IconState::Infected => rgba.extend_from_slice(&[255, 59, 48, 255]),
                    IconState::Idle => rgba.extend_from_slice(&[128, 128, 128, 255]),
                }
            } else if dist < (size as f32 / 2.0) - 2.0 {
                rgba.extend_from_slice(&[200, 200, 200, 255]);
            } else {
                rgba.extend_from_slice(&[0, 0, 0, 0]);
            }
        }
    }
    rgba
}

#[test]
fn icon_pixels() {
    for state in [IconState::Idle, IconState::Active, IconState::Infected] {
        let v = icon_rgba(state);
        assert_eq!(v.len(), 22 * 22 * 4);
        assert_eq!(v, float_icon(state));
    }
    let v = icon_rgba(IconState::Active);
    let at = |x: usize, y: usize| v[(y * 22 + x) * 4..(y * 22 + x) * 4 + 4].to_vec();
    assert_eq!(at(11, 11), vec![0, 122, 255, 255]);
    assert_eq!(at(11, 5), vec![0, 122, 255, 255]);
    assert_eq!(at(11, 4), vec![200, 200, 200, 255]);
    assert_eq!(at(11, 2), vec![0, 0, 0, 0]);
    assert_eq!(at(0, 0), vec![0, 0, 0, 0]);
}

#[test]
fn datadir() {
    assert!(matches!(get_clamav_datadir(Some("/db"), false, None), DatadirChoice::FromEnv(ref d) if d == "/db"));
    assert!(matches!(get_clamav_datadir(None, true, Some("/h")), DatadirChoice::SystemDefault));
    assert!(matches!(get_clamav_datadir(None, false, Some("/h")), DatadirChoice::UserCache(ref d) if d == "/h/Library/Caches/clamguard/clamav"));
    assert!(matches!(get_clamav_datadir(None, false, None), DatadirChoice::UserCache(ref d) if d == "/tmp/Library/Caches/clamguard/clamav"));
}

#[test]
fn service_files() {
    let p = service_paths("/Users/a");
    assert_eq!(p.target_bin, "/Users/a/Library/Application Support/osx-dek-rs/osx-dek-rs");
    assert_eq!(p.plist_path, "/Users/a/Library/LaunchAgents/com.osx-dek-rs.plist");
    assert_eq!(p.log_dir, "/Users/a/Library/Logs/osx-dek-rs");
    let plist = plist_content(&p.target_bin, &p.log_dir);
    assert!(plist.starts_with("<?xml version=\"1.0\" encoding=\"UTF-8\"?>\n"));
    assert!(plist.contains("        <string>/Users/a/Library/Application Support/osx-dek-rs/osx-dek-rs</string>\n"));
    assert!(plist.contains("<string>/Users/a/Library/Logs/osx-dek-rs/stdout.log</string>"));
    assert!(plist.contains("<string>/Users/a/Library/Logs/osx-dek-rs/stderr.log</string>"));
    assert!(plist.ends_with("</dict>\n</plist>"));
    assert_eq!(agent_plist_path("/h"), "/h/Library/LaunchAgents/com.osx-dek-rs.plist");
    assert_eq!(user_bin_path("/h"), "/h/Library/Application Support/osx-dek-rs/osx-dek-rs");
    assert_eq!(
        installed_markers(Some("/h")),
        vec!["/Library/LaunchDaemons/com.osx-dek-rs.plist".to_string(), "/h/Library/LaunchAgents/com.osx-dek-rs.plist".to_string()]
    );
    assert_eq!(installed_markers(None).len(), 1);
    let script = legacy_cleanup();
    assert_eq!(
        script,
        "launchctl unload -w \"/Library/LaunchDaemons/com.osx-dek-rs.plist\" 2>/dev/null || true; rm -f \"/Library/LaunchDaemons/com.osx-dek-rs.plist\"; rm -f \"/usr/local/bin/osx-dek-rs\""
    );
    assert_eq!(
        admin_osascript("say \"hi\""),
        "do shell script \"say \\\"hi\\\"\" with administrator privileges"
    );
}

#[test]
fn tray_contents() {
    let m = tray_menu(true, 2, &vec!["/V".to_string()], false, true, true);
    let labels: Vec<&str> = m.iter().map(|e| e.label.as_str()).collect();
    assert_eq!(
        labels,
        vec![
            "\u{26A0}\u{FE0F} Dismiss Virus Warning", "", "Status: Active (2)", "", "Active Scans:", "  /V", "",
            "Configure Webhooks & Settings...", "Show Scan History...", "Scheduling Settings...",
            "Start Custom Scan...", "Install as Service", "Uninstall Service", "Quit",
        ]
    );
    assert!(m[11].enabled);
    assert!(!m[12].enabled);
    let m = tray_menu(false, 0, &vec![], true, true, true);
    assert_eq!(m[0].label, "Status: Idle");
    assert_eq!(m[2].label, "No active scans");
    assert_eq!(m[2].action, MenuAction::NoScans);
    assert!(!m[8].enabled && m[9].enabled);
    let hidden = tray_menu(false, 0, &vec![], true, false, false);
    assert_eq!(hidden.len(), 9);
    assert_eq!(hidden[8].action, MenuAction::Install);
    assert!(hidden.iter().all(|e| e.action != MenuAction::Quit && e.action != MenuAction::Uninstall));
    let quit_only = tray_menu(false, 0, &vec![], true, false, true);
    assert_eq!(quit_only.len(), 10);
    assert_eq!(quit_only[9].action, MenuAction::Quit);
    assert_eq!(icon_state(true, 3), IconState::Infected);
    assert_eq!(icon_state(false, 3), IconState::Active);
    assert_eq!(icon_state(false, 0), IconState::Idle);
    assert!(tray_changed(false, 0, false, 1));
    assert!(!tray_changed(true, 1, true, 1));
    assert_eq!(tab_for(MenuAction::History), Some(GuiTab::History));
    assert_eq!(tab_for(MenuAction::Quit), None);
    assert_eq!(day_label(3), "Wednesday");
    assert_eq!(day_label(9), "Unknown");
    assert_eq!(export_status_message(&Ok(Some("h.csv".into()))), "Exported to h.csv");
    assert_eq!(export_status_message(&Ok(None)), "Exported to file");
    assert_eq!(export_status_message(&Err("disk full".into())), "Export failed: disk full");
}
