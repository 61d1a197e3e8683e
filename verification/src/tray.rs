//! What the menu-bar icon and the settings window show: the tray menu, the
//! icon's state, the window's tabs and its short texts.

use vstd::prelude::*;
use crate::text::{concat2, u64_to_decimal};
use crate::utils::IconState;

verus! {

/// The tabs of the settings window.
#[derive(Clone, Copy, Debug, PartialEq, Eq, Structural)]
pub enum GuiTab {
    Settings,
    ActiveScans,
    History,
    Scheduling,
}

/// What a tray menu entry is.
#[derive(Clone, Copy, Debug, PartialEq, Eq, Structural)]
pub enum MenuAction {
    /// Dismisses the malware warning.
    DismissWarning,
    /// A line between groups of entries.
    Separator,
    /// The running/idle status line.
    Status,
    /// The line that says no scan is running.
    NoScans,
    /// The heading of the list of running scans.
    ScansHeading,
    /// A running scan.
    ScanPath,
    /// Opens the settings tab.
    Settings,
    /// Opens the history tab.
    History,
    /// Opens the scheduling tab.
    Scheduling,
    /// Starts a scan of a folder the user picks.
    CustomScan,
    /// Installs the service.
    Install,
    /// Removes the service.
    Uninstall,
    /// Quits.
    Quit,
}

/// One entry of the tray menu.
pub struct MenuEntry {
    pub action: MenuAction,
    pub label: String,
    pub enabled: bool,
}

/// An entry as plain values.
pub open spec fn entry_view(e: MenuEntry) -> (MenuAction, Seq<char>, bool) {
    (e.action, e.label@, e.enabled)
}

/// A separator entry.
pub open spec fn separator() -> (MenuAction, Seq<char>, bool) {
    (MenuAction::Separator, Seq::empty(), false)
}

/// The status line for `tasks` running tasks.
pub open spec fn status_label(tasks: usize) -> Seq<char> {
    if tasks > 0 {
        "Status: Active ("@ + crate::text::decimal(tasks as nat) + ")"@
    } else {
        "Status: Idle"@
    }
}

/// The label of the warning's dismiss entry.
pub open spec fn dismiss_label() -> Seq<char> {
    "\u{26A0}\u{FE0F} Dismiss Virus Warning"@
}

/// The tray menu: the dismiss entry when malware was found, the status
/// line, the running scans (or a line saying there are none), then the
/// entries that open the window's tabs, start a custom scan, install the
/// service and remove it (each enabled only when it applies; the removal
/// entry only when the settings show it), and quit (only when the settings
/// show it).
pub open spec fn menu_spec(
    infection: bool,
    tasks: usize,
    scans: Seq<Seq<char>>,
    installed: bool,
    show_uninstall: bool,
    show_quit: bool,
) -> Seq<(MenuAction, Seq<char>, bool)> {
    (if infection {
        seq![(MenuAction::DismissWarning, dismiss_label(), true), separator()]
    } else {
        Seq::empty()
    }) + seq![(MenuAction::Status, status_label(tasks), false), separator()] + (if scans.len()
        == 0 {
        seq![(MenuAction::NoScans, "No active scans"@, false)]
    } else {
        seq![(MenuAction::ScansHeading, "Active Scans:"@, false)] + scans.map_values(
            |p: Seq<char>| (MenuAction::ScanPath, "  "@ + p, false),
        )
    }) + seq![
        separator(),
        (MenuAction::Settings, "Configure Webhooks & Settings..."@, true),
        (MenuAction::History, "Show Scan History..."@, true),
        (MenuAction::Scheduling, "Scheduling Settings..."@, true),
        (MenuAction::CustomScan, "Start Custom Scan..."@, true),
        (MenuAction::Install, "Install as Service"@, !installed),
    ] + (if show_uninstall {
        seq![(MenuAction::Uninstall, "Uninstall Service"@, installed)]
    } else {
        Seq::empty()
    }) + (if show_quit {
        seq![(MenuAction::Quit, "Quit"@, true)]
    } else {
        Seq::empty()
    })
}

/// An entry with a label taken from a literal.
fn entry(action: MenuAction, label: &str, enabled: bool) -> (r: MenuEntry)
    ensures
        entry_view(r) == (action, label@, enabled),
{
    MenuEntry { action, label: String::from_str(label), enabled }
}

/// A separator.
fn separator_entry() -> (r: MenuEntry)
    ensures
        entry_view(r) == separator(),
{
    MenuEntry { action: MenuAction::Separator, label: String::new(), enabled: false }
}

/// The tray menu for the current state, with the removal and quit entries
/// shown as the settings `show_uninstall` and `show_quit` say.
pub fn tray_menu(
    infection_found: bool,
    active_tasks: usize,
    scan_paths: &Vec<String>,
    installed: bool,
    show_uninstall: bool,
    show_quit: bool,
) -> (r: Vec<MenuEntry>)
    ensures
        r@.map_values(|e: MenuEntry| entry_view(e)) == menu_spec(
            infection_found,
            active_tasks,
            crate::text::views(scan_paths@),
            installed,
            show_uninstall,
            show_quit,
        ),
{
    let mut r: Vec<MenuEntry> = Vec::new();
    if infection_found {
        r.push(entry(MenuAction::DismissWarning, "\u{26A0}\u{FE0F} Dismiss Virus Warning", true));
        r.push(separator_entry());
    }
    let status = if active_tasks > 0 {
        let n = u64_to_decimal(active_tasks as u64);
        let mut s = concat2("Status: Active (", n.as_str());
        s.append(")");
        s
    } else {
        String::from_str("Status: Idle")
    };
    let ghost head0 = r@.map_values(|e: MenuEntry| entry_view(e));
    assert(head0 =~= (if infection_found {
        seq![(MenuAction::DismissWarning, dismiss_label(), true), separator()]
    } else {
        Seq::empty()
    }));
    assert(status@ == status_label(active_tasks));
    r.push(MenuEntry { action: MenuAction::Status, label: status, enabled: false });
    r.push(separator_entry());
    let ghost head = r@.map_values(|e: MenuEntry| entry_view(e));
    assert(head =~= head0 + seq![(MenuAction::Status, status_label(active_tasks), false), separator()]);
    if scan_paths.len() == 0 {
        r.push(entry(MenuAction::NoScans, "No active scans", false));
        assert(r@.map_values(|e: MenuEntry| entry_view(e)) =~= head + seq![
            (MenuAction::NoScans, "No active scans"@, false),
        ]);
    } else {
        r.push(entry(MenuAction::ScansHeading, "Active Scans:", false));
        let ghost head2 = r@.map_values(|e: MenuEntry| entry_view(e));
        assert(head2 =~= head + seq![(MenuAction::ScansHeading, "Active Scans:"@, false)]);
        let mut i: usize = 0;
        while i < scan_paths.len()
            invariant
                i <= scan_paths.len(),
                r@.map_values(|e: MenuEntry| entry_view(e)) == head2 + crate::text::views(
                    scan_paths@,
                ).take(i as int).map_values(|p: Seq<char>| (MenuAction::ScanPath, "  "@ + p, false)),
            decreases scan_paths.len() - i,
        {
            let ghost before = r@.map_values(|e: MenuEntry| entry_view(e));
            r.push(
                MenuEntry {
                    action: MenuAction::ScanPath,
                    label: concat2("  ", scan_paths[i].as_str()),
                    enabled: false,
                },
            );
            assert(r@.map_values(|e: MenuEntry| entry_view(e)) =~= before.push(
                (MenuAction::ScanPath, "  "@ + scan_paths@[i as int]@, false),
            ));
            assert(crate::text::views(scan_paths@).take(i + 1).map_values(
                |p: Seq<char>| (MenuAction::ScanPath, "  "@ + p, false),
            ) =~= crate::text::views(scan_paths@).take(i as int).map_values(
                |p: Seq<char>| (MenuAction::ScanPath, "  "@ + p, false),
            ).push((MenuAction::ScanPath, "  "@ + scan_paths@[i as int]@, false)));
            i = i + 1;
        }
        assert(crate::text::views(scan_paths@).take(i as int) =~= crate::text::views(scan_paths@));
    }
    let ghost mid = r@.map_values(|e: MenuEntry| entry_view(e));
    assert(mid =~= head + (if scan_paths@.len() == 0 {
        seq![(MenuAction::NoScans, "No active scans"@, false)]
    } else {
        seq![(MenuAction::ScansHeading, "Active Scans:"@, false)] + crate::text::views(
            scan_paths@,
        ).map_values(|p: Seq<char>| (MenuAction::ScanPath, "  "@ + p, false))
    }));
    r.push(separator_entry());
    r.push(entry(MenuAction::Settings, "Configure Webhooks & Settings...", true));
    r.push(entry(MenuAction::History, "Show Scan History...", true));
    r.push(entry(MenuAction::Scheduling, "Scheduling Settings...", true));
    r.push(entry(MenuAction::CustomScan, "Start Custom Scan...", true));
    r.push(entry(MenuAction::Install, "Install as Service", !installed));
    let ghost fixed = r@.map_values(|e: MenuEntry| entry_view(e));
    assert(fixed =~= mid + seq![
        separator(),
        (MenuAction::Settings, "Configure Webhooks & Settings..."@, true),
        (MenuAction::History, "Show Scan History..."@, true),
        (MenuAction::Scheduling, "Scheduling Settings..."@, true),
        (MenuAction::CustomScan, "Start Custom Scan..."@, true),
        (MenuAction::Install, "Install as Service"@, !installed),
    ]);
    if show_uninstall {
        r.push(entry(MenuAction::Uninstall, "Uninstall Service", installed));
    }
    let ghost with_uninstall = r@.map_values(|e: MenuEntry| entry_view(e));
    assert(with_uninstall =~= fixed + (if show_uninstall {
        seq![(MenuAction::Uninstall, "Uninstall Service"@, installed)]
    } else {
        Seq::empty()
    }));
    if show_quit {
        r.push(entry(MenuAction::Quit, "Quit", true));
    }
    assert(r@.map_values(|e: MenuEntry| entry_view(e)) =~= with_uninstall + (if show_quit {
        seq![(MenuAction::Quit, "Quit"@, true)]
    } else {
        Seq::empty()
    }));
    assert(r@.map_values(|e: MenuEntry| entry_view(e)) =~= menu_spec(
        infection_found,
        active_tasks,
        crate::text::views(scan_paths@),
        installed,
        show_uninstall,
        show_quit,
    ));
    r
}

/// The state the tray icon shows: infected while the warning stands,
/// otherwise active while tasks run, otherwise idle.
pub fn icon_state(infection_found: bool, active_tasks: usize) -> (r: IconState)
    ensures
        r == if infection_found {
            IconState::Infected
        } else if active_tasks > 0 {
            IconState::Active
        } else {
            IconState::Idle
        },
{
    if infection_found {
        IconState::Infected
    } else if active_tasks > 0 {
        IconState::Active
    } else {
        IconState::Idle
    }
}

/// Whether the icon and menu need redrawing: the warning or the task count
/// changed since they were last drawn.
pub fn tray_changed(last_infection: bool, last_tasks: usize, infection: bool, tasks: usize) -> (r:
    bool)
    ensures
        r == (last_infection != infection || last_tasks != tasks),
{
    last_infection != infection || last_tasks != tasks
}

/// The tab a menu entry opens, if it opens one.
pub fn tab_for(action: MenuAction) -> (r: Option<GuiTab>)
    ensures
        r == match action {
            MenuAction::Settings => Some(GuiTab::Settings),
            MenuAction::History => Some(GuiTab::History),
            MenuAction::Scheduling => Some(GuiTab::Scheduling),
            _ => None::<GuiTab>,
        },
{
    match action {
        MenuAction::Settings => Some(GuiTab::Settings),
        MenuAction::History => Some(GuiTab::History),
        MenuAction::Scheduling => Some(GuiTab::Scheduling),
        _ => None,
    }
}

/// The name of weekday `day` counted from Sunday (0), or `Unknown`.
pub open spec fn day_name(day: u32) -> Seq<char> {
    if day == 0 {
        "Sunday"@
    } else if day == 1 {
        "Monday"@
    } else if day == 2 {
        "Tuesday"@
    } else if day == 3 {
        "Wednesday"@
    } else if day == 4 {
        "Thursday"@
    } else if day == 5 {
        "Friday"@
    } else if day == 6 {
        "Saturday"@
    } else {
        "Unknown"@
    }
}

/// The name of weekday `day` counted from Sunday (0), or `Unknown`.
pub fn day_label(day: u32) -> (r: String)
    ensures
        r@ == day_name(day),
{
    let s = match day {
        0 => "Sunday",
        1 => "Monday",
        2 => "Tuesday",
        3 => "Wednesday",
        4 => "Thursday",
        5 => "Friday",
        6 => "Saturday",
        _ => "Unknown",
    };
    String::from_str(s)
}

/// The message shown after a CSV export: the exported file's name (`file`
/// when it has none that is text), or why the export failed.
pub fn export_status_message(result: &Result<Option<String>, String>) -> (r: String)
    ensures
        r@ == match result {
            Ok(Some(name)) => "Exported to "@ + name@,
            Ok(None) => "Exported to "@ + "file"@,
            Err(e) => "Export failed: "@ + e@,
        },
{
    match result {
        Ok(Some(name)) => concat2("Exported to ", name.as_str()),
        Ok(None) => concat2("Exported to ", "file"),
        Err(e) => concat2("Export failed: ", e.as_str()),
    }
}

} // verus!
