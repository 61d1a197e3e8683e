# clamguard

A macOS service that watches `/Volumes` for newly mounted drives and scans
them with ClamAV, runs scheduled system scans, keeps the virus database up
to date, writes an audit log, posts Discord/Slack alerts, and shows its
state in the menu bar.

## Layout

- `src/` — the library, verified with Verus: the audit events and log
  lines, the settings and their environment overrides, the scan history and
  its CSV export, the clamscan session (output parsing, permission-error
  retries, the outcome of a run), the choice of volumes to scan and of when
  the scheduled scan is due, the webhook messages, the tray menu, the icon's
  pixels and the LaunchAgent files. `src/laws.rs` states properties that
  span several functions.
- `app/` — the program around it: processes, files, the network, the
  filesystem watcher, threads, the settings window and the menu-bar icon.
- `tests/` — tests of the library.
