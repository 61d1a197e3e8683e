//! The decisions of the background service: which newly mounted volumes to
//! scan, when the scheduled system scan is due, how often the virus
//! database is updated, and what the command line asks for.

use vstd::prelude::*;
use crate::audit::{log_error, AuditEvent};
use crate::config::{Config, ScheduleInterval};
use crate::history::{History, ScanStatus};
use crate::text::{chars_of, parse_u32, split_char, str_eq};
use crate::timestamp::Timestamp;

verus! {

// ---------------------------------------------------------------------------
// Mounted volumes

/// A volume that was scanned, with the device it was on.
pub struct ScannedMount {
    pub path: String,
    pub device: u64,
}

/// The scanned volumes as (path, device) pairs.
pub open spec fn mounts_view(v: Seq<ScannedMount>) -> Seq<(Seq<char>, u64)> {
    v.map_values(|m: ScannedMount| (m.path@, m.device))
}

/// The index of the volume at `p`, if it was scanned.
pub open spec fn mount_position(s: Seq<(Seq<char>, u64)>, p: Seq<char>) -> Option<int>
    decreases s.len(),
{
    if s.len() == 0 {
        None
    } else {
        match mount_position(s.drop_last(), p) {
            Some(i) => Some(i),
            None => if s.last().0 == p {
                Some(s.len() - 1)
            } else {
                None
            },
        }
    }
}

/// `mount_position` finds the entry of `p`, and no earlier one.
pub proof fn lemma_mount_position(s: Seq<(Seq<char>, u64)>, p: Seq<char>)
    ensures
        match mount_position(s, p) {
            Some(i) => 0 <= i < s.len() && s[i].0 == p && forall|j: int| 0 <= j < i ==> s[j].0 != p,
            None => forall|j: int| 0 <= j < s.len() ==> s[j].0 != p,
        },
    decreases s.len(),
{
    if s.len() > 0 {
        lemma_mount_position(s.drop_last(), p);
        assert(forall|j: int| 0 <= j < s.len() - 1 ==> s.drop_last()[j] == s[j]);
    }
}

/// What to do about a new entry in `/Volumes`.
#[derive(Clone, Copy, Debug, PartialEq, Eq, Structural)]
pub enum MountDecision {
    /// Its name starts with a dot.
    Hidden,
    /// Its device could not be read.
    Unreadable,
    /// It was already scanned on the same device.
    AlreadyScanned,
    /// A scan of it is running.
    InProgress,
    /// Scan it.
    Scan,
}

/// The decision for a new entry at `path` whose last component is `name`,
/// on `device`, given the volumes scanned so far and whether a scan of it is
/// running.
pub open spec fn mount_decision(
    scanned: Seq<(Seq<char>, u64)>,
    path: Seq<char>,
    name: Option<Seq<char>>,
    device: Option<u64>,
    in_progress: bool,
) -> MountDecision {
    if name matches Some(n) && n.len() > 0 && n[0] == '.' {
        MountDecision::Hidden
    } else if device is None {
        MountDecision::Unreadable
    } else if mount_position(scanned, path) matches Some(i) && scanned[i].1 == device->0 {
        MountDecision::AlreadyScanned
    } else if in_progress {
        MountDecision::InProgress
    } else {
        MountDecision::Scan
    }
}

/// The scanned volumes after recording `path` on `device`.
pub open spec fn mounts_after_record(s: Seq<(Seq<char>, u64)>, path: Seq<char>, device: u64) -> Seq<(Seq<char>, u64)> {
    match mount_position(s, path) {
        Some(i) => s.update(i, (path, device)),
        None => s.push((path, device)),
    }
}

/// The scanned volumes after forgetting `path`.
pub open spec fn mounts_after_remove(s: Seq<(Seq<char>, u64)>, path: Seq<char>) -> Seq<(Seq<char>, u64)> {
    match mount_position(s, path) {
        Some(i) => s.remove(i),
        None => s,
    }
}

/// The volumes already scanned, so that a volume is scanned once per
/// device until it goes away.
pub struct MountTracker {
    pub scanned: Vec<ScannedMount>,
}

impl MountTracker {
    /// No path appears twice.
    pub open spec fn wf(&self) -> bool {
        let s = mounts_view(self.scanned@);
        forall|i: int, j: int| 0 <= i < s.len() && 0 <= j < s.len() && i != j ==> s[i].0 != s[j].0
    }

    /// Nothing scanned yet.
    pub fn new() -> (r: MountTracker)
        ensures
            r.wf(),
            r.scanned@.len() == 0,
    {
        MountTracker { scanned: Vec::new() }
    }

    /// Where the volume at `path` is in the list, if it was scanned.
    fn find(&self, path: &str) -> (r: Option<usize>)
        ensures
            match r {
                Some(i) => mount_position(mounts_view(self.scanned@), path@) == Some(i as int),
                None => mount_position(mounts_view(self.scanned@), path@) is None,
            },
    {
        let ghost s = mounts_view(self.scanned@);
        proof {
            lemma_mount_position(s, path@);
        }
        let mut i: usize = 0;
        while i < self.scanned.len()
            invariant
                s == mounts_view(self.scanned@),
                i <= self.scanned.len(),
                forall|j: int| 0 <= j < i ==> s[j].0 != path@,
                match mount_position(s, path@) {
                    Some(k) => 0 <= k < s.len() && s[k].0 == path@ && forall|j: int|
                        0 <= j < k ==> s[j].0 != path@,
                    None => forall|j: int| 0 <= j < s.len() ==> s[j].0 != path@,
                },
            decreases self.scanned.len() - i,
        {
            if str_eq(self.scanned[i].path.as_str(), path) {
                assert(s[i as int].0 == path@);
                return Some(i);
            }
            i = i + 1;
        }
        None
    }

    /// Decides about a new entry at `path` in `/Volumes`, whose last path
    /// component is `name` (if it has one), on `device` (if it could be
    /// read), while a scan of it is or is not running. When it is to be
    /// scanned, it is recorded with its device.
    pub fn on_created(
        &mut self,
        path: &str,
        name: Option<&str>,
        device: Option<u64>,
        in_progress: bool,
    ) -> (r: MountDecision)
        requires
            old(self).wf(),
        ensures
            final(self).wf(),
            r == mount_decision(
                mounts_view(old(self).scanned@),
                path@,
                crate::audit::opt_view(name),
                device,
                in_progress,
            ),
            r == MountDecision::Scan ==> mounts_view(final(self).scanned@) == mounts_after_record(
                mounts_view(old(self).scanned@),
                path@,
                device->0,
            ),
            r != MountDecision::Scan ==> final(self).scanned@ == old(self).scanned@,
    {
        let ghost s = mounts_view(self.scanned@);
        proof {
            lemma_mount_position(s, path@);
        }
        match name {
            Some(n) => {
                let nv = chars_of(n);
                if nv.len() > 0 && nv[0] == '.' {
                    return MountDecision::Hidden;
                }
            },
            None => {},
        }
        let dev = match device {
            Some(d) => d,
            None => {
                return MountDecision::Unreadable;
            },
        };
        let found = self.find(path);
        match found {
            Some(i) => {
                if self.scanned[i].device == dev {
                    return MountDecision::AlreadyScanned;
                }
            },
            None => {},
        }
        if in_progress {
            return MountDecision::InProgress;
        }
        let entry = ScannedMount { path: String::from_str(path), device: dev };
        match found {
            Some(i) => {
                self.scanned.set(i, entry);
                assert(mounts_view(self.scanned@) =~= s.update(i as int, (path@, dev)));
            },
            None => {
                self.scanned.push(entry);
                assert(mounts_view(self.scanned@) =~= s.push((path@, dev)));
            },
        }
        MountDecision::Scan
    }

    /// Forgets the volume at `path` (it was removed, or is gone); says
    /// whether it had been scanned.
    pub fn remove(&mut self, path: &str) -> (r: bool)
        requires
            old(self).wf(),
        ensures
            final(self).wf(),
            r == mount_position(mounts_view(old(self).scanned@), path@) is Some,
            mounts_view(final(self).scanned@) == mounts_after_remove(
                mounts_view(old(self).scanned@),
                path@,
            ),
    {
        let ghost s = mounts_view(self.scanned@);
        proof {
            lemma_mount_position(s, path@);
        }
        match self.find(path) {
            Some(i) => {
                self.scanned.remove(i);
                assert(mounts_view(self.scanned@) =~= s.remove(i as int));
                true
            },
            None => false,
        }
    }

    /// The paths of the volumes scanned, in the order they were first
    /// scanned.
    pub fn paths(&self) -> (r: Vec<String>)
        ensures
            crate::text::views(r@) == mounts_view(self.scanned@).map_values(
                |m: (Seq<char>, u64)| m.0,
            ),
    {
        let mut r: Vec<String> = Vec::new();
        let mut i: usize = 0;
        while i < self.scanned.len()
            invariant
                i <= self.scanned.len(),
                crate::text::views(r@) == mounts_view(self.scanned@).take(i as int).map_values(
                    |m: (Seq<char>, u64)| m.0,
                ),
            decreases self.scanned.len() - i,
        {
            let ghost before = crate::text::views(r@);
            r.push(self.scanned[i].path.clone());
            assert(crate::text::views(r@) =~= before.push(self.scanned@[i as int].path@));
            assert(mounts_view(self.scanned@).take(i + 1).map_values(|m: (Seq<char>, u64)| m.0)
                =~= mounts_view(self.scanned@).take(i as int).map_values(
                |m: (Seq<char>, u64)| m.0,
            ).push(self.scanned@[i as int].path@));
            i = i + 1;
        }
        assert(mounts_view(self.scanned@).take(i as int) =~= mounts_view(self.scanned@));
        r
    }
}

// ---------------------------------------------------------------------------
// The scheduled system scan

/// The hour and minute of a `HH:MM` setting: exactly one `:`; each side
/// read as a `u32`, the hour defaulting to 2 and the minute to 0 when a side
/// is not a number.
pub open spec fn scheduled_time(t: Seq<char>) -> Option<(u32, u32)> {
    let parts = crate::text::split_pieces(t, ':');
    if parts.len() == 2 {
        Some(
            (
                match crate::text::parse_u32_spec(parts[0]) {
                    Some(h) => h,
                    None => 2,
                },
                match crate::text::parse_u32_spec(parts[1]) {
                    Some(m) => m,
                    None => 0,
                },
            ),
        )
    } else {
        None
    }
}

/// Whether the history holds a system scan (of `/`) from the same local
/// day as `now` that did not fail.
pub open spec fn ran_today(entries: Seq<crate::history::ScanEntry>, now: Timestamp) -> bool {
    exists|i: int|
        0 <= i < entries.len() && (#[trigger] entries[i]).path@ == "/"@
            && entries[i].timestamp.local_day() == now.local_day() && entries[i].status
            != ScanStatus::Failed
}

/// Whether the scheduled system scan is due at `now`: scheduling is on,
/// the setting names this hour and minute, it is the right weekday for a
/// weekly schedule, and no system scan succeeded today.
pub open spec fn scan_due(
    interval: ScheduleInterval,
    time: Seq<char>,
    day: u32,
    entries: Seq<crate::history::ScanEntry>,
    now: Timestamp,
) -> bool {
    &&& interval != ScheduleInterval::Never
    &&& scheduled_time(time) matches Some((h, m))
    &&& now.hour_spec() == h
    &&& now.minute_spec() == m
    &&& (interval == ScheduleInterval::Daily || now.weekday_spec() == day)
    &&& !ran_today(entries, now)
}

/// Whether the scheduled system scan is to start at `now`.
pub fn scheduled_scan_due(config: &Config, history: &History, now: &Timestamp) -> (r: bool)
    requires
        history.wf(),
        now.wf(),
    ensures
        r == scan_due(
            config.scheduled_scan_interval,
            config.scheduled_scan_time@,
            config.scheduled_scan_day,
            history.entries@,
            *now,
        ),
{
    if config.scheduled_scan_interval == ScheduleInterval::Never {
        return false;
    }
    let parts = split_char(config.scheduled_scan_time.as_str(), ':');
    if parts.len() != 2 {
        return false;
    }
    assert(crate::text::views(parts@)[0] == parts@[0]@);
    assert(crate::text::views(parts@)[1] == parts@[1]@);
    let hour = match parse_u32(parts[0].as_str()) {
        Some(h) => h,
        None => 2,
    };
    let minute = match parse_u32(parts[1].as_str()) {
        Some(m) => m,
        None => 0,
    };
    if now.hour() != hour || now.minute() != minute {
        return false;
    }
    let on_day = match config.scheduled_scan_interval {
        ScheduleInterval::Daily => true,
        ScheduleInterval::Weekly => now.weekday_from_sunday() == config.scheduled_scan_day,
        ScheduleInterval::Never => false,
    };
    if !on_day {
        return false;
    }
    let today = now.day_number();
    let mut i: usize = 0;
    while i < history.entries.len()
        invariant
            history.wf(),
            now.wf(),
            today == now.local_day(),
            i <= history.entries.len(),
            forall|k: int|
                0 <= k < i ==> !((#[trigger] history.entries@[k]).path@ == "/"@
                    && history.entries@[k].timestamp.local_day() == now.local_day()
                    && history.entries@[k].status != ScanStatus::Failed),
        decreases history.entries.len() - i,
    {
        let e = &history.entries[i];
        assert(e.timestamp.wf());
        if str_eq(e.path.as_str(), "/") && e.timestamp.day_number() == today && e.status
            != ScanStatus::Failed {
            return false;
        }
        i = i + 1;
    }
    true
}

// ---------------------------------------------------------------------------
// Database updates and start-up checks

/// How many seconds apart the periodic database updates run, or `None` when
/// the interval is 0 and they are off.
pub fn freshclam_period_secs(hours: u32) -> (r: Option<u64>)
    ensures
        r == if hours == 0 {
            None::<u64>
        } else {
            Some((hours * 3600) as u64)
        },
{
    if hours == 0 {
        None
    } else {
        Some(hours as u64 * 3600)
    }
}

/// The audit event when clamscan is neither in a usual place (the path is
/// the bare name `clamscan`) nor runnable from `PATH`.
pub fn clamscan_check(resolved: &str, runs_from_path: bool) -> (r: Option<AuditEvent>)
    ensures
        match r {
            Some(e) => resolved@ == "clamscan"@ && !runs_from_path && e.event_type@ == "ERROR"@
                && e.message@ == "CRITICAL"@ + ": "@
                + "clamscan not found in common paths or PATH. Please install ClamAV."@,
            None => !(resolved@ == "clamscan"@ && !runs_from_path),
        },
{
    if str_eq(resolved, "clamscan") && !runs_from_path {
        Some(
            log_error(
                "CRITICAL",
                "clamscan not found in common paths or PATH. Please install ClamAV.",
            ),
        )
    } else {
        None
    }
}

/// The audit event when freshclam is neither in a usual place nor runnable
/// from `PATH`.
pub fn freshclam_check(resolved: &str, runs_from_path: bool) -> (r: Option<AuditEvent>)
    ensures
        match r {
            Some(e) => resolved@ == "freshclam"@ && !runs_from_path && e.event_type@ == "ERROR"@
                && e.message@ == "WARNING"@ + ": "@
                + "freshclam not found in common paths or PATH. Database updates might fail."@,
            None => !(resolved@ == "freshclam"@ && !runs_from_path),
        },
{
    if str_eq(resolved, "freshclam") && !runs_from_path {
        Some(
            log_error(
                "WARNING",
                "freshclam not found in common paths or PATH. Database updates might fail.",
            ),
        )
    } else {
        None
    }
}

// ---------------------------------------------------------------------------
// The command line

/// Whether some argument is exactly `a`.
fn has_arg(args: &Vec<String>, a: &str) -> (r: bool)
    ensures
        r == crate::text::views(args@).contains(a@),
{
    let mut i: usize = 0;
    while i < args.len()
        invariant
            i <= args.len(),
            forall|k: int| 0 <= k < i ==> args@[k]@ != a@,
        decreases args.len() - i,
    {
        if str_eq(args[i].as_str(), a) {
            assert(crate::text::views(args@)[i as int] == a@);
            return true;
        }
        i = i + 1;
    }
    proof {
        if crate::text::views(args@).contains(a@) {
            let k = choose|k: int|
                0 <= k < crate::text::views(args@).len() && crate::text::views(args@)[k] == a@;
            assert(args@[k]@ == a@);
        }
    }
    false
}

/// Whether the command line asks for the version (`--version` or `-v`).
pub fn wants_version(args: &Vec<String>) -> (r: bool)
    ensures
        r == (crate::text::views(args@).contains("--version"@) || crate::text::views(
            args@,
        ).contains("-v"@)),
{
    has_arg(args, "--version") || has_arg(args, "-v")
}

/// Whether ejection on infection is on: asked for with `--eject`, or set in
/// the settings.
pub fn eject_enabled(args: &Vec<String>, config: &Config) -> (r: bool)
    ensures
        r == (crate::text::views(args@).contains("--eject"@) || config.eject_on_infection),
{
    has_arg(args, "--eject") || config.eject_on_infection
}

/// The text printed for `--version`.
pub fn version_text(version: &str) -> (r: String)
    ensures
        r@ == "clamguard version "@ + version@,
{
    crate::text::concat2("clamguard version ", version)
}

} // verus!
