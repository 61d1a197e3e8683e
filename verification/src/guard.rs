//! The shared state of the service: how many tasks run, whether malware was
//! found, the scans in progress, the settings and the history.
//!
//! The service shares one value of this state between its threads behind a
//! lock; the operations here are what each thread does while holding it.

use vstd::prelude::*;
use crate::config::Config;
use crate::history::{History, ScanStatus};
use crate::timestamp::{Timestamp, SECS_PER_YEAR, MIN_SECS};
use crate::text::str_eq;

verus! {

/// The progress of one scan in progress.
pub struct ScanState {
    /// The file being scanned, as last reported.
    pub current_file: String,
    /// Whether the user asked to stop the scan.
    pub cancel_flag: bool,
}

/// A scan in progress, keyed by the path it scans.
pub struct ActiveScan {
    pub path: String,
    pub state: ScanState,
}

/// A scan in progress as (path, current file, cancel flag).
pub type ScanView = (Seq<char>, Seq<char>, bool);

/// The scans in progress as plain values.
pub open spec fn scans_view(v: Seq<ActiveScan>) -> Seq<ScanView> {
    v.map_values(|e: ActiveScan| (e.path@, e.state.current_file@, e.state.cancel_flag))
}

/// The first index of the scan of `p`, if there is one.
pub open spec fn position(s: Seq<ScanView>, p: Seq<char>) -> Option<int>
    decreases s.len(),
{
    if s.len() == 0 {
        None
    } else {
        match position(s.drop_last(), p) {
            Some(i) => Some(i),
            None => if s.last().0 == p {
                Some(s.len() - 1)
            } else {
                None
            },
        }
    }
}

/// No two scans in progress have the same path.
pub open spec fn distinct_paths(s: Seq<ScanView>) -> bool {
    forall|i: int, j: int| 0 <= i < s.len() && 0 <= j < s.len() && i != j ==> s[i].0 != s[j].0
}

/// The scans after `add_scan(p)`: a new scan of `p` that has not read any
/// file yet and is not cancelled, in place of an earlier one of `p`.
pub open spec fn scans_after_add(s: Seq<ScanView>, p: Seq<char>) -> Seq<ScanView> {
    let e = (p, "Starting..."@, false);
    match position(s, p) {
        Some(i) => s.update(i, e),
        None => s.push(e),
    }
}

/// The scans after `remove_scan(p)`.
pub open spec fn scans_after_remove(s: Seq<ScanView>, p: Seq<char>) -> Seq<ScanView> {
    match position(s, p) {
        Some(i) => s.remove(i),
        None => s,
    }
}

/// The scans after `update_scan_status(p, f)`.
pub open spec fn scans_after_status(s: Seq<ScanView>, p: Seq<char>, f: Seq<char>) -> Seq<ScanView> {
    match position(s, p) {
        Some(i) => s.update(i, (s[i].0, f, s[i].2)),
        None => s,
    }
}

/// The scans after `cancel_scan(p)`.
pub open spec fn scans_after_cancel(s: Seq<ScanView>, p: Seq<char>) -> Seq<ScanView> {
    match position(s, p) {
        Some(i) => s.update(i, (s[i].0, s[i].1, true)),
        None => s,
    }
}

/// The task count after one more task starts (the counter wraps like an
/// atomic `fetch_add`).
pub open spec fn tasks_after_increment(n: usize) -> usize {
    if n == usize::MAX {
        0
    } else {
        (n + 1) as usize
    }
}

/// The task count after a task ends; it never goes below zero.
pub open spec fn tasks_after_decrement(n: usize) -> usize {
    if n == 0 {
        0
    } else {
        (n - 1) as usize
    }
}

/// `position` finds the scan of `p`, and is the only one in a list of
/// distinct paths.
pub proof fn lemma_position(s: Seq<ScanView>, p: Seq<char>)
    ensures
        match position(s, p) {
            Some(i) => 0 <= i < s.len() && s[i].0 == p && forall|j: int| 0 <= j < i ==> s[j].0 != p,
            None => forall|j: int| 0 <= j < s.len() ==> s[j].0 != p,
        },
    decreases s.len(),
{
    if s.len() > 0 {
        lemma_position(s.drop_last(), p);
        assert(forall|j: int| 0 <= j < s.len() - 1 ==> s.drop_last()[j] == s[j]);
    }
}

/// The result of a scan as handed back by the scanner: what it found, or
/// the error that stopped it.
pub type ScanOutcome = Result<(bool, String, Vec<String>), String>;

/// Whether `e` is the history entry for the outcome of the scan of `path`
/// at `now`: clean or infected with the scan's summary and files, or failed
/// with the error and no files.
pub open spec fn is_entry_for(e: crate::history::ScanEntry, now: Timestamp, path: Seq<char>, outcome: ScanOutcome) -> bool {
    &&& e.timestamp == now
    &&& e.path@ == path
    &&& match outcome {
        Ok((infected, summary, files)) => {
            &&& e.status == if infected {
                ScanStatus::Infected
            } else {
                ScanStatus::Clean
            }
            &&& e.details@ == summary@
            &&& e.infected_files@ == files@
        },
        Err(msg) => {
            &&& e.status == ScanStatus::Failed
            &&& e.details@ == msg@
            &&& e.infected_files@.len() == 0
        },
    }
}

/// The shared state of the service.
pub struct AppState {
    /// Tasks in progress (scans and database updates).
    pub active_tasks: usize,
    /// Whether malware was found and the warning not yet dismissed.
    pub infection_found: bool,
    /// The scans in progress.
    pub active_scans: Vec<ActiveScan>,
    /// The settings in effect.
    pub config: Config,
    /// The scan history.
    pub history: History,
}

impl AppState {
    /// No two scans in progress share a path, and the history is valid.
    pub open spec fn wf(&self) -> bool {
        distinct_paths(scans_view(self.active_scans@)) && self.history.wf()
    }

    /// The state at start-up: nothing running, no warning, the given
    /// settings and history.
    pub fn new(config: Config, history: History) -> (r: AppState)
        requires
            history.wf(),
        ensures
            r.wf(),
            r.active_tasks == 0,
            !r.infection_found,
            r.active_scans@.len() == 0,
            r.config == config,
            r.history == history,
    {
        AppState { active_tasks: 0, infection_found: false, active_scans: Vec::new(), config, history }
    }

    /// Where the scan of `path` is in the list, if it is running.
    fn find_scan(&self, path: &str) -> (r: Option<usize>)
        ensures
            match r {
                Some(i) => position(scans_view(self.active_scans@), path@) == Some(i as int),
                None => position(scans_view(self.active_scans@), path@) is None,
            },
    {
        let ghost s = scans_view(self.active_scans@);
        proof {
            lemma_position(s, path@);
        }
        let mut i: usize = 0;
        while i < self.active_scans.len()
            invariant
                s == scans_view(self.active_scans@),
                i <= self.active_scans.len(),
                forall|j: int| 0 <= j < i ==> s[j].0 != path@,
                match position(s, path@) {
                    Some(k) => 0 <= k < s.len() && s[k].0 == path@ && forall|j: int|
                        0 <= j < k ==> s[j].0 != path@,
                    None => forall|j: int| 0 <= j < s.len() ==> s[j].0 != path@,
                },
            decreases self.active_scans.len() - i,
        {
            if str_eq(self.active_scans[i].path.as_str(), path) {
                assert(s[i as int].0 == path@);
                return Some(i);
            }
            i = i + 1;
        }
        None
    }

    /// One more task is running.
    pub fn increment(&mut self)
        ensures
            final(self).active_tasks == tasks_after_increment(old(self).active_tasks),
            final(self).infection_found == old(self).infection_found,
            final(self).active_scans == old(self).active_scans,
            final(self).config == old(self).config,
            final(self).history == old(self).history,
    {
        if self.active_tasks == usize::MAX {
            self.active_tasks = 0;
        } else {
            self.active_tasks = self.active_tasks + 1;
        }
    }

    /// A task finished; the count stays at zero if it already is.
    pub fn decrement(&mut self)
        ensures
            final(self).active_tasks == tasks_after_decrement(old(self).active_tasks),
            final(self).infection_found == old(self).infection_found,
            final(self).active_scans == old(self).active_scans,
            final(self).config == old(self).config,
            final(self).history == old(self).history,
    {
        if self.active_tasks > 0 {
            self.active_tasks = self.active_tasks - 1;
        }
    }

    /// Malware was found.
    pub fn report_infection(&mut self)
        ensures
            final(self).infection_found,
            final(self).active_tasks == old(self).active_tasks,
            final(self).active_scans == old(self).active_scans,
            final(self).config == old(self).config,
            final(self).history == old(self).history,
    {
        self.infection_found = true;
    }

    /// The warning about malware was dismissed.
    pub fn clear_infection(&mut self)
        ensures
            !final(self).infection_found,
            final(self).active_tasks == old(self).active_tasks,
            final(self).active_scans == old(self).active_scans,
            final(self).config == old(self).config,
            final(self).history == old(self).history,
    {
        self.infection_found = false;
    }

    /// A scan of `path` starts: it is listed (in place of an earlier one of
    /// the same path) and counted as a task.
    pub fn add_scan(&mut self, path: String)
        requires
            old(self).wf(),
        ensures
            final(self).wf(),
            scans_view(final(self).active_scans@) == scans_after_add(
                scans_view(old(self).active_scans@),
                path@,
            ),
            final(self).active_tasks == tasks_after_increment(old(self).active_tasks),
            final(self).infection_found == old(self).infection_found,
            final(self).config == old(self).config,
            final(self).history == old(self).history,
    {
        let ghost s = scans_view(self.active_scans@);
        let ghost p = path@;
        proof {
            lemma_position(s, p);
        }
        let entry = ActiveScan {
            path,
            state: ScanState { current_file: String::from_str("Starting..."), cancel_flag: false },
        };
        match self.find_scan(entry.path.as_str()) {
            Some(i) => {
                self.active_scans.set(i, entry);
                assert(scans_view(self.active_scans@) =~= s.update(
                    i as int,
                    (p, "Starting..."@, false),
                ));
            },
            None => {
                self.active_scans.push(entry);
                assert(scans_view(self.active_scans@) =~= s.push((p, "Starting..."@, false)));
            },
        }
        self.increment();
    }

    /// The scan of `path` reports the file it is on.
    pub fn update_scan_status(&mut self, path: &str, current_file: String)
        requires
            old(self).wf(),
        ensures
            final(self).wf(),
            scans_view(final(self).active_scans@) == scans_after_status(
                scans_view(old(self).active_scans@),
                path@,
                current_file@,
            ),
            final(self).active_tasks == old(self).active_tasks,
            final(self).infection_found == old(self).infection_found,
            final(self).config == old(self).config,
            final(self).history == old(self).history,
    {
        let ghost s = scans_view(self.active_scans@);
        proof {
            lemma_position(s, path@);
        }
        match self.find_scan(path) {
            Some(i) => {
                let cancel = self.active_scans[i].state.cancel_flag;
                let p = self.active_scans[i].path.clone();
                let entry = ActiveScan { path: p, state: ScanState { current_file, cancel_flag: cancel } };
                self.active_scans.set(i, entry);
                assert(scans_view(self.active_scans@) =~= s.update(
                    i as int,
                    (s[i as int].0, current_file@, s[i as int].2),
                ));
            },
            None => {},
        }
    }

    /// The user asks to stop the scan of `path`.
    pub fn cancel_scan(&mut self, path: &str)
        requires
            old(self).wf(),
        ensures
            final(self).wf(),
            scans_view(final(self).active_scans@) == scans_after_cancel(
                scans_view(old(self).active_scans@),
                path@,
            ),
            final(self).active_tasks == old(self).active_tasks,
            final(self).infection_found == old(self).infection_found,
            final(self).config == old(self).config,
            final(self).history == old(self).history,
    {
        let ghost s = scans_view(self.active_scans@);
        proof {
            lemma_position(s, path@);
        }
        match self.find_scan(path) {
            Some(i) => {
                let f = self.active_scans[i].state.current_file.clone();
                let p = self.active_scans[i].path.clone();
                let entry = ActiveScan { path: p, state: ScanState { current_file: f, cancel_flag: true } };
                self.active_scans.set(i, entry);
                assert(scans_view(self.active_scans@) =~= s.update(
                    i as int,
                    (s[i as int].0, s[i as int].1, true),
                ));
            },
            None => {},
        }
    }

    /// The scan of `path` ends: it is no longer listed and no longer counted.
    pub fn remove_scan(&mut self, path: &str)
        requires
            old(self).wf(),
        ensures
            final(self).wf(),
            scans_view(final(self).active_scans@) == scans_after_remove(
                scans_view(old(self).active_scans@),
                path@,
            ),
            final(self).active_tasks == tasks_after_decrement(old(self).active_tasks),
            final(self).infection_found == old(self).infection_found,
            final(self).config == old(self).config,
            final(self).history == old(self).history,
    {
        let ghost s = scans_view(self.active_scans@);
        proof {
            lemma_position(s, path@);
        }
        match self.find_scan(path) {
            Some(i) => {
                self.active_scans.remove(i);
                assert(scans_view(self.active_scans@) =~= s.remove(i as int));
            },
            None => {},
        }
        self.decrement();
    }

    /// Whether the user asked to stop the scan of `path`.
    pub fn is_cancel_requested(&self, path: &str) -> (r: bool)
        ensures
            r == match position(scans_view(self.active_scans@), path@) {
                Some(i) => scans_view(self.active_scans@)[i].2,
                None => false,
            },
    {
        proof {
            lemma_position(scans_view(self.active_scans@), path@);
        }
        match self.find_scan(path) {
            Some(i) => self.active_scans[i].state.cancel_flag,
            None => false,
        }
    }

    /// Whether a scan of `path` is running.
    pub fn has_active_scan(&self, path: &str) -> (r: bool)
        ensures
            r == position(scans_view(self.active_scans@), path@) is Some,
    {
        self.find_scan(path).is_some()
    }

    /// The paths being scanned, in the order the scans started.
    pub fn active_scan_paths(&self) -> (r: Vec<String>)
        ensures
            crate::text::views(r@) == scans_view(self.active_scans@).map_values(|e: ScanView| e.0),
    {
        let mut r: Vec<String> = Vec::new();
        let mut i: usize = 0;
        while i < self.active_scans.len()
            invariant
                i <= self.active_scans.len(),
                crate::text::views(r@) == scans_view(self.active_scans@).take(i as int).map_values(
                    |e: ScanView| e.0,
                ),
            decreases self.active_scans.len() - i,
        {
            r.push(self.active_scans[i].path.clone());
            assert(scans_view(self.active_scans@).take(i + 1).map_values(|e: ScanView| e.0)
                =~= scans_view(self.active_scans@).take(i as int).map_values(|e: ScanView| e.0).push(
                self.active_scans@[i as int].path@,
            ));
            assert(crate::text::views(r@) =~= scans_view(self.active_scans@).take(i + 1).map_values(
                |e: ScanView| e.0,
            ));
            i = i + 1;
        }
        assert(scans_view(self.active_scans@).take(i as int) =~= scans_view(self.active_scans@));
        r
    }

    /// Records a finished scan in the history at `now`.
    pub fn add_history_entry(
        &mut self,
        now: Timestamp,
        path: String,
        status: ScanStatus,
        details: String,
        infected_files: Vec<String>,
    )
        requires
            old(self).wf(),
            now.wf(),
            now.secs >= MIN_SECS + SECS_PER_YEAR,
        ensures
            final(self).wf(),
            final(self).history.entries@ == crate::history::recent(
                old(self).history.entries@,
                now,
            ).push(crate::history::ScanEntry { timestamp: now, path, status, details, infected_files }),
            final(self).active_tasks == old(self).active_tasks,
            final(self).infection_found == old(self).infection_found,
            final(self).active_scans == old(self).active_scans,
            final(self).config == old(self).config,
    {
        self.history.add_entry(now, path, status, details, infected_files);
    }

    /// Records the outcome of the scan of `path` at `now`: a clean or
    /// infected entry with the scan's summary and infected files, raising
    /// the malware warning when it found malware; or a failed entry with
    /// the error and no files.
    pub fn record_scan_result(&mut self, now: Timestamp, path: String, outcome: ScanOutcome)
        requires
            old(self).wf(),
            now.wf(),
            now.secs >= MIN_SECS + SECS_PER_YEAR,
        ensures
            final(self).wf(),
            final(self).history.entries@.len() > 0,
            final(self).history.entries@.drop_last() == crate::history::recent(
                old(self).history.entries@,
                now,
            ),
            is_entry_for(final(self).history.entries@.last(), now, path@, outcome),
            final(self).infection_found == (old(self).infection_found || match outcome {
                Ok((infected, _, _)) => infected,
                Err(_) => false,
            }),
            final(self).active_tasks == old(self).active_tasks,
            final(self).active_scans == old(self).active_scans,
            final(self).config == old(self).config,
    {
        match outcome {
            Ok((infected, summary, files)) => {
                let status = if infected {
                    ScanStatus::Infected
                } else {
                    ScanStatus::Clean
                };
                self.add_history_entry(now, path, status, summary, files);
                if infected {
                    self.report_infection();
                }
            },
            Err(msg) => {
                self.add_history_entry(now, path, ScanStatus::Failed, msg, Vec::new());
            },
        }
    }
}

} // verus!
