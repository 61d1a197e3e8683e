//! Properties that hold across the library's operations.

use vstd::prelude::*;
use crate::guard::{distinct_paths, position, scans_after_add, scans_after_remove, tasks_after_decrement, tasks_after_increment, ScanView};
use crate::history::{
    csv_end_record, csv_field, csv_needs_quotes, csv_read, csv_record_text, csv_run, csv_start,
    csv_step, csv_text, csv_header, entry_fields, export_records, joined, quotes_doubled, recent,
    CsvMode, CsvReading, ScanEntry, ScanStatus,
};
use crate::scanner::{added, permission_fold};
use crate::service::{mount_decision, mount_position, mounts_after_record, mounts_after_remove, MountDecision};
use crate::text::{decimal, digit_char, digits_value, is_white_space, parse_u32_spec, trim_end, trim_start, trimmed};
use crate::timestamp::Timestamp;
use crate::tray::MenuAction;

verus! {

// ---------------------------------------------------------------------------
// Numbers and text

/// The decimal text of `n` consists of digits whose value is `n`.
proof fn lemma_decimal_digits(n: nat)
    ensures
        crate::text::all_digits(decimal(n)),
        digits_value(decimal(n)) == n,
    decreases n,
{
    assert(digit_char(n % 10) as u32 == n % 10 + 48);
    if n < 10 {
        let s = decimal(n);
        assert(s =~= seq![digit_char(n)]);
        assert(s.drop_last() =~= Seq::<char>::empty());
        assert(s.last() == digit_char(n));
        assert(digits_value(s) == digits_value(s.drop_last()) * 10 + ((s.last() as u32 - '0' as u32) as nat));
    } else {
        lemma_decimal_digits(n / 10);
        let s = decimal(n);
        assert(s.drop_last() =~= decimal(n / 10));
        assert(s.last() == digit_char(n % 10));
        assert(digits_value(s) == digits_value(s.drop_last()) * 10 + ((s.last() as u32 - '0' as u32) as nat));
        vstd::arithmetic::div_mod::lemma_fundamental_div_mod(n as int, 10);
        assert forall|i: int| 0 <= i < s.len() implies crate::text::is_digit(#[trigger] s[i]) by {
            if i < s.len() - 1 {
                assert(s[i] == decimal(n / 10)[i]);
            }
        }
    }
}

/// Reading back the decimal text of a `u32` gives the number.
pub proof fn law_decimal_parse_roundtrip(n: u32)
    ensures
        parse_u32_spec(decimal(n as nat)) == Some(n),
{
    lemma_decimal_digits(n as nat);
    let s = decimal(n as nat);
    assert(crate::text::is_digit(s[0]));
    assert(crate::text::unsigned_part(s) == s);
}

/// Leading whitespace is gone after `trim_start`.
proof fn lemma_trim_start_clean(s: Seq<char>)
    ensures
        trim_start(s).len() > 0 ==> !is_white_space(trim_start(s)[0]),
        trim_start(s).len() <= s.len(),
    decreases s.len(),
{
    if s.len() > 0 && is_white_space(s[0]) {
        lemma_trim_start_clean(s.drop_first());
    }
}

/// `trim_end` keeps a prefix, so it keeps the first character, and leaves
/// no trailing whitespace.
proof fn lemma_trim_end_clean(s: Seq<char>)
    ensures
        trim_end(s).len() <= s.len(),
        trim_end(s) == s.take(trim_end(s).len() as int),
        trim_end(s).len() > 0 ==> !is_white_space(trim_end(s).last()),
    decreases s.len(),
{
    if s.len() > 0 && is_white_space(s.last()) {
        lemma_trim_end_clean(s.drop_last());
        assert(s.drop_last().take(trim_end(s).len() as int) =~= s.take(trim_end(s).len() as int));
    } else {
        assert(s.take(s.len() as int) =~= s);
    }
}

/// Trimming twice is trimming once.
pub proof fn law_trim_idempotent(s: Seq<char>)
    ensures
        trimmed(trimmed(s)) == trimmed(s),
{
    let a = trim_start(s);
    let t = trim_end(a);
    lemma_trim_start_clean(s);
    lemma_trim_end_clean(a);
    if t.len() > 0 {
        assert(t[0] == a[0]);
        assert(trim_start(t) == t);
        assert(trim_end(t) == t);
    } else {
        assert(trim_start(t) == t);
        assert(trim_end(t) == t);
    }
}

// ---------------------------------------------------------------------------
// Shared state

/// The task count never goes below zero, and a task that starts and ends
/// leaves the count where it was.
pub proof fn law_task_count(n: usize)
    ensures
        tasks_after_decrement(0) == 0,
        n < usize::MAX ==> tasks_after_decrement(tasks_after_increment(n)) == n,
{
}

/// A scan that starts and ends leaves the list of scans in progress as it
/// was, when no scan of the same path was running.
pub proof fn law_add_then_remove_scan(s: Seq<ScanView>, p: Seq<char>)
    requires
        distinct_paths(s),
        position(s, p) is None,
    ensures
        scans_after_remove(scans_after_add(s, p), p) == s,
{
    let e = (p, "Starting..."@, false);
    let t = s.push(e);
    crate::guard::lemma_position(s, p);
    crate::guard::lemma_position(t, p);
    assert(scans_after_add(s, p) == t);
    match position(t, p) {
        Some(i) => {
            if i < s.len() {
                assert(t[i] == s[i]);
            }
            assert(i == s.len());
            assert(t.remove(i) =~= s);
        },
        None => {
            assert(t[s.len() as int].0 == p);
        },
    }
}

// ---------------------------------------------------------------------------
// History

/// Dropping year-old entries twice is the same as once.
pub proof fn law_prune_idempotent(entries: Seq<ScanEntry>, now: Timestamp)
    ensures
        recent(recent(entries, now), now) == recent(entries, now),
    decreases entries.len(),
{
    let pred = |e: ScanEntry| crate::history::newer_than(e, now.secs - crate::timestamp::SECS_PER_YEAR, now.nanos as int);
    lemma_filter_twice(entries, pred);
}

/// Filtering twice with the same predicate is filtering once.
proof fn lemma_filter_twice(s: Seq<ScanEntry>, pred: spec_fn(ScanEntry) -> bool)
    ensures
        s.filter(pred).filter(pred) == s.filter(pred),
    decreases s.len(),
{
    reveal_with_fuel(Seq::<_>::filter, 1);
    if s.len() > 0 {
        lemma_filter_twice(s.drop_last(), pred);
        let f = s.drop_last().filter(pred);
        if pred(s.last()) {
            assert(s.filter(pred) == f.push(s.last()));
            assert(f.push(s.last()).drop_last() =~= f);
            assert(f.push(s.last()).filter(pred) == f.filter(pred).push(s.last()));
        }
    }
}

// ---------------------------------------------------------------------------
// Mounted volumes

/// A volume that was just scanned is not scanned again on the same device
/// (unless its name hides it, in which case it is skipped anyway).
pub proof fn law_mount_scanned_once(
    s: Seq<(Seq<char>, u64)>,
    path: Seq<char>,
    name: Option<Seq<char>>,
    device: u64,
    in_progress: bool,
)
    ensures
        mount_decision(mounts_after_record(s, path, device), path, name, Some(device), in_progress)
            == MountDecision::AlreadyScanned || mount_decision(
            mounts_after_record(s, path, device),
            path,
            name,
            Some(device),
            in_progress,
        ) == MountDecision::Hidden,
{
    crate::service::lemma_mount_position(s, path);
    let t = mounts_after_record(s, path, device);
    crate::service::lemma_mount_position(t, path);
    match mount_position(s, path) {
        Some(i) => {
            assert(t == s.update(i, (path, device)));
            match mount_position(t, path) {
                Some(k) => {
                    if k < i {
                        assert(t[k] == s[k]);
                    }
                    if i < k {
                        assert(t[i].0 == path);
                    }
                    assert(k == i);
                },
                None => {
                    assert(t[i].0 == path);
                },
            }
        },
        None => {
            assert(t == s.push((path, device)));
            match mount_position(t, path) {
                Some(k) => {
                    if k < s.len() {
                        assert(t[k] == s[k]);
                    }
                    assert(k == s.len());
                },
                None => {
                    assert(t[s.len() as int].0 == path);
                },
            }
        },
    }
}

/// Once a volume is forgotten (it went away), it is scanned again when it
/// comes back and no scan of it is running (unless its name hides it).
pub proof fn law_mount_rescanned_after_removal(
    s: Seq<(Seq<char>, u64)>,
    path: Seq<char>,
    name: Option<Seq<char>>,
    device: u64,
)
    requires
        forall|i: int, j: int| 0 <= i < s.len() && 0 <= j < s.len() && i != j ==> s[i].0 != s[j].0,
    ensures
        mount_decision(mounts_after_remove(s, path), path, name, Some(device), false)
            == MountDecision::Scan || mount_decision(
            mounts_after_remove(s, path),
            path,
            name,
            Some(device),
            false,
        ) == MountDecision::Hidden,
{
    crate::service::lemma_mount_position(s, path);
    let t = mounts_after_remove(s, path);
    crate::service::lemma_mount_position(t, path);
    match mount_position(s, path) {
        Some(i) => {
            assert(t == s.remove(i));
            if let Some(k) = mount_position(t, path) {
                if k < i {
                    assert(t[k] == s[k]);
                } else {
                    assert(t[k] == s[k + 1]);
                }
            }
        },
        None => {
            assert(t == s);
        },
    }
}

// ---------------------------------------------------------------------------
// The scheduled scan

/// Once a system scan that did not fail is recorded at `now`, the scheduled
/// scan is not due again on the same local day.
pub proof fn law_scheduled_scan_once_a_day(
    entries: Seq<ScanEntry>,
    scan: ScanEntry,
    now: Timestamp,
    later: Timestamp,
    interval: crate::config::ScheduleInterval,
    time: Seq<char>,
    day: u32,
)
    requires
        scan.path@ == "/"@,
        scan.status != ScanStatus::Failed,
        scan.timestamp == now,
        later.local_day() == now.local_day(),
    ensures
        !crate::service::scan_due(interval, time, day, recent(entries, now).push(scan), later),
{
    let e = recent(entries, now).push(scan);
    assert(e[e.len() - 1] == scan);
    assert(crate::service::ran_today(e, later));
}

// ---------------------------------------------------------------------------
// Exclusions

/// Adding to a list keeps the list as its beginning.
proof fn lemma_added_prefix(v: Seq<Seq<char>>, x: Seq<char>)
    ensures
        added(v, x).len() >= v.len(),
        added(v, x).take(v.len() as int) == v,
{
    if !v.contains(x) {
        assert(v.push(x).take(v.len() as int) =~= v);
    } else {
        assert(v.take(v.len() as int) =~= v);
    }
}

/// Reading permission messages never drops an exclusion: the lists before
/// are the beginnings of the lists after.
pub proof fn law_exclusions_only_grow(
    files: Seq<Seq<char>>,
    dirs: Seq<Seq<char>>,
    lines: Seq<Seq<char>>,
)
    ensures
        permission_fold(files, dirs, lines).0.len() >= files.len(),
        permission_fold(files, dirs, lines).0.take(files.len() as int) == files,
        permission_fold(files, dirs, lines).1.len() >= dirs.len(),
        permission_fold(files, dirs, lines).1.take(dirs.len() as int) == dirs,
    decreases lines.len(),
{
    if lines.len() == 0 {
        assert(files.take(files.len() as int) =~= files);
        assert(dirs.take(dirs.len() as int) =~= dirs);
    } else {
        law_exclusions_only_grow(files, dirs, lines.drop_last());
        let (f, d) = permission_fold(files, dirs, lines.drop_last());
        if let Some((_, pat)) = crate::scanner::permission_exclusion(lines.last()) {
            lemma_added_prefix(f, pat);
            lemma_added_prefix(d, pat);
        }
        let (f2, d2) = permission_fold(files, dirs, lines);
        assert(f2.take(f.len() as int).take(files.len() as int) =~= f2.take(files.len() as int));
        assert(d2.take(d.len() as int).take(dirs.len() as int) =~= d2.take(dirs.len() as int));
    }
}

// ---------------------------------------------------------------------------
// Settings

/// With no environment variable set, the settings in effect are the stored
/// ones.
pub proof fn law_no_env_keeps_settings(r: crate::config::Config, base: crate::config::Config, env: crate::config::ConfigEnv)
    requires
        env.eject_on_infection is None,
        env.discord_webhooks is None,
        env.slack_webhooks is None,
        env.freshclam_interval_hours is None,
        env.scheduled_scan_interval is None,
        env.scheduled_scan_time is None,
        env.scheduled_scan_day is None,
        env.show_uninstall_button is None,
        env.show_quit_button is None,
        crate::config::overridden(r, base, env),
    ensures
        r.eject_on_infection == base.eject_on_infection,
        r.discord_webhooks@ == base.discord_webhooks@,
        r.slack_webhooks@ == base.slack_webhooks@,
        r.freshclam_interval_hours == base.freshclam_interval_hours,
        r.scheduled_scan_interval == base.scheduled_scan_interval,
        r.scheduled_scan_time@ == base.scheduled_scan_time@,
        r.scheduled_scan_day == base.scheduled_scan_day,
        r.show_uninstall_button == base.show_uninstall_button,
        r.show_quit_button == base.show_quit_button,
{
}

// ---------------------------------------------------------------------------
// The CSV export

/// Reading `a` then `b` is reading `a + b`.
proof fn lemma_csv_run_concat(a: Seq<char>, b: Seq<char>, r: CsvReading)
    ensures
        csv_run(a + b, r) == csv_run(b, csv_run(a, r)),
    decreases b.len(),
{
    if b.len() == 0 {
        assert(a + b =~= a);
    } else {
        lemma_csv_run_concat(a, b.drop_last(), r);
        assert((a + b).drop_last() =~= a + b.drop_last());
        assert((a + b).last() == b.last());
    }
}

/// Reading one character is one step.
proof fn lemma_csv_run_one(c: char, r: CsvReading)
    ensures
        csv_run(seq![c], r) == csv_step(r, c),
{
    let s = seq![c];
    assert(s.drop_last() =~= Seq::<char>::empty());
    assert(csv_run(Seq::<char>::empty(), r) == r);
    assert(s.last() == c);
}

/// Whether `r` holds the field `f` read to its end, with the fields `record`
/// before it in the record and the records `records` before that.
spec fn csv_pending(r: CsvReading, f: Seq<char>, record: Seq<Seq<char>>, records: Seq<Seq<Seq<char>>>) -> bool {
    &&& r.field == f
    &&& r.record == record
    &&& r.records == records
    &&& (r.mode == CsvMode::Unquoted || r.mode == CsvMode::QuoteSeen || (r.mode
        == CsvMode::FieldStart && f.len() == 0))
}

/// A field that needs no quotes is read back as it is.
proof fn lemma_csv_unquoted(f: Seq<char>, r: CsvReading)
    requires
        r.mode == CsvMode::FieldStart,
        r.field.len() == 0,
        f.len() > 0,
        !csv_needs_quotes(f),
    ensures
        csv_run(f, r) == (CsvReading { mode: CsvMode::Unquoted, field: f, ..r }),
    decreases f.len(),
{
    let c = f.last();
    assert(f.contains(c));
    if f.len() == 1 {
        assert(f.drop_last() =~= Seq::<char>::empty());
        assert(f =~= seq![c]);
        assert(r.field.push(c) =~= f);
    } else {
        let g = f.drop_last();
        assert(!csv_needs_quotes(g)) by {
            if g.contains(',') || g.contains('"') || g.contains('\r') || g.contains('\n') {
                let k = choose|k: int|
                    0 <= k < g.len() && (g[k] == ',' || g[k] == '"' || g[k] == '\r' || g[k]
                        == '\n');
                assert(f[k] == g[k]);
            }
        }
        lemma_csv_unquoted(g, r);
        assert(g.push(c) =~= f);
    }
}

/// The quotes-doubled text of `f`, read inside a quoted field, adds `f` to
/// the field.
proof fn lemma_csv_quoted(f: Seq<char>, r: CsvReading)
    requires
        r.mode == CsvMode::Quoted,
    ensures
        csv_run(quotes_doubled(f), r) == (CsvReading { field: r.field + f, ..r }),
    decreases f.len(),
{
    if f.len() == 0 {
        assert(r.field + f =~= r.field);
    } else {
        let g = f.drop_last();
        let c = f.last();
        lemma_csv_quoted(g, r);
        let mid = csv_run(quotes_doubled(g), r);
        assert(g.push(c) =~= f);
        if c == '"' {
            let one = seq!['"'];
            lemma_csv_run_concat(quotes_doubled(g), one + one, r);
            lemma_csv_run_concat(one, one, mid);
            lemma_csv_run_one('"', mid);
            lemma_csv_run_one('"', csv_step(mid, '"'));
            assert(quotes_doubled(f) =~= quotes_doubled(g) + (one + one));
            assert(mid.field.push('"') =~= r.field + f);
        } else {
            let tail = seq![c];
            lemma_csv_run_concat(quotes_doubled(g), tail, r);
            lemma_csv_run_one(c, mid);
            assert(quotes_doubled(f) == quotes_doubled(g).push(c));
            assert(quotes_doubled(g).push(c) =~= quotes_doubled(g) + tail);
            assert(mid.field.push(c) =~= r.field + f);
        }
    }
}

/// A field written as CSV text is read back as that field, ready to be
/// ended by a comma or a newline.
proof fn lemma_csv_field(f: Seq<char>, r: CsvReading)
    requires
        r.mode == CsvMode::FieldStart,
        r.field.len() == 0,
    ensures
        csv_pending(csv_run(csv_field(f), r), f, r.record, r.records),
{
    if csv_needs_quotes(f) {
        let open = seq!['"'];
        assert("\""@ =~= open) by {
            reveal_strlit("\"");
        }
        let q = csv_run(open, r);
        lemma_csv_run_one('"', r);
        assert(q == (CsvReading { mode: CsvMode::Quoted, ..r }));
        lemma_csv_quoted(f, q);
        assert(q.field + f =~= f);
        lemma_csv_run_concat(open, quotes_doubled(f), r);
        let inner = open + quotes_doubled(f);
        lemma_csv_run_concat(inner, open, r);
        assert(csv_run(inner, r) == (CsvReading { mode: CsvMode::Quoted, field: f, ..r }));
        lemma_csv_run_one('"', csv_run(inner, r));
        assert(csv_field(f) =~= inner + open);
        assert(csv_run(csv_field(f), r) == (CsvReading { mode: CsvMode::QuoteSeen, field: f, ..r }));
    } else if f.len() > 0 {
        lemma_csv_unquoted(f, r);
    } else {
        assert(csv_field(f) =~= Seq::<char>::empty());
        assert(csv_run(Seq::<char>::empty(), r) == r);
        assert(r.field =~= f);
    }
}

/// The CSV text of a non-empty list of fields, read from the start of a
/// field, leaves the last field ready to be ended and the others in the
/// record.
proof fn lemma_csv_joined(fields: Seq<Seq<char>>, r: CsvReading)
    requires
        fields.len() >= 1,
        r.mode == CsvMode::FieldStart,
        r.field.len() == 0,
    ensures
        csv_pending(
            csv_run(joined(fields.map_values(|f: Seq<char>| csv_field(f)), ","@), r),
            fields.last(),
            r.record + fields.drop_last(),
            r.records,
        ),
    decreases fields.len(),
{
    let m = fields.map_values(|f: Seq<char>| csv_field(f));
    if fields.len() == 1 {
        assert(joined(m, ","@) == m[0]);
        lemma_csv_field(fields[0], r);
        assert(r.record + fields.drop_last() =~= r.record);
    } else {
        let g = fields.drop_last();
        let mg = g.map_values(|f: Seq<char>| csv_field(f));
        assert(m.drop_last() =~= mg);
        assert(m.last() == csv_field(fields.last()));
        assert(joined(m, ","@) == joined(mg, ","@) + ","@ + m.last());
        lemma_csv_joined(g, r);
        let a = joined(mg, ","@);
        let after_a = csv_run(a, r);
        let comma = seq![','];
        assert(","@ =~= comma) by {
            reveal_strlit(",");
        }
        let after_comma = csv_run(comma, after_a);
        lemma_csv_run_one(',', after_a);
        assert(after_comma.record =~= r.record + fields.drop_last()) by {
            assert(g.drop_last().push(g.last()) =~= g);
            assert((r.record + g.drop_last()).push(g.last()) =~= r.record + g);
        }
        lemma_csv_field(fields.last(), after_comma);
        lemma_csv_run_concat(a, comma, r);
        lemma_csv_run_concat(a + comma, csv_field(fields.last()), r);
    }
}

/// The joined CSV text of two or more fields is not empty.
proof fn lemma_joined_two_nonempty(m: Seq<Seq<char>>)
    requires
        m.len() >= 2,
    ensures
        joined(m, ","@).len() > 0,
{
    assert(joined(m, ","@) == joined(m.drop_last(), ","@) + ","@ + m.last());
    assert(","@.len() == 1) by {
        reveal_strlit(",");
    }
}

/// One record written as CSV is read back as that record (a record needs at
/// least one field; no fields are written as one empty field).
proof fn lemma_csv_record(fields: Seq<Seq<char>>, r: CsvReading)
    requires
        fields.len() >= 1,
        r.mode == CsvMode::FieldStart,
        r.field.len() == 0,
        r.record.len() == 0,
    ensures
        csv_run(csv_record_text(fields), r) == csv_end_record(
            CsvReading { field: fields.last(), record: fields.drop_last(), ..r },
        ),
{
    let m = fields.map_values(|f: Seq<char>| csv_field(f));
    let body = joined(m, ","@);
    let nl = seq!['\n'];
    assert("\n"@ =~= nl) by {
        reveal_strlit("\n");
    }
    assert(nl.drop_last() =~= Seq::<char>::empty());
    if body.len() == 0 {
        if fields.len() >= 2 {
            lemma_joined_two_nonempty(m);
        }
        assert(fields.len() == 1);
        assert(body == csv_field(fields[0]));
        if csv_needs_quotes(fields[0]) {
            assert(("\""@ + quotes_doubled(fields[0]) + "\""@).len() >= 2) by {
                reveal_strlit("\"");
            }
        }
        assert(fields[0].len() == 0);
        let t = seq!['"', '"', '\n'];
        assert("\"\"\n"@ =~= t) by {
            reveal_strlit("\"\"\n");
        }
        let s1 = csv_step(r, '"');
        let s2 = csv_step(s1, '"');
        lemma_csv_run_one('"', r);
        lemma_csv_run_one('"', s1);
        lemma_csv_run_one('\n', s2);
        lemma_csv_run_concat(seq!['"'], seq!['"'], r);
        lemma_csv_run_concat(seq!['"'] + seq!['"'], seq!['\n'], r);
        assert(t =~= (seq!['"'] + seq!['"']) + seq!['\n']);
        assert(csv_run(t, r) == csv_step(s2, '\n'));
        assert(fields.drop_last() =~= Seq::<Seq<char>>::empty());
        assert(fields.last() =~= Seq::<char>::empty());
        assert(r.field =~= fields.last());
        assert(r.record =~= fields.drop_last());
    } else {
        lemma_csv_joined(fields, r);
        assert(r.record + fields.drop_last() =~= fields.drop_last());
        lemma_csv_run_concat(body, nl, r);
        lemma_csv_run_one('\n', csv_run(body, r));
        assert(csv_record_text(fields) == body + nl);
    }
}

/// Whether every record has at least one field.
pub open spec fn records_have_fields(records: Seq<Seq<Seq<char>>>) -> bool {
    forall|i: int| 0 <= i < records.len() ==> (#[trigger] records[i]).len() >= 1
}

/// The CSV text of `records`, read from the start, has read exactly them.
proof fn lemma_csv_text(records: Seq<Seq<Seq<char>>>)
    requires
        records_have_fields(records),
    ensures
        csv_run(csv_text(records), csv_start()) == (CsvReading { records, ..csv_start() }),
    decreases records.len(),
{
    if records.len() == 0 {
        assert(records =~= Seq::<Seq<Seq<char>>>::empty());
    } else {
        let g = records.drop_last();
        assert(records_have_fields(g)) by {
            assert forall|i: int| 0 <= i < g.len() implies (#[trigger] g[i]).len() >= 1 by {
                assert(g[i] == records[i]);
            }
        }
        lemma_csv_text(g);
        let st = CsvReading { records: g, ..csv_start() };
        let last = records.last();
        assert(last.len() >= 1) by {
            assert(records[records.len() - 1] == last);
        }
        lemma_csv_record(last, st);
        lemma_csv_run_concat(csv_text(g), csv_record_text(last), csv_start());
        assert(last.drop_last().push(last.last()) =~= last);
        assert(g.push(last) =~= records);
    }
}

/// CSV text written for records that each have a field reads back as
/// those records: every field comes back as it was, commas, quotes and line
/// breaks included.
pub proof fn law_csv_reads_back(records: Seq<Seq<Seq<char>>>)
    requires
        records_have_fields(records),
    ensures
        csv_read(csv_text(records)) == records,
{
    lemma_csv_text(records);
}

/// The CSV export of a history reads back as the header record followed by
/// one record per entry, with the entry's time, path, status, details and
/// infected files.
pub proof fn law_csv_export_reads_back(entries: Seq<ScanEntry>)
    ensures
        csv_read(csv_text(export_records(entries))) == export_records(entries),
{
    let records = export_records(entries);
    assert(records_have_fields(records)) by {
        assert forall|i: int| 0 <= i < records.len() implies (#[trigger] records[i]).len() >= 1 by {
            if i == 0 {
                assert(records[0] == csv_header());
            } else {
                assert(records[i] == entry_fields(entries[i - 1]));
            }
        }
    }
    law_csv_reads_back(records);
}

// ---------------------------------------------------------------------------
// What a finished scan asks for

/// A finished scan asks for the drive to be ejected exactly when it found
/// malware and ejection on infection is set, and sends alerts exactly when
/// it found malware; malware is found only on exit code 1.
pub proof fn law_scan_outcome_actions(
    code: Option<i32>,
    summary: Seq<char>,
    retry: u32,
    target: Seq<char>,
    eject_on_infection: bool,
)
    ensures
        ({
            let o = crate::scanner::outcome(code, summary, retry, target, eject_on_infection);
            &&& o.4 == (o.0 && eject_on_infection)
            &&& !eject_on_infection ==> !o.4
            &&& o.3 == o.0
            &&& o.0 ==> code == Some(1i32)
            &&& o.2.len() >= 1
            &&& o.2.last().0 == "SCAN_COMPLETE"@
            &&& ("Scan of "@ + target + " finished. Status: "@ + (if o.0 {
                "INFECTED"@
            } else {
                "CLEAN"@
            })).is_prefix_of(o.2.last().1)
            &&& o.0 ==> o.2.len() == 2 && o.2[0].0 == "INFECTION_DETECTED"@
            &&& !o.0 ==> o.2.len() == 1
        }),
{
    let o = crate::scanner::outcome(code, summary, retry, target, eject_on_infection);
    let last = o.2.last().1;
    let pre = "Scan of "@ + target + " finished. Status: "@ + (if o.0 {
        "INFECTED"@
    } else {
        "CLEAN"@
    });
    assert(crate::audit::scan_status_word(o.0) == (if o.0 {
        "INFECTED"@
    } else {
        "CLEAN"@
    }));
    assert(last.subrange(0, pre.len() as int) =~= pre);
}

// ---------------------------------------------------------------------------
// The scheduled scan and the local clock

/// The second of the local day of a moment: seconds since the epoch plus
/// the UTC offset, taken modulo a day.
pub open spec fn local_second_of_day(t: Timestamp) -> int {
    (t.secs + t.offset_secs) % 86400
}

/// The local day number of a moment (days since 1970-01-01 on the local
/// clock).
pub open spec fn local_day_number(t: Timestamp) -> int {
    (t.secs + t.offset_secs) / 86400
}

/// At a moment whose local time of day is the scheduled `HH:MM`, on a day
/// the schedule names (any day when daily; the set weekday, counted from
/// Sunday, when weekly), with no scan of `/` that did not fail on the same
/// local day, the scheduled scan is due; whatever the UTC offset.
pub proof fn law_scheduled_scan_due_at_local_time(
    interval: crate::config::ScheduleInterval,
    time: Seq<char>,
    day: u32,
    entries: Seq<ScanEntry>,
    now: Timestamp,
    h: u32,
    m: u32,
)
    requires
        interval != crate::config::ScheduleInterval::Never,
        crate::service::scheduled_time(time) == Some((h, m)),
        local_second_of_day(now) / 3600 == h,
        (local_second_of_day(now) % 3600) / 60 == m,
        interval == crate::config::ScheduleInterval::Daily || (local_day_number(now) + 4) % 7
            == day,
        forall|i: int|
            0 <= i < entries.len() && (#[trigger] entries[i]).path@ == "/"@ && entries[i].status
                != ScanStatus::Failed ==> local_day_number(entries[i].timestamp)
                != local_day_number(now),
    ensures
        crate::service::scan_due(interval, time, day, entries, now),
{
    assert(!crate::service::ran_today(entries, now)) by {
        if crate::service::ran_today(entries, now) {
            let i = choose|i: int|
                0 <= i < entries.len() && (#[trigger] entries[i]).path@ == "/"@
                    && entries[i].timestamp.local_day() == now.local_day() && entries[i].status
                    != ScanStatus::Failed;
            assert(local_day_number(entries[i].timestamp) != local_day_number(now));
        }
    }
}

/// The scheduled scan is due only at the scheduled `HH:MM` of the local
/// clock (UTC offset included), and never when scheduling is off.
pub proof fn law_scheduled_scan_only_at_local_time(
    interval: crate::config::ScheduleInterval,
    time: Seq<char>,
    day: u32,
    entries: Seq<ScanEntry>,
    now: Timestamp,
)
    requires
        crate::service::scan_due(interval, time, day, entries, now),
    ensures
        interval != crate::config::ScheduleInterval::Never,
        match crate::service::scheduled_time(time) {
            Some((h, m)) => local_second_of_day(now) / 3600 == h && (local_second_of_day(now)
                % 3600) / 60 == m,
            None => false,
        },
        interval == crate::config::ScheduleInterval::Weekly ==> (local_day_number(now) + 4) % 7
            == day,
{
}

// ---------------------------------------------------------------------------
// Environment overrides, one variable at a time

/// Each variable that is set decides its own setting, whatever the other
/// variables hold: the two webhook lists and the scan time are taken as
/// given, the numbers when they read as a `u32`; each variable that is not
/// set leaves its setting as it was.
pub proof fn law_each_variable_sets_its_setting(
    r: crate::config::Config,
    base: crate::config::Config,
    env: crate::config::ConfigEnv,
)
    requires
        crate::config::overridden(r, base, env),
    ensures
        env.slack_webhooks matches Some(s) ==> r.slack_webhooks@ == s@,
        env.slack_webhooks is None ==> r.slack_webhooks@ == base.slack_webhooks@,
        env.discord_webhooks matches Some(s) ==> r.discord_webhooks@ == s@,
        env.discord_webhooks is None ==> r.discord_webhooks@ == base.discord_webhooks@,
        env.scheduled_scan_time matches Some(s) ==> r.scheduled_scan_time@ == s@,
        env.scheduled_scan_time is None ==> r.scheduled_scan_time@ == base.scheduled_scan_time@,
        env.freshclam_interval_hours matches Some(s) ==> (parse_u32_spec(s@) matches Some(n)
            ==> r.freshclam_interval_hours == n),
        env.freshclam_interval_hours is None ==> r.freshclam_interval_hours
            == base.freshclam_interval_hours,
        env.scheduled_scan_day matches Some(s) ==> (parse_u32_spec(s@) matches Some(n)
            ==> r.scheduled_scan_day == n),
        env.scheduled_scan_day is None ==> r.scheduled_scan_day == base.scheduled_scan_day,
        env.eject_on_infection matches Some(s) ==> r.eject_on_infection == (
        crate::text::lowercase(s@) == "true"@),
        env.eject_on_infection is None ==> r.eject_on_infection == base.eject_on_infection,
        env.show_uninstall_button matches Some(s) ==> r.show_uninstall_button == (
        crate::text::lowercase(s@) == "true"@),
        env.show_quit_button matches Some(s) ==> r.show_quit_button == (crate::text::lowercase(
            s@,
        ) == "true"@),
{
}

// ---------------------------------------------------------------------------
// freshclam's arguments

/// Whenever a database directory `d` is given, freshclam's arguments end
/// with `--datadir=<d>`, running as root or not; `--user=root` comes first
/// exactly when running as root; nothing else is passed.
pub proof fn law_freshclam_datadir_always_passed(is_root: bool, datadir: Option<Seq<char>>)
    ensures
        ({
            let a = crate::scanner::freshclam_args(is_root, datadir);
            &&& datadir matches Some(d) ==> a.len() >= 1 && a.last() == "--datadir="@ + d
            &&& a.len() == (if is_root { 1int } else { 0int }) + (if datadir is Some { 1int } else { 0int })
            &&& is_root ==> a[0] == "--user=root"@
        }),
{
}

// ---------------------------------------------------------------------------
// The tray menu

/// While the malware warning stands, the menu starts with the entry that
/// dismisses it, and that entry can be clicked; without the warning no
/// entry dismisses anything. The quit entry is there only when the settings
/// show it, and then it is the last entry and can be clicked.
pub proof fn law_tray_menu_entries(
    infection: bool,
    tasks: usize,
    scans: Seq<Seq<char>>,
    installed: bool,
    show_uninstall: bool,
    show_quit: bool,
)
    ensures
        ({
            let menu = crate::tray::menu_spec(
                infection,
                tasks,
                scans,
                installed,
                show_uninstall,
                show_quit,
            );
            &&& infection ==> menu.len() > 0 && menu[0].0 == crate::tray::MenuAction::DismissWarning
                && menu[0].2
            &&& !infection ==> forall|i: int|
                0 <= i < menu.len() ==> (#[trigger] menu[i]).0
                    != crate::tray::MenuAction::DismissWarning
            &&& forall|i: int|
                0 <= i < menu.len() && (#[trigger] menu[i]).0 == crate::tray::MenuAction::Quit
                    ==> show_quit && i == menu.len() - 1 && menu[i].2
            &&& show_quit ==> menu.len() > 0 && menu.last().0 == crate::tray::MenuAction::Quit
                && menu.last().2
        }),
{
    let head: Seq<(MenuAction, Seq<char>, bool)> = if infection {
        seq![(MenuAction::DismissWarning, crate::tray::dismiss_label(), true), crate::tray::separator()]
    } else {
        Seq::empty()
    };
    let status: Seq<(MenuAction, Seq<char>, bool)> = seq![
        (MenuAction::Status, crate::tray::status_label(tasks), false),
        crate::tray::separator(),
    ];
    let listing: Seq<(MenuAction, Seq<char>, bool)> = if scans.len() == 0 {
        seq![(MenuAction::NoScans, "No active scans"@, false)]
    } else {
        seq![(MenuAction::ScansHeading, "Active Scans:"@, false)] + scans.map_values(
            |p: Seq<char>| (MenuAction::ScanPath, "  "@ + p, false),
        )
    };
    let fixed: Seq<(MenuAction, Seq<char>, bool)> = seq![
        crate::tray::separator(),
        (MenuAction::Settings, "Configure Webhooks & Settings..."@, true),
        (MenuAction::History, "Show Scan History..."@, true),
        (MenuAction::Scheduling, "Scheduling Settings..."@, true),
        (MenuAction::CustomScan, "Start Custom Scan..."@, true),
        (MenuAction::Install, "Install as Service"@, !installed),
    ];
    let un: Seq<(MenuAction, Seq<char>, bool)> = if show_uninstall {
        seq![(MenuAction::Uninstall, "Uninstall Service"@, installed)]
    } else {
        Seq::empty()
    };
    let q: Seq<(MenuAction, Seq<char>, bool)> = if show_quit {
        seq![(MenuAction::Quit, "Quit"@, true)]
    } else {
        Seq::empty()
    };
    let body = head + status + listing + fixed + un;
    let menu = crate::tray::menu_spec(infection, tasks, scans, installed, show_uninstall, show_quit);
    assert(menu =~= body + q);
    assert forall|i: int| 0 <= i < body.len() implies (#[trigger] body[i]).0 != MenuAction::Quit
        && (!infection ==> body[i].0 != MenuAction::DismissWarning) by {
        let a = head + status;
        let b = a + listing;
        let c = b + fixed;
        if i < a.len() {
            if i < head.len() {
            } else {
                assert(a[i] == status[i - head.len()]);
            }
        } else if i < b.len() {
            assert(b[i] == listing[i - a.len()]);
            let k = i - a.len();
            if scans.len() > 0 && k > 0 {
                let pre = seq![(MenuAction::ScansHeading, "Active Scans:"@, false)];
                assert(listing[k] == scans.map_values(
                    |p: Seq<char>| (MenuAction::ScanPath, "  "@ + p, false),
                )[k - 1]);
            }
        } else if i < c.len() {
            assert(c[i] == fixed[i - b.len()]);
        } else {
            assert(body[i] == un[i - c.len()]);
        }
    }
    assert forall|i: int| 0 <= i < menu.len() && (#[trigger] menu[i]).0 == MenuAction::Quit implies show_quit
        && i == menu.len() - 1 && menu[i].2 by {
        if i < body.len() {
            assert(menu[i] == body[i]);
        } else {
            assert(menu[i] == q[i - body.len()]);
        }
    }
    assert forall|i: int| 0 <= i < menu.len() && !infection implies (#[trigger] menu[i]).0
        != MenuAction::DismissWarning by {
        if i < body.len() {
            assert(menu[i] == body[i]);
        } else {
            assert(menu[i] == q[i - body.len()]);
        }
    }
    if infection {
        assert(menu[0] == head[0]);
    }
    if show_quit {
        assert(menu.last() == q[0]);
    }
}

} // verus!
