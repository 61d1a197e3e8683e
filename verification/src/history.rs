//! The scan history: one entry per finished scan, kept for a year, and
//! exportable as CSV.

use vstd::prelude::*;
use crate::text::{concat2, push_char};
use crate::timestamp::{Timestamp, SECS_PER_YEAR};

verus! {

/// How a scan ended.
#[derive(Clone, Copy, Debug, PartialEq, Eq, Structural)]
pub enum ScanStatus {
    Clean,
    Infected,
    Failed,
}

/// The display text of a status.
pub open spec fn status_text(s: ScanStatus) -> Seq<char> {
    match s {
        ScanStatus::Clean => "Clean"@,
        ScanStatus::Infected => "Infected"@,
        ScanStatus::Failed => "Failed"@,
    }
}

impl ScanStatus {
    /// The display text of the status: `Clean`, `Infected` or `Failed`.
    pub fn to_display_string(&self) -> (r: String)
        ensures
            r@ == status_text(*self),
    {
        match self {
            ScanStatus::Clean => String::from_str("Clean"),
            ScanStatus::Infected => String::from_str("Infected"),
            ScanStatus::Failed => String::from_str("Failed"),
        }
    }
}

/// One finished scan.
pub struct ScanEntry {
    pub timestamp: Timestamp,
    pub path: String,
    pub status: ScanStatus,
    pub details: String,
    pub infected_files: Vec<String>,
}

/// All recorded scans, oldest first.
pub struct History {
    pub entries: Vec<ScanEntry>,
}

/// `s` with every double quote doubled.
pub open spec fn quotes_doubled(s: Seq<char>) -> Seq<char>
    decreases s.len(),
{
    if s.len() == 0 {
        Seq::empty()
    } else if s.last() == '"' {
        quotes_doubled(s.drop_last()) + seq!['"', '"']
    } else {
        quotes_doubled(s.drop_last()).push(s.last())
    }
}

/// Whether a CSV field must be quoted: it holds the comma, a double quote,
/// a carriage return or a newline.
pub open spec fn csv_needs_quotes(f: Seq<char>) -> bool {
    f.contains(',') || f.contains('"') || f.contains('\r') || f.contains('\n')
}

/// A field as CSV text: quoted, with its quotes doubled, where it must be;
/// as it is otherwise.
pub open spec fn csv_field(f: Seq<char>) -> Seq<char> {
    if csv_needs_quotes(f) {
        "\""@ + quotes_doubled(f) + "\""@
    } else {
        f
    }
}

/// What a `csv::Writer` with its default settings (comma delimiter, quotes
/// only where needed, quotes escaped by doubling, `\n` after the record)
/// writes for one record: the fields as CSV text separated by commas, then
/// a newline; a record whose text would be empty (no fields, or a single
/// empty field) is written as `""`.
pub open spec fn csv_record_text(fields: Seq<Seq<char>>) -> Seq<char> {
    let body = joined(fields.map_values(|f: Seq<char>| csv_field(f)), ","@);
    if body.len() == 0 {
        "\"\"\n"@
    } else {
        body + "\n"@
    }
}

/// The views of a sequence of strings.
pub open spec fn views(v: Seq<String>) -> Seq<Seq<char>> {
    crate::text::views(v)
}

/// One CSV record written by a fresh `csv::Writer` (the csv crate's
/// `Writer::write_record`, with `Writer::from_writer` and `Writer::into_inner`
/// around it), read back as text. In the csv crate's source a writer fails
/// only when the underlying writer reports an I/O error (a `Vec<u8>` never
/// does) or when a record's field count differs from the first record's
/// (a fresh writer writes only this first record); and the bytes it adds to
/// the fields are the ASCII comma, quote and newline, so text in gives text
/// out. The result is therefore always there.
#[verifier::external_body]
fn csv_record(fields: &Vec<String>) -> (r: Option<String>)
    ensures
        r is Some,
        r matches Some(t) ==> t@ == csv_record_text(views(fields@)),
{
    let mut wtr = csv::Writer::from_writer(Vec::new());
    wtr.write_record(fields).ok()?;
    String::from_utf8(wtr.into_inner().ok()?).ok()
}

/// The items of `list` with `sep` between neighbours.
pub open spec fn joined(list: Seq<Seq<char>>, sep: Seq<char>) -> Seq<char>
    decreases list.len(),
{
    if list.len() == 0 {
        Seq::empty()
    } else if list.len() == 1 {
        list[0]
    } else {
        joined(list.drop_last(), sep) + sep + list.last()
    }
}

/// Joins `list` with `sep` between neighbours.
pub fn join(list: &Vec<String>, sep: &str) -> (r: String)
    ensures
        r@ == joined(views(list@), sep@),
{
    let mut r = String::new();
    let mut i: usize = 0;
    while i < list.len()
        invariant
            i <= list.len(),
            r@ == joined(views(list@).take(i as int), sep@),
        decreases list.len() - i,
    {
        assert(views(list@).take(i + 1).drop_last() =~= views(list@).take(i as int));
        if i > 0 {
            r.append(sep);
        }
        r.append(list[i].as_str());
        i = i + 1;
    }
    assert(views(list@).take(list.len() as int) =~= views(list@));
    r
}

/// The fields of the CSV header.
pub open spec fn csv_header() -> Seq<Seq<char>> {
    seq!["Timestamp"@, "Path"@, "Status"@, "Details"@, "Infected Files"@]
}

/// The CSV fields of one entry: its time in RFC 3339, its path, its status,
/// its details and its infected files joined with `; `.
pub open spec fn entry_fields(e: ScanEntry) -> Seq<Seq<char>> {
    seq![
        rfc3339_of(e.timestamp),
        e.path@,
        status_text(e.status),
        e.details@,
        joined(views(e.infected_files@), "; "@),
    ]
}

/// The RFC 3339 text of a timestamp.
pub open spec fn rfc3339_of(t: Timestamp) -> Seq<char> {
    crate::timestamp::rfc3339_text(t.secs, t.nanos, t.offset_secs)
}

/// The CSV text of a list of records: each record as the csv crate writes
/// it, one after the other.
pub open spec fn csv_text(records: Seq<Seq<Seq<char>>>) -> Seq<char>
    decreases records.len(),
{
    if records.len() == 0 {
        Seq::empty()
    } else {
        csv_text(records.drop_last()) + csv_record_text(records.last())
    }
}

/// Where a CSV reader stands within a record.
pub enum CsvMode {
    /// At the start of a field.
    FieldStart,
    /// Inside a field that is not quoted.
    Unquoted,
    /// Inside a quoted field.
    Quoted,
    /// Just after a quote inside a quoted field: either the field's closing
    /// quote or the first of a doubled quote.
    QuoteSeen,
}

/// What a CSV reader has read: where it stands, the field being read, the
/// fields read so far in the current record and the records read so far.
pub struct CsvReading {
    pub mode: CsvMode,
    pub field: Seq<char>,
    pub record: Seq<Seq<char>>,
    pub records: Seq<Seq<Seq<char>>>,
}

/// A reader that has read nothing.
pub open spec fn csv_start() -> CsvReading {
    CsvReading { mode: CsvMode::FieldStart, field: Seq::empty(), record: Seq::empty(), records: Seq::empty() }
}

/// The reader after the current field ended at a comma.
pub open spec fn csv_end_field(r: CsvReading) -> CsvReading {
    CsvReading { mode: CsvMode::FieldStart, field: Seq::empty(), record: r.record.push(r.field), records: r.records }
}

/// The reader after the current record ended at a newline.
pub open spec fn csv_end_record(r: CsvReading) -> CsvReading {
    CsvReading {
        mode: CsvMode::FieldStart,
        field: Seq::empty(),
        record: Seq::empty(),
        records: r.records.push(r.record.push(r.field)),
    }
}

/// One character read as RFC 4180 CSV: commas separate fields, newlines end
/// records, a field that starts with a quote runs to its closing quote, and
/// inside it a doubled quote stands for one quote.
pub open spec fn csv_step(r: CsvReading, c: char) -> CsvReading {
    match r.mode {
        CsvMode::FieldStart => if c == '"' {
            CsvReading { mode: CsvMode::Quoted, ..r }
        } else if c == ',' {
            csv_end_field(r)
        } else if c == '\n' {
            csv_end_record(r)
        } else {
            CsvReading { mode: CsvMode::Unquoted, field: r.field.push(c), ..r }
        },
        CsvMode::Unquoted => if c == ',' {
            csv_end_field(r)
        } else if c == '\n' {
            csv_end_record(r)
        } else {
            CsvReading { field: r.field.push(c), ..r }
        },
        CsvMode::Quoted => if c == '"' {
            CsvReading { mode: CsvMode::QuoteSeen, ..r }
        } else {
            CsvReading { field: r.field.push(c), ..r }
        },
        CsvMode::QuoteSeen => if c == '"' {
            CsvReading { mode: CsvMode::Quoted, field: r.field.push('"'), ..r }
        } else if c == ',' {
            csv_end_field(r)
        } else if c == '\n' {
            csv_end_record(r)
        } else {
            CsvReading { mode: CsvMode::Unquoted, field: r.field.push(c), ..r }
        },
    }
}

/// The reader after reading `s`, starting from `r`.
pub open spec fn csv_run(s: Seq<char>, r: CsvReading) -> CsvReading
    decreases s.len(),
{
    if s.len() == 0 {
        r
    } else {
        csv_step(csv_run(s.drop_last(), r), s.last())
    }
}

/// The records read from the CSV text `s` (a last record without its
/// newline counts too).
pub open spec fn csv_read(s: Seq<char>) -> Seq<Seq<Seq<char>>> {
    let r = csv_run(s, csv_start());
    if r.mode == CsvMode::FieldStart && r.field.len() == 0 && r.record.len() == 0 {
        r.records
    } else {
        r.records.push(r.record.push(r.field))
    }
}

/// The records of the CSV export of `entries`: the header, then one record
/// per entry.
pub open spec fn export_records(entries: Seq<ScanEntry>) -> Seq<Seq<Seq<char>>> {
    seq![csv_header()] + entries.map_values(|e: ScanEntry| entry_fields(e))
}

/// Why the CSV export failed.
#[derive(Clone, Copy, Debug, PartialEq, Eq, Structural)]
pub enum ExportError {
    /// The csv writer reported an error.
    Csv,
}

/// Whether `e` was made after the moment `secs`/`nanos`.
pub open spec fn newer_than(e: ScanEntry, secs: int, nanos: int) -> bool {
    e.timestamp.is_after_spec(secs, nanos)
}

/// The entries that are less than 365 days older than `now`.
pub open spec fn recent(entries: Seq<ScanEntry>, now: Timestamp) -> Seq<ScanEntry> {
    entries.filter(|e: ScanEntry| newer_than(e, now.secs - SECS_PER_YEAR, now.nanos as int))
}

/// Dropping old entries keeps every remaining timestamp valid.
pub proof fn lemma_recent_wf(entries: Seq<ScanEntry>, now: Timestamp)
    requires
        forall|i: int| 0 <= i < entries.len() ==> (#[trigger] entries[i]).timestamp.wf(),
    ensures
        forall|i: int|
            0 <= i < recent(entries, now).len() ==> (#[trigger] recent(entries, now)[i]).timestamp.wf(),
{
    let pred = |e: ScanEntry| newer_than(e, now.secs - SECS_PER_YEAR, now.nanos as int);
    assert forall|i: int| 0 <= i < recent(entries, now).len() implies (#[trigger] recent(
        entries,
        now,
    )[i]).timestamp.wf() by {
        let f = entries.filter(pred);
        assert(f.contains(f[i]));
        entries.lemma_filter_contains_rev(pred, f[i]);
        let j = choose|j: int| 0 <= j < entries.len() && entries[j] == f[i];
        assert(entries[j].timestamp.wf());
    }
}

impl History {
    /// An empty history.
    pub fn new() -> (r: History)
        ensures
            r.entries@.len() == 0,
    {
        History { entries: Vec::new() }
    }

    /// Every entry's timestamp is a moment chrono can represent.
    pub open spec fn wf(&self) -> bool {
        forall|i: int| 0 <= i < self.entries@.len() ==> (#[trigger] self.entries@[i]).timestamp.wf()
    }

    /// Whether every entry's timestamp is a moment chrono can represent.
    pub fn is_valid(&self) -> (r: bool)
        ensures
            r == self.wf(),
    {
        let mut i: usize = 0;
        while i < self.entries.len()
            invariant
                i <= self.entries.len(),
                forall|k: int| 0 <= k < i ==> (#[trigger] self.entries@[k]).timestamp.wf(),
            decreases self.entries.len() - i,
        {
            if !self.entries[i].timestamp.is_valid() {
                return false;
            }
            i = i + 1;
        }
        true
    }

    /// The history file inside the audit log directory `audit_dir`.
    pub fn get_path(audit_dir: &str) -> (r: String)
        ensures
            r@ == audit_dir@ + "/history.json"@,
    {
        concat2(audit_dir, "/history.json")
    }

    /// Drops the entries that are 365 days or more older than `now`, keeping
    /// the others in order.
    pub fn prune(&mut self, now: &Timestamp)
        requires
            now.secs >= crate::timestamp::MIN_SECS + SECS_PER_YEAR,
        ensures
            final(self).entries@ == recent(old(self).entries@, *now),
            old(self).wf() ==> final(self).wf(),
    {
        proof {
            if old(self).wf() {
                lemma_recent_wf(old(self).entries@, *now);
            }
        }
        let cutoff_secs = now.secs - SECS_PER_YEAR;
        let cutoff_nanos = now.nanos;
        let ghost pred = |e: ScanEntry| newer_than(e, now.secs - SECS_PER_YEAR, now.nanos as int);
        let mut old_entries: Vec<ScanEntry> = Vec::new();
        std::mem::swap(&mut old_entries, &mut self.entries);
        let ghost all = old_entries@;
        let mut kept: Vec<ScanEntry> = Vec::new();
        for e in it: old_entries.into_iter()
            invariant
                it.seq() == all,
                kept@ == all.take(it.index() as int).filter(pred),
                cutoff_secs == now.secs - SECS_PER_YEAR,
                cutoff_nanos == now.nanos,
                forall|x: ScanEntry|
                    #[trigger] pred(x) == newer_than(x, now.secs - SECS_PER_YEAR, now.nanos as int),
        {
            let ghost k = it.index();
            proof {
                reveal_with_fuel(Seq::<_>::filter, 1);
                assert(all.take(k + 1).drop_last() =~= all.take(k as int));
                assert(all.take(k + 1).last() == all[k as int]);
            }
            let keep = e.timestamp.is_after(cutoff_secs, cutoff_nanos);
            assert(keep == pred(all[k as int]));
            if keep {
                kept.push(e);
            }
        }
        assert(all.take(all.len() as int) =~= all);
        self.entries = kept;
    }

    /// Records a scan that finished at `now`, then drops the entries that
    /// are a year old.
    pub fn add_entry(
        &mut self,
        now: Timestamp,
        path: String,
        status: ScanStatus,
        details: String,
        infected_files: Vec<String>,
    )
        requires
            now.wf(),
            now.secs >= crate::timestamp::MIN_SECS + SECS_PER_YEAR,
        ensures
            final(self).entries@ == recent(old(self).entries@, now).push(
                ScanEntry { timestamp: now, path, status, details, infected_files },
            ),
            old(self).wf() ==> final(self).wf(),
    {
        let entry = ScanEntry { timestamp: now, path, status, details, infected_files };
        let ghost e = entry;
        self.entries.push(entry);
        let ghost pushed = self.entries@;
        self.prune(&now);
        proof {
            let pred = |x: ScanEntry| newer_than(x, now.secs - SECS_PER_YEAR, now.nanos as int);
            assert(pushed == old(self).entries@.push(e));
            assert(pushed.drop_last() =~= old(self).entries@);
            reveal_with_fuel(Seq::<_>::filter, 1);
            assert(pred(e));
        }
    }

    /// The history as it is loaded at `now`: the stored one, if there is one,
    /// with year-old entries dropped; otherwise an empty one.
    pub fn load(stored: Option<History>, now: &Timestamp) -> (r: History)
        requires
            now.secs >= crate::timestamp::MIN_SECS + SECS_PER_YEAR,
        ensures
            r.entries@ == match stored {
                Some(h) => recent(h.entries@, *now),
                None => Seq::empty(),
            },
            match stored {
                Some(h) => h.wf() ==> r.wf(),
                None => r.wf(),
            },
    {
        match stored {
            Some(h) => {
                let mut h = h;
                h.prune(now);
                h
            },
            None => History::new(),
        }
    }

    /// The history as CSV: a header record, then one record per entry.
    pub fn to_csv(&self) -> (r: Result<String, ExportError>)
        requires
            self.wf(),
        ensures
            r is Ok,
            r matches Ok(t) ==> t@ == csv_text(export_records(self.entries@)),
    {
        let ghost records = export_records(self.entries@);
        let mut header: Vec<String> = Vec::new();
        header.push(String::from_str("Timestamp"));
        header.push(String::from_str("Path"));
        header.push(String::from_str("Status"));
        header.push(String::from_str("Details"));
        header.push(String::from_str("Infected Files"));
        let mut out = match csv_record(&header) {
            Some(t) => t,
            None => return Err(ExportError::Csv),
        };
        assert(views(header@) =~= csv_header());
        assert(records.take(1).drop_last() =~= Seq::<Seq<Seq<char>>>::empty());
        assert(records.take(1).last() == csv_header());
        assert(csv_text(Seq::<Seq<Seq<char>>>::empty()) =~= Seq::<char>::empty());
        assert(csv_text(records.take(1)) =~= csv_record_text(csv_header()));
        let mut i: usize = 0;
        while i < self.entries.len()
            invariant
                self.wf(),
                i <= self.entries.len(),
                records == export_records(self.entries@),
                out@ == csv_text(records.take(i + 1)),
            decreases self.entries.len() - i,
        {
            let e = &self.entries[i];
            let mut fields: Vec<String> = Vec::new();
            fields.push(e.timestamp.to_rfc3339());
            fields.push(e.path.clone());
            fields.push(e.status.to_display_string());
            fields.push(e.details.clone());
            fields.push(join(&e.infected_files, "; "));
            assert(views(fields@) =~= entry_fields(*e));
            let line = match csv_record(&fields) {
                Some(t) => t,
                None => return Err(ExportError::Csv),
            };
            out.append(line.as_str());
            assert(records.take(i + 2).drop_last() =~= records.take(i + 1));
            assert(records.take(i + 2).last() == entry_fields(self.entries@[i as int]));
            i = i + 1;
        }
        assert(records.take(self.entries.len() + 1) =~= records);
        Ok(out)
    }
}

} // verus!
