//! The scan of one mount point with `clamscan`, as a state machine driven by
//! the process that runs it: the library decides the command line, reads
//! each output line, and decides after each run whether to retry with more
//! exclusions and what the scan found. It also plans the `freshclam`
//! database updates.

use vstd::prelude::*;
use crate::audit::{log_infection, log_scan_complete, log_update_complete, AuditEvent};
use crate::text::{
    chars_of, concat2, concat3, contains, find_from, i64_to_decimal, push_char, seq_has_at,
    string_of_range, trim, trim_chars, u64_to_decimal,
};

verus! {

// ---------------------------------------------------------------------------
// Regex escaping

/// The characters that have a meaning in a regex and are escaped by
/// `regex::escape`.
pub open spec fn is_meta_character(c: char) -> bool {
    c == '\\' || c == '.' || c == '+' || c == '*' || c == '?' || c == '(' || c == ')' || c == '|'
        || c == '[' || c == ']' || c == '{' || c == '}' || c == '^' || c == '$' || c == '#' || c
        == '&' || c == '-' || c == '~'
}

/// `s` with a backslash before every meta character, so that a regex built
/// from it matches `s` literally.
pub open spec fn escaped(s: Seq<char>) -> Seq<char>
    decreases s.len(),
{
    if s.len() == 0 {
        Seq::empty()
    } else if is_meta_character(s.last()) {
        escaped(s.drop_last()) + seq!['\\', s.last()]
    } else {
        escaped(s.drop_last()).push(s.last())
    }
}

/// `text` escaped for use as a literal in a regex (`regex::escape`). The
/// contract restates the crate's escaping loop: a backslash goes before each
/// character for which `regex_syntax::is_meta_character` holds.
#[verifier::external_body]
fn regex_escape(text: &str) -> (r: String)
    ensures
        r@ == escaped(text@),
{
    regex::escape(text)
}

/// The exclusion pattern that matches exactly the path `p`: `^`, the path
/// escaped, `$`.
pub open spec fn exact_pattern(p: Seq<char>) -> Seq<char> {
    "^"@ + escaped(p) + "$"@
}

/// The exclusion pattern that matches exactly the path `p`.
pub fn exact_path_pattern(p: &str) -> (r: String)
    ensures
        r@ == exact_pattern(p@),
{
    let e = regex_escape(p);
    concat3("^", e.as_str(), "$")
}

// ---------------------------------------------------------------------------
// Reading clamscan's output lines

/// Whether `s` holds no line break.
pub open spec fn single_line(s: Seq<char>) -> bool {
    !s.contains('\n')
}

/// Whether the text before index `k` of `line` can be the path of a
/// `<path>: <virus> FOUND` report: `: ` starts at `k` and there is room for
/// ` FOUND` after it.
pub open spec fn found_split(line: Seq<char>, k: int) -> bool {
    crate::text::occurs_at(line, k, ": "@) && k + 2 + " FOUND"@.len() <= line.len()
}

/// The largest `k < n` where `found_split` holds, if any.
pub open spec fn last_found_split(line: Seq<char>, n: nat) -> Option<int>
    decreases n,
{
    if n == 0 {
        None
    } else if found_split(line, n - 1) {
        Some(n - 1)
    } else {
        last_found_split(line, (n - 1) as nat)
    }
}

/// The infected file named by a `<path>: <virus> FOUND` line (the regex
/// `^(.*): (.*) FOUND$`): the line ends with ` FOUND`, and the path is
/// everything before the last `: ` that leaves room for it.
pub open spec fn found_path(line: Seq<char>) -> Option<Seq<char>> {
    if single_line(line) && " FOUND"@.is_suffix_of(line) {
        match last_found_split(line, line.len()) {
            Some(k) => Some(line.take(k)),
            None => None,
        }
    } else {
        None
    }
}

/// `last_found_split` finds a split that holds, and none above it.
proof fn lemma_last_found_split(line: Seq<char>, n: nat)
    ensures
        match last_found_split(line, n) {
            Some(k) => 0 <= k < n && found_split(line, k) && forall|j: int|
                k < j < n ==> !found_split(line, j),
            None => forall|j: int| 0 <= j < n ==> !found_split(line, j),
        },
    decreases n,
{
    if n > 0 {
        lemma_last_found_split(line, (n - 1) as nat);
    }
}

/// The infected file named by a `<path>: <virus> FOUND` line, if it is one.
pub fn parse_found_line(line: &str) -> (r: Option<String>)
    ensures
        match r {
            Some(p) => found_path(line@) == Some(p@),
            None => found_path(line@) is None,
        },
{
    let v = chars_of(line);
    if crate::text::has_char(&v, '\n') {
        return None;
    }
    let suffix = chars_of(" FOUND");
    if suffix.len() > v.len() || !seq_has_at(&v, v.len() - suffix.len(), &suffix) {
        proof {
            if " FOUND"@.is_suffix_of(line@) {
                assert(line@.subrange(line@.len() - 6, line@.len() as int) =~= " FOUND"@);
            }
        }
        return None;
    }
    assert(" FOUND"@.is_suffix_of(line@)) by {
        assert(forall|j: int| 0 <= j < suffix@.len() ==> line@[line@.len() - suffix@.len() + j]
            == #[trigger] line@.subrange(line@.len() - suffix@.len(), line@.len() as int)[j]);
    }
    let sep = chars_of(": ");
    proof {
        lemma_last_found_split(line@, line@.len());
    }
    let mut n: usize = v.len();
    // search k = n - 1 downwards for the last split
    while n > 0
        invariant
            v@ == line@,
            suffix.len() <= v.len(),
            single_line(line@),
            " FOUND"@.is_suffix_of(line@),
            sep@ == ": "@,
            suffix@ == " FOUND"@,
            n <= v.len(),
            last_found_split(line@, line@.len()) == last_found_split(line@, n as nat),
        decreases n,
    {
        let k = n - 1;
        if v.len() - suffix.len() >= 2 && k <= v.len() - suffix.len() - 2 && seq_has_at(
            &v,
            k,
            &sep,
        ) {
            assert(found_split(line@, k as int));
            assert(last_found_split(line@, n as nat) == Some(k as int));
            let p = string_of_range(&v, 0, k);
            assert(line@.subrange(0, k as int) =~= line@.take(k as int));
            return Some(p);
        }
        n = k;
    }
    None
}

/// The text before `suffix` when `line` is a single line ending with it
/// (an anchored regex `^(.*)<suffix>$`).
pub open spec fn before_suffix(line: Seq<char>, suffix: Seq<char>) -> Option<Seq<char>> {
    if single_line(line) && suffix.is_suffix_of(line) {
        Some(line.take(line.len() - suffix.len()))
    } else {
        None
    }
}

/// The text before `suffix` when `line` ends with it.
fn strip_suffix(v: &Vec<char>, suffix: &str) -> (r: Option<String>)
    requires
        single_line(v@),
    ensures
        match r {
            Some(p) => before_suffix(v@, suffix@) == Some(p@),
            None => before_suffix(v@, suffix@) is None,
        },
{
    let s = chars_of(suffix);
    if s.len() > v.len() || !seq_has_at(v, v.len() - s.len(), &s) {
        proof {
            if suffix@.is_suffix_of(v@) {
                assert(v@.subrange(v@.len() - s@.len(), v@.len() as int) =~= s@);
            }
        }
        return None;
    }
    assert(suffix@.is_suffix_of(v@)) by {
        assert(forall|j: int| 0 <= j < s@.len() ==> v@[v@.len() - s@.len() + j]
            == #[trigger] v@.subrange(v@.len() - s@.len(), v@.len() as int)[j]);
    }
    let r = string_of_range(v, 0, v.len() - s.len());
    assert(v@.subrange(0, v@.len() - s@.len()) =~= v@.take(v@.len() - s@.len()));
    Some(r)
}

/// The start of the LibClamAV permission message.
pub open spec fn libclamav_prefix() -> Seq<char> {
    "LibClamAV Error: cl_scandir: can't open directory "@
}

/// The end of the LibClamAV permission message.
pub open spec fn libclamav_suffix() -> Seq<char> {
    " (Permission denied)"@
}

/// The first index at which `p` occurs in `s`, if any.
pub open spec fn first_occurrence(s: Seq<char>, p: Seq<char>) -> Option<int> {
    if exists|i: int| crate::text::occurs_at(s, i, p) {
        Some(
            choose|i: int|
                crate::text::occurs_at(s, i, p) && forall|k: int|
                    0 <= k < i ==> !crate::text::occurs_at(s, k, p),
        )
    } else {
        None
    }
}

/// The last index at which `p` occurs in `s`, if any.
pub open spec fn last_occurrence(s: Seq<char>, p: Seq<char>) -> Option<int> {
    if exists|i: int| crate::text::occurs_at(s, i, p) {
        Some(
            choose|i: int|
                crate::text::occurs_at(s, i, p) && forall|k: int|
                    i < k ==> !crate::text::occurs_at(s, k, p),
        )
    } else {
        None
    }
}

/// The directory named by a LibClamAV permission message (the unanchored
/// regex `LibClamAV Error: cl_scandir: can't open directory (.*)
/// \(Permission denied\)` on a single line): the text between the first
/// occurrence of the start of the message and the last occurrence of its
/// end, when that end comes after the start.
pub open spec fn libclamav_path(line: Seq<char>) -> Option<Seq<char>> {
    match first_occurrence(line, libclamav_prefix()) {
        Some(i) => {
            let from = i + libclamav_prefix().len();
            match last_occurrence(line, libclamav_suffix()) {
                Some(j) => if from <= j {
                    Some(line.subrange(from, j))
                } else {
                    None
                },
                None => None,
            }
        },
        None => None,
    }
}

/// `first_occurrence` is the least index where `p` occurs.
proof fn lemma_first_occurrence(s: Seq<char>, p: Seq<char>, i: int)
    requires
        crate::text::occurs_at(s, i, p),
        forall|k: int| 0 <= k < i ==> !crate::text::occurs_at(s, k, p),
    ensures
        first_occurrence(s, p) == Some(i),
{
    let c = choose|c: int|
        crate::text::occurs_at(s, c, p) && forall|k: int|
            0 <= k < c ==> !crate::text::occurs_at(s, k, p);
    assert(crate::text::occurs_at(s, c, p));
    if c < i {
        assert(!crate::text::occurs_at(s, c, p));
    }
    if i < c {
        assert(!crate::text::occurs_at(s, i, p));
    }
}

/// `last_occurrence` is the greatest index where `p` occurs.
proof fn lemma_last_occurrence(s: Seq<char>, p: Seq<char>, j: int)
    requires
        crate::text::occurs_at(s, j, p),
        forall|k: int| j < k ==> !crate::text::occurs_at(s, k, p),
    ensures
        last_occurrence(s, p) == Some(j),
{
    let c = choose|c: int|
        crate::text::occurs_at(s, c, p) && forall|k: int| c < k ==> !crate::text::occurs_at(s, k, p);
    assert(crate::text::occurs_at(s, c, p));
    if c < j {
        assert(!crate::text::occurs_at(s, j, p));
    }
    if j < c {
        assert(!crate::text::occurs_at(s, c, p));
    }
}

/// The last index at which `p` occurs in `v`, if any.
fn find_last(v: &Vec<char>, p: &Vec<char>) -> (r: Option<usize>)
    ensures
        match r {
            Some(j) => last_occurrence(v@, p@) == Some(j as int) && crate::text::occurs_at(
                v@,
                j as int,
                p@,
            ),
            None => last_occurrence(v@, p@) is None,
        },
{
    if p.len() > v.len() {
        return None;
    }
    let mut j: usize = v.len() - p.len();
    loop
        invariant
            p.len() <= v.len(),
            j <= v.len() - p.len(),
            forall|k: int| j < k ==> !crate::text::occurs_at(v@, k, p@),
        decreases j,
    {
        if seq_has_at(v, j, p) {
            proof {
                lemma_last_occurrence(v@, p@, j as int);
            }
            return Some(j);
        }
        if j == 0 {
            return None;
        }
        j = j - 1;
    }
}

/// The directory named by a LibClamAV permission message, if the line is
/// one.
fn parse_libclamav_line(v: &Vec<char>) -> (r: Option<String>)
    ensures
        match r {
            Some(p) => libclamav_path(v@) == Some(p@),
            None => libclamav_path(v@) is None,
        },
{
    let prefix = chars_of("LibClamAV Error: cl_scandir: can't open directory ");
    let suffix = chars_of(" (Permission denied)");
    match find_from(v, 0, &prefix) {
        Some(i) => {
            proof {
                lemma_first_occurrence(v@, prefix@, i as int);
            }
            assert(crate::text::occurs_at(v@, i as int, prefix@));
            assert(i + prefix@.len() <= v@.len());
            let plen = prefix.len();
            assert(i + plen <= v.len());
            let from = i + plen;
            match find_last(v, &suffix) {
                Some(j) => if from <= j {
                    Some(string_of_range(v, from, j))
                } else {
                    None
                },
                None => None,
            }
        },
        None => {
            assert(!exists|k: int| crate::text::occurs_at(v@, k, prefix@));
            None
        },
    }
}

/// What a permission message asks to exclude on the next run: `true` with a
/// pattern for a directory, `false` with a pattern for a file. The line is
/// trimmed first; the path it names is trimmed again and turned into a
/// pattern that matches exactly it.
pub open spec fn permission_exclusion(raw_line: Seq<char>) -> Option<(bool, Seq<char>)> {
    let line = crate::text::trimmed(raw_line);
    match before_suffix(line, ": Access denied"@) {
        Some(p) => Some((false, exact_pattern(crate::text::trimmed(p)))),
        None => match before_suffix(line, ": Can't open directory."@) {
            Some(p) => Some((true, exact_pattern(crate::text::trimmed(p)))),
            None => match libclamav_path(line) {
                Some(p) => Some((true, exact_pattern(crate::text::trimmed(p)))),
                None => None,
            },
        },
    }
}

/// What a permission message on one output line asks to exclude, if
/// anything: `(true, pattern)` for a directory, `(false, pattern)` for a
/// file.
pub fn parse_permission_error(raw_line: &str) -> (r: Option<(bool, String)>)
    requires
        single_line(raw_line@),
    ensures
        match r {
            Some((is_dir, pat)) => permission_exclusion(raw_line@) == Some((is_dir, pat@)),
            None => permission_exclusion(raw_line@) is None,
        },
{
    let t = trim(raw_line);
    let v = chars_of(t.as_str());
    proof {
        lemma_trimmed_single_line(raw_line@);
    }
    match strip_suffix(&v, ": Access denied") {
        Some(p) => {
            let tp = trim(p.as_str());
            return Some((false, exact_path_pattern(tp.as_str())));
        },
        None => {},
    }
    match strip_suffix(&v, ": Can't open directory.") {
        Some(p) => {
            let tp = trim(p.as_str());
            return Some((true, exact_path_pattern(tp.as_str())));
        },
        None => {},
    }
    match parse_libclamav_line(&v) {
        Some(p) => {
            let tp = trim(p.as_str());
            Some((true, exact_path_pattern(tp.as_str())))
        },
        None => None,
    }
}

/// Trimming keeps a single line a single line.
proof fn lemma_trimmed_single_line(s: Seq<char>)
    requires
        single_line(s),
    ensures
        single_line(crate::text::trimmed(s)),
{
    lemma_trim_start_sub(s);
    lemma_trim_end_sub(crate::text::trim_start(s));
    let t = crate::text::trimmed(s);
    if t.contains('\n') {
        let i = choose|i: int| 0 <= i < t.len() && t[i] == '\n';
        let (a, b) = choose|a: int, b: int|
            0 <= a <= b <= s.len() && t == s.subrange(a, b);
        assert(s[a + i] == '\n');
    }
}

/// `trim_start` keeps a contiguous part.
proof fn lemma_trim_start_sub(s: Seq<char>)
    ensures
        exists|a: int| 0 <= a <= s.len() && crate::text::trim_start(s) == s.subrange(a, s.len() as int),
    decreases s.len(),
{
    if s.len() > 0 && crate::text::is_white_space(s[0]) {
        lemma_trim_start_sub(s.drop_first());
        let a = choose|a: int|
            0 <= a <= s.drop_first().len() && crate::text::trim_start(s.drop_first())
                == s.drop_first().subrange(a, s.drop_first().len() as int);
        assert(s.drop_first().subrange(a, s.drop_first().len() as int) =~= s.subrange(
            a + 1,
            s.len() as int,
        ));
    } else {
        assert(s.subrange(0, s.len() as int) =~= s);
    }
}

/// `trim_end` of a contiguous part keeps a contiguous part.
proof fn lemma_trim_end_sub(s: Seq<char>)
    ensures
        exists|b: int| 0 <= b <= s.len() && crate::text::trim_end(s) == s.subrange(0, b),
    decreases s.len(),
{
    if s.len() > 0 && crate::text::is_white_space(s.last()) {
        lemma_trim_end_sub(s.drop_last());
        let b = choose|b: int|
            0 <= b <= s.drop_last().len() && crate::text::trim_end(s.drop_last())
                == s.drop_last().subrange(0, b);
        assert(s.drop_last().subrange(0, b) =~= s.subrange(0, b));
    } else {
        assert(s.subrange(0, s.len() as int) =~= s);
    }
}

} // verus!

verus! {

// ---------------------------------------------------------------------------
// Sets of exclusion patterns, kept as vectors without repeats

/// The views of a sequence of strings.
pub open spec fn views(v: Seq<String>) -> Seq<Seq<char>> {
    crate::text::views(v)
}

/// `v` with `x` added at the end unless it is already there.
pub open spec fn added(v: Seq<Seq<char>>, x: Seq<char>) -> Seq<Seq<char>> {
    if v.contains(x) {
        v
    } else {
        v.push(x)
    }
}

/// Adding keeps a sequence free of repeats.
pub proof fn lemma_added_no_duplicates(v: Seq<Seq<char>>, x: Seq<char>)
    requires
        v.no_duplicates(),
    ensures
        added(v, x).no_duplicates(),
        added(v, x).len() >= v.len(),
        forall|y: Seq<char>| v.contains(y) ==> #[trigger] added(v, x).contains(y),
{
    if !v.contains(x) {
        assert forall|i: int, j: int|
            0 <= i < v.push(x).len() && 0 <= j < v.push(x).len() && i != j implies v.push(x)[i]
            != v.push(x)[j] by {
            if i == v.len() {
                assert(v[j] == v.push(x)[j]);
            }
            if j == v.len() {
                assert(v[i] == v.push(x)[i]);
            }
        }
        assert forall|y: Seq<char>| v.contains(y) implies #[trigger] v.push(x).contains(y) by {
            let i = choose|i: int| 0 <= i < v.len() && v[i] == y;
            assert(v.push(x)[i] == y);
        }
    }
}

/// Adds `x` to `v` unless it is already there; says whether it was added.
pub fn insert_new(v: &mut Vec<String>, x: String) -> (r: bool)
    ensures
        views(final(v)@) == added(views(old(v)@), x@),
        r == !views(old(v)@).contains(x@),
{
    let mut i: usize = 0;
    while i < v.len()
        invariant
            i <= v.len(),
            forall|k: int| 0 <= k < i ==> v@[k]@ != x@,
        decreases v.len() - i,
    {
        if crate::text::str_eq(v[i].as_str(), x.as_str()) {
            assert(views(v@)[i as int] == x@);
            return false;
        }
        i = i + 1;
    }
    proof {
        if views(v@).contains(x@) {
            let k = choose|k: int| 0 <= k < views(v@).len() && views(v@)[k] == x@;
            assert(v@[k]@ == x@);
        }
    }
    v.push(x);
    assert(views(v@) =~= views(old(v)@).push(x@));
    true
}

// ---------------------------------------------------------------------------
// .clamignore

/// The pattern a `.clamignore` line contributes: the trimmed line, unless it
/// is empty or a `#` comment.
pub open spec fn ignore_pattern(line: Seq<char>) -> Option<Seq<char>> {
    let t = crate::text::trimmed(line);
    if t.len() > 0 && t[0] != '#' {
        Some(t)
    } else {
        None
    }
}

/// The patterns in `acc` and then those of `lines`, without repeats.
pub open spec fn ignore_fold(acc: Seq<Seq<char>>, lines: Seq<Seq<char>>) -> Seq<Seq<char>>
    decreases lines.len(),
{
    if lines.len() == 0 {
        acc
    } else {
        let a = ignore_fold(acc, lines.drop_last());
        match ignore_pattern(lines.last()) {
            Some(t) => added(a, t),
            None => a,
        }
    }
}

/// The file exclusions given by the lines of a `.clamignore` file: each
/// line trimmed, empty lines and `#` comments skipped, repeats dropped.
pub fn clamignore_exclusions(lines: &Vec<String>) -> (r: Vec<String>)
    ensures
        views(r@) == ignore_fold(Seq::empty(), views(lines@)),
        views(r@).no_duplicates(),
{
    let mut r: Vec<String> = Vec::new();
    let mut i: usize = 0;
    while i < lines.len()
        invariant
            i <= lines.len(),
            views(r@) == ignore_fold(Seq::empty(), views(lines@).take(i as int)),
            views(r@).no_duplicates(),
        decreases lines.len() - i,
    {
        assert(views(lines@).take(i + 1).drop_last() =~= views(lines@).take(i as int));
        assert(views(lines@).take(i + 1).last() == lines@[i as int]@);
        let t = trim(lines[i].as_str());
        let tv = chars_of(t.as_str());
        if tv.len() > 0 && tv[0] != '#' {
            proof {
                lemma_added_no_duplicates(views(r@), t@);
            }
            insert_new(&mut r, t);
        }
        i = i + 1;
    }
    assert(views(lines@).take(lines.len() as int) =~= views(lines@));
    r
}

// ---------------------------------------------------------------------------
// The number of infected files in the scan summary

/// The label before the number of infected files in the scan summary.
pub open spec fn infected_label() -> Seq<char> {
    "Infected files: "@
}

/// Whether the regex `\d` matches the character `c`: with the regex crate's
/// default Unicode support, a character of the Unicode general category
/// Decimal_Number.
pub uninterp spec fn regex_digit(c: char) -> bool;

/// Whether the regex `\d` matches `c` (the regex crate's `Regex::is_match`
/// on the one-character text). Besides naming the result, the contract says
/// what regex-syntax's Decimal_Number table shows of the ASCII range: there
/// `\d` matches exactly `0` to `9`.
#[verifier::external_body]
fn is_regex_digit(c: char) -> (r: bool)
    ensures
        r == regex_digit(c),
        (c as u32) < 128 ==> (r <==> ('0' <= c && c <= '9')),
{
    let mut buf = [0u8; 4];
    regex::Regex::new(r"^\d$").unwrap().is_match(c.encode_utf8(&mut buf))
}

/// Whether the label starts at `i` and a digit follows it (the regex
/// `Infected files: (\d+)` can match there).
pub open spec fn label_with_digit(s: Seq<char>, i: int) -> bool {
    crate::text::occurs_at(s, i, infected_label()) && i + infected_label().len() < s.len()
        && regex_digit(s[i + infected_label().len()])
}

/// The first index at or after `i` where the label is followed by a digit.
pub open spec fn first_label_from(s: Seq<char>, i: nat) -> Option<int>
    decreases s.len() - i,
{
    if i >= s.len() {
        None
    } else if label_with_digit(s, i as int) {
        Some(i as int)
    } else {
        first_label_from(s, i + 1)
    }
}

/// The end of the run of digits that starts at `j`.
pub open spec fn digit_run_end(s: Seq<char>, j: nat) -> nat
    decreases s.len() - j,
{
    if j < s.len() && regex_digit(s[j as int]) {
        digit_run_end(s, j + 1)
    } else {
        j
    }
}

/// The number of infected files the summary reports, as the regex
/// `Infected files: (\d+)` and `str::parse::<u32>` find it: the run of
/// digits (any Unicode decimal digits) after the first `Infected files: `
/// that has one after it, read as a `u32`; 0 when there is no such label,
/// when the run holds a digit other than `0` to `9`, or when the number does
/// not fit.
pub open spec fn infected_count_spec(s: Seq<char>) -> u32 {
    match first_label_from(s, 0) {
        Some(i) => {
            let start = i + infected_label().len();
            match crate::text::parse_u32_spec(s.subrange(start, digit_run_end(s, start as nat) as int)) {
                Some(n) => n,
                None => 0,
            }
        },
        None => 0,
    }
}

/// The number of infected files reported in a scan summary.
pub fn infected_count(summary: &str) -> (r: u32)
    ensures
        r == infected_count_spec(summary@),
{
    let v = chars_of(summary);
    let label = chars_of("Infected files: ");
    let mut i: usize = 0;
    while i < v.len()
        invariant
            v@ == summary@,
            label@ == infected_label(),
            i <= v.len(),
            first_label_from(summary@, 0) == first_label_from(summary@, i as nat),
        decreases v.len() - i,
    {
        if seq_has_at(&v, i, &label) && i + label.len() < v.len() && is_regex_digit(
            v[i + label.len()],
        ) {
            let start = i + label.len();
            let mut j = start;
            while j < v.len() && is_regex_digit(v[j])
                invariant
                    v@ == summary@,
                    start <= j <= v.len(),
                    digit_run_end(summary@, start as nat) == digit_run_end(summary@, j as nat),
                decreases v.len() - j,
            {
                j = j + 1;
            }
            let digits = string_of_range(&v, start, j);
            return match crate::text::parse_u32(digits.as_str()) {
                Some(n) => n,
                None => 0,
            };
        }
        i = i + 1;
    }
    0
}

/// `s` with every line break replaced by a space.
pub open spec fn newlines_to_spaces(s: Seq<char>) -> Seq<char> {
    s.map_values(|c: char|
        if c == '\n' {
            ' '
        } else {
            c
        })
}

/// `s` with every line break replaced by a space.
pub fn replace_newlines(s: &str) -> (r: String)
    ensures
        r@ == newlines_to_spaces(s@),
{
    let v = chars_of(s);
    let mut r = String::new();
    let mut i: usize = 0;
    while i < v.len()
        invariant
            v@ == s@,
            i <= v.len(),
            r@ == newlines_to_spaces(s@.take(i as int)),
        decreases v.len() - i,
    {
        let c = if v[i] == '\n' {
            ' '
        } else {
            v[i]
        };
        push_char(&mut r, c);
        assert(newlines_to_spaces(s@.take(i + 1)) =~= newlines_to_spaces(s@.take(i as int)).push(c));
        i = i + 1;
    }
    assert(s@.take(v.len() as int) =~= s@);
    r
}

// ---------------------------------------------------------------------------
// The scan session

/// How many times a scan is retried with more exclusions.
pub const MAX_RETRIES: u32 = 5;

/// The directories never scanned: system folders of macOS and Windows
/// volumes.
pub open spec fn default_dir_exclusions() -> Seq<Seq<char>> {
    seq![
        "\\.Spotlight-V100"@,
        "\\.fseventsd"@,
        "\\.Trashes"@,
        "\\.DocumentRevisions-V100"@,
        "\\.TemporaryItems"@,
        "\\$RECYCLE\\.BIN"@,
        "System Volume Information"@,
    ]
}

/// The exclusion lists after reading permission messages from `lines`:
/// file patterns are added to the first list, directory patterns to the
/// second, each only once.
pub open spec fn permission_fold(
    files: Seq<Seq<char>>,
    dirs: Seq<Seq<char>>,
    lines: Seq<Seq<char>>,
) -> (Seq<Seq<char>>, Seq<Seq<char>>)
    decreases lines.len(),
{
    if lines.len() == 0 {
        (files, dirs)
    } else {
        let (f, d) = permission_fold(files, dirs, lines.drop_last());
        match permission_exclusion(lines.last()) {
            Some((true, p)) => (f, added(d, p)),
            Some((false, p)) => (added(f, p), d),
            None => (f, d),
        }
    }
}

/// The marker line that starts clamscan's summary.
pub open spec fn summary_marker() -> Seq<char> {
    "----------- SCAN SUMMARY -----------"@
}

/// What the scan of one mount point found, and what is left to do about it.
pub struct ScanReport {
    /// Whether infected files were confirmed by the summary.
    pub virus_found: bool,
    /// The scan summary, or a message saying why there is none.
    pub details: String,
    /// The infected files reported, in the order they were reported.
    pub infected_files: Vec<String>,
    /// The audit events that record the outcome, in order: for a scan that
    /// found malware, the detection and then the scan's completion with
    /// status `INFECTED`; otherwise the scan's completion alone.
    pub events: Vec<AuditEvent>,
    /// Whether the webhook notifications are to be sent with `details`.
    pub notify: bool,
    /// Whether the drive is to be ejected.
    pub eject: bool,
    /// Whether the run's log text is to be appended to the scan log.
    pub write_log: bool,
}

/// How a run of clamscan ended, as far as the session is concerned.
pub enum AttemptEnd {
    /// Permission problems were found and excluded: clamscan runs again.
    Retry,
    /// The scan is over.
    Done(ScanReport),
}

/// The state of the scan of one mount point.
pub struct ScanSession {
    /// The mount point being scanned.
    pub target_path: String,
    /// Whether the drive is to be ejected when malware is found.
    pub eject_on_infection: bool,
    /// Directory patterns passed to `--exclude-dir`.
    pub dir_exclusions: Vec<String>,
    /// File patterns passed to `--exclude`.
    pub file_exclusions: Vec<String>,
    /// How many times the scan has been retried.
    pub retry_count: u32,
    /// The infected files reported so far, over all runs.
    pub infected_files: Vec<String>,
    /// The output lines of the current run.
    pub attempt_lines: Vec<String>,
    /// The summary of the current run.
    pub summary: String,
    /// Whether the summary of the current run has begun.
    pub in_summary: bool,
    /// Whether the current run was cancelled.
    pub killed: bool,
    /// The text of the current run for the scan log.
    pub log_buffer: String,
}

/// The log header of a run: the first one, or retry number `retry` with
/// the counts of file exclusions and of added directory exclusions.
pub open spec fn run_header(
    retry: u32,
    target: Seq<char>,
    now: Seq<char>,
    files: nat,
    extra_dirs: int,
) -> Seq<char> {
    if retry == 0 {
        "\n--- Scan starting for: "@ + target + " at "@ + now + " ---\n"@
    } else {
        "\n--- Retry #"@ + crate::text::decimal(retry as nat) + " for: "@ + target + " at "@ + now
            + " ---\n"@ + "Excluding "@ + crate::text::decimal(files) + " files and "@
            + crate::text::decimal(extra_dirs as nat) + " directories (plus defaults)\n"@
    }
}

/// The log footer of a run that ends the scan.
pub open spec fn run_footer(target: Seq<char>, now: Seq<char>, status: Seq<char>) -> Seq<char> {
    "--- Scan finished for: "@ + target + " at "@ + now + " with exit code: "@ + status
        + " ---\n"@
}

/// The log note of a run that is retried.
pub open spec fn retry_note() -> Seq<char> {
    "Detected permission issues, retrying with additional exclusions...\n"@
}

/// The message for a scan that kept hitting errors.
pub open spec fn errors_message(retry: u32) -> Seq<char> {
    "clamscan finished with some errors (exit code 2) after "@ + crate::text::decimal(
        retry as nat,
    ) + " retries. Check clamav_external_scans.log for details."@
}

/// The debug text of an optional exit code: `Some(<code>)` or `None`.
pub open spec fn exit_code_debug(code: Option<i32>) -> Seq<char> {
    match code {
        Some(c) => "Some("@ + crate::text::signed_decimal(c as int) + ")"@,
        None => "None"@,
    }
}

/// The message for a scan whose process failed in another way.
pub open spec fn status_message(code: Option<i32>) -> Seq<char> {
    "clamscan exited with non-zero status: "@ + exit_code_debug(code)
}

/// The message of a cancelled scan.
pub open spec fn cancelled_message() -> Seq<char> {
    "Scan cancelled by user"@
}

/// The audit message of a clean scan.
pub open spec fn clean_message() -> Seq<char> {
    "No threats found"@
}

/// The audit message of a scan that exited with 1 without a count of
/// infected files.
pub open spec fn no_count_message() -> Seq<char> {
    "Scan finished with exit code 1 but no infected files found in summary"@
}

/// The message of a `SCAN_COMPLETE` event for `path`.
pub open spec fn complete_message(path: Seq<char>, virus_found: bool, details: Seq<char>) -> Seq<char> {
    "Scan of "@ + path + " finished. Status: "@ + crate::audit::scan_status_word(virus_found)
        + ". Details: "@ + details
}

/// Whether `e` is the `SCAN_COMPLETE` event of a scan of `path` that found
/// nothing, with `details`.
pub open spec fn is_complete_event(e: AuditEvent, path: Seq<char>, details: Seq<char>) -> bool {
    e.event_type@ == "SCAN_COMPLETE"@ && e.message@ == complete_message(path, false, details)
}

impl ScanSession {
    /// The session's lists and counters are consistent: the directory
    /// exclusions begin with the defaults, no list repeats a pattern or a
    /// file, the output lines are single lines, and at most `MAX_RETRIES`
    /// retries happened.
    pub open spec fn wf(&self) -> bool {
        &&& self.dir_exclusions@.len() >= 7
        &&& views(self.dir_exclusions@).take(7) == default_dir_exclusions()
        &&& views(self.dir_exclusions@).no_duplicates()
        &&& views(self.file_exclusions@).no_duplicates()
        &&& views(self.infected_files@).no_duplicates()
        &&& forall|i: int|
            0 <= i < self.attempt_lines@.len() ==> single_line(#[trigger] self.attempt_lines@[i]@)
        &&& self.retry_count <= MAX_RETRIES
    }

    /// A session for `target_path`, with the file exclusions read from the
    /// lines of its `.clamignore` (none when there is no such file).
    pub fn new(target_path: &str, eject_on_infection: bool, clamignore_lines: &Vec<String>) -> (r:
        ScanSession)
        ensures
            r.wf(),
            r.target_path@ == target_path@,
            r.eject_on_infection == eject_on_infection,
            views(r.dir_exclusions@) == default_dir_exclusions(),
            views(r.file_exclusions@) == ignore_fold(Seq::empty(), views(clamignore_lines@)),
            r.retry_count == 0,
            r.infected_files@.len() == 0,
            r.attempt_lines@.len() == 0,
            r.summary@.len() == 0,
            !r.in_summary,
            !r.killed,
            r.log_buffer@.len() == 0,
    {
        let mut dirs: Vec<String> = Vec::new();
        dirs.push(String::from_str("\\.Spotlight-V100"));
        dirs.push(String::from_str("\\.fseventsd"));
        dirs.push(String::from_str("\\.Trashes"));
        dirs.push(String::from_str("\\.DocumentRevisions-V100"));
        dirs.push(String::from_str("\\.TemporaryItems"));
        dirs.push(String::from_str("\\$RECYCLE\\.BIN"));
        dirs.push(String::from_str("System Volume Information"));
        assert(views(dirs@) =~= default_dir_exclusions());
        proof {
            reveal_strlit("\\.Spotlight-V100");
            reveal_strlit("\\.fseventsd");
            reveal_strlit("\\.Trashes");
            reveal_strlit("\\.DocumentRevisions-V100");
            reveal_strlit("\\.TemporaryItems");
            reveal_strlit("\\$RECYCLE\\.BIN");
            reveal_strlit("System Volume Information");
            assert(default_dir_exclusions().no_duplicates()) by {
                let d = default_dir_exclusions();
                assert forall|i: int, j: int| 0 <= i < d.len() && 0 <= j < d.len() && i != j implies d[i]
                    != d[j] by {
                    if d[i] == d[j] {
                        assert(d[i].len() == d[j].len());
                        assert(d[i][2] == d[j][2]);
                    }
                }
            }
            assert(views(dirs@).take(7) =~= views(dirs@));
        }
        let files = clamignore_exclusions(clamignore_lines);
        ScanSession {
            target_path: String::from_str(target_path),
            eject_on_infection,
            dir_exclusions: dirs,
            file_exclusions: files,
            retry_count: 0,
            infected_files: Vec::new(),
            attempt_lines: Vec::new(),
            summary: String::new(),
            in_summary: false,
            killed: false,
            log_buffer: String::new(),
        }
    }
}

} // verus!

verus! {

/// The file a progress line of clamscan names: a line that starts with `/`
/// names the file before its first `:`.
pub open spec fn progress_path(line: Seq<char>) -> Option<Seq<char>> {
    if line.len() > 0 && line[0] == '/' && line.contains(':') {
        Some(line.take(choose|k: int| 0 <= k < line.len() && line[k] == ':' && forall|j: int| 0 <= j < k ==> line[j] != ':'))
    } else {
        None
    }
}

/// The file a progress line of clamscan names, if it names one.
pub fn progress_file(line: &str) -> (r: Option<String>)
    ensures
        match r {
            Some(p) => progress_path(line@) == Some(p@),
            None => progress_path(line@) is None,
        },
{
    let v = chars_of(line);
    if v.len() == 0 || v[0] != '/' {
        return None;
    }
    let mut k: usize = 0;
    while k < v.len()
        invariant
            v@ == line@,
            k <= v.len(),
            v.len() > 0 && v@[0] == '/',
            forall|j: int| 0 <= j < k ==> v@[j] != ':',
        decreases v.len() - k,
    {
        if v[k] == ':' {
            let ghost c = choose|c: int| 0 <= c < line@.len() && line@[c] == ':' && forall|j: int| 0 <= j < c ==> line@[j] != ':';
            proof {
                if c < k {
                    assert(v@[c] != ':');
                }
                if k < c {
                    assert(line@[k as int] != ':');
                }
            }
            let p = string_of_range(&v, 0, k);
            assert(line@.subrange(0, k as int) =~= line@.take(k as int));
            return Some(p);
        }
        k = k + 1;
    }
    None
}

/// `prefix` put before each item of `v`.
pub open spec fn prefixed(prefix: Seq<char>, v: Seq<Seq<char>>) -> Seq<Seq<char>> {
    v.map_values(|x: Seq<char>| prefix + x)
}

/// Appends `prefix` + item for every item of `items` to `out`.
fn push_prefixed(out: &mut Vec<String>, prefix: &str, items: &Vec<String>)
    ensures
        views(final(out)@) == views(old(out)@) + prefixed(prefix@, views(items@)),
{
    let mut i: usize = 0;
    while i < items.len()
        invariant
            i <= items.len(),
            views(out@) == views(old(out)@) + prefixed(prefix@, views(items@).take(i as int)),
        decreases items.len() - i,
    {
        let ghost before = views(out@);
        let item = concat2(prefix, items[i].as_str());
        out.push(item);
        assert(views(out@) =~= before.push(prefix@ + items@[i as int]@));
        assert(prefixed(prefix@, views(items@).take(i + 1)) =~= prefixed(
            prefix@,
            views(items@).take(i as int),
        ).push(prefix@ + items@[i as int]@));
        assert(views(out@) =~= views(old(out)@) + prefixed(prefix@, views(items@).take(i + 1)));
        i = i + 1;
    }
    assert(views(items@).take(items.len() as int) =~= views(items@));
}

/// Adds the pattern of a permission message to the file or directory list.
fn add_exclusion(files: &mut Vec<String>, dirs: &mut Vec<String>, ex: Option<(bool, String)>)
    requires
        views(old(files)@).no_duplicates(),
        views(old(dirs)@).no_duplicates(),
        old(dirs)@.len() >= 7,
    ensures
        views(final(files)@).no_duplicates(),
        views(final(dirs)@).no_duplicates(),
        views(final(dirs)@).take(7) == views(old(dirs)@).take(7),
        final(dirs)@.len() >= old(dirs)@.len(),
        final(files)@.len() >= old(files)@.len(),
        (views(final(files)@), views(final(dirs)@)) == match ex {
            Some((true, p)) => (views(old(files)@), added(views(old(dirs)@), p@)),
            Some((false, p)) => (added(views(old(files)@), p@), views(old(dirs)@)),
            None => (views(old(files)@), views(old(dirs)@)),
        },
{
    match ex {
        Some((is_dir, pat)) => {
            if is_dir {
                proof {
                    lemma_added_no_duplicates(views(dirs@), pat@);
                }
                insert_new(dirs, pat);
                assert(views(dirs@).take(7) =~= views(old(dirs)@).take(7));
            } else {
                proof {
                    lemma_added_no_duplicates(views(files@), pat@);
                }
                insert_new(files, pat);
            }
        },
        None => {},
    }
}

/// The arguments of clamscan for a session: recursive, bell on detection,
/// the database directory if one is given, every directory and file
/// exclusion, and the mount point last.
pub open spec fn scan_args(
    datadir: Option<Seq<char>>,
    dirs: Seq<Seq<char>>,
    files: Seq<Seq<char>>,
    target: Seq<char>,
) -> Seq<Seq<char>> {
    seq!["-r"@, "--bell"@] + match datadir {
        Some(d) => seq!["--database="@ + d],
        None => Seq::empty(),
    } + prefixed("--exclude-dir="@, dirs) + prefixed("--exclude="@, files) + seq![target]
}

impl ScanSession {
    /// Starts a run: clears what the previous run read and begins its log
    /// text with the run's header.
    pub fn begin_attempt(&mut self, now: &str)
        requires
            old(self).wf(),
        ensures
            final(self).wf(),
            final(self).target_path == old(self).target_path,
            final(self).eject_on_infection == old(self).eject_on_infection,
            final(self).dir_exclusions == old(self).dir_exclusions,
            final(self).file_exclusions == old(self).file_exclusions,
            final(self).retry_count == old(self).retry_count,
            final(self).infected_files == old(self).infected_files,
            final(self).attempt_lines@.len() == 0,
            final(self).summary@.len() == 0,
            !final(self).in_summary,
            !final(self).killed,
            final(self).log_buffer@ == run_header(
                old(self).retry_count,
                old(self).target_path@,
                now@,
                old(self).file_exclusions@.len(),
                old(self).dir_exclusions@.len() - 7,
            ),
    {
        self.attempt_lines = Vec::new();
        self.summary = String::new();
        self.in_summary = false;
        self.killed = false;
        if self.retry_count == 0 {
            let mut b = concat3("\n--- Scan starting for: ", self.target_path.as_str(), " at ");
            b.append(now);
            b.append(" ---\n");
            self.log_buffer = b;
        } else {
            let mut b = String::from_str("\n--- Retry #");
            let n = u64_to_decimal(self.retry_count as u64);
            b.append(n.as_str());
            b.append(" for: ");
            b.append(self.target_path.as_str());
            b.append(" at ");
            b.append(now);
            b.append(" ---\n");
            b.append("Excluding ");
            let f = u64_to_decimal(self.file_exclusions.len() as u64);
            b.append(f.as_str());
            b.append(" files and ");
            let d = u64_to_decimal((self.dir_exclusions.len() - 7) as u64);
            b.append(d.as_str());
            b.append(" directories (plus defaults)\n");
            self.log_buffer = b;
        }
    }

    /// The arguments for the clamscan process of the current run.
    pub fn command_args(&self, datadir: Option<&str>) -> (r: Vec<String>)
        ensures
            views(r@) == scan_args(
                crate::audit::opt_view(datadir),
                views(self.dir_exclusions@),
                views(self.file_exclusions@),
                self.target_path@,
            ),
    {
        let mut r: Vec<String> = Vec::new();
        r.push(String::from_str("-r"));
        r.push(String::from_str("--bell"));
        match datadir {
            Some(d) => r.push(concat2("--database=", d)),
            None => {},
        }
        let ghost start = views(r@);
        assert(start =~= seq!["-r"@, "--bell"@] + match crate::audit::opt_view(datadir) {
            Some(d) => seq!["--database="@ + d],
            None => Seq::<Seq<char>>::empty(),
        });
        push_prefixed(&mut r, "--exclude-dir=", &self.dir_exclusions);
        push_prefixed(&mut r, "--exclude=", &self.file_exclusions);
        let ghost mid = views(r@);
        r.push(self.target_path.clone());
        assert(views(r@) =~= mid.push(self.target_path@));
        assert(views(r@) =~= scan_args(
            crate::audit::opt_view(datadir),
            views(self.dir_exclusions@),
            views(self.file_exclusions@),
            self.target_path@,
        ));
        r
    }

    /// Handles one output line of the current run. When cancellation was
    /// requested the run is marked cancelled and reading stops; otherwise
    /// the line is recorded (a reported infected file is remembered once,
    /// the line goes to the log text and, from the summary marker on, to the
    /// summary) and reading goes on.
    pub fn on_line(&mut self, line: &str, cancel_requested: bool) -> (keep_reading: bool)
        requires
            old(self).wf(),
            single_line(line@),
        ensures
            final(self).wf(),
            keep_reading == !cancel_requested,
            final(self).target_path == old(self).target_path,
            final(self).eject_on_infection == old(self).eject_on_infection,
            final(self).dir_exclusions == old(self).dir_exclusions,
            final(self).file_exclusions == old(self).file_exclusions,
            final(self).retry_count == old(self).retry_count,
            cancel_requested ==> {
                &&& final(self).killed
                &&& final(self).infected_files == old(self).infected_files
                &&& final(self).attempt_lines == old(self).attempt_lines
                &&& final(self).summary == old(self).summary
                &&& final(self).in_summary == old(self).in_summary
                &&& final(self).log_buffer == old(self).log_buffer
            },
            !cancel_requested ==> {
                &&& final(self).killed == old(self).killed
                &&& views(final(self).infected_files@) == match found_path(line@) {
                    Some(p) => added(views(old(self).infected_files@), p),
                    None => views(old(self).infected_files@),
                }
                &&& views(final(self).attempt_lines@) == views(old(self).attempt_lines@).push(line@)
                &&& final(self).log_buffer@ == old(self).log_buffer@ + line@ + "\n"@
                &&& final(self).in_summary == (old(self).in_summary || crate::text::occurs_in(
                    line@,
                    summary_marker(),
                ))
                &&& final(self).summary@ == if final(self).in_summary {
                    old(self).summary@ + line@ + "\n"@
                } else {
                    old(self).summary@
                }
            },
    {
        if cancel_requested {
            self.killed = true;
            return false;
        }
        match parse_found_line(line) {
            Some(p) => {
                proof {
                    lemma_added_no_duplicates(views(self.infected_files@), p@);
                }
                insert_new(&mut self.infected_files, p);
            },
            None => {},
        }
        self.log_buffer.append(line);
        self.log_buffer.append("\n");
        let ghost old_lines = self.attempt_lines@;
        self.attempt_lines.push(String::from_str(line));
        assert(views(self.attempt_lines@) =~= views(old_lines).push(line@));
        assert(forall|i: int| 0 <= i < old_lines.len() ==> self.attempt_lines@[i] == old_lines[i]);
        if contains(line, "----------- SCAN SUMMARY -----------") {
            self.in_summary = true;
        }
        if self.in_summary {
            self.summary.append(line);
            self.summary.append("\n");
        }
        true
    }

    /// Reads the permission messages of the current run into the exclusion
    /// lists; says whether any pattern was new.
    #[verifier::spinoff_prover]
    #[verifier::rlimit(40)]
    pub fn collect_permission_exclusions(&mut self) -> (found_new: bool)
        requires
            old(self).wf(),
        ensures
            final(self).wf(),
            (views(final(self).file_exclusions@), views(final(self).dir_exclusions@))
                == permission_fold(
                views(old(self).file_exclusions@),
                views(old(self).dir_exclusions@),
                views(old(self).attempt_lines@),
            ),
            found_new == (final(self).file_exclusions@.len() > old(self).file_exclusions@.len()
                || final(self).dir_exclusions@.len() > old(self).dir_exclusions@.len()),
            final(self).target_path == old(self).target_path,
            final(self).eject_on_infection == old(self).eject_on_infection,
            final(self).retry_count == old(self).retry_count,
            final(self).infected_files == old(self).infected_files,
            final(self).attempt_lines == old(self).attempt_lines,
            final(self).summary == old(self).summary,
            final(self).in_summary == old(self).in_summary,
            final(self).killed == old(self).killed,
            final(self).log_buffer == old(self).log_buffer,
    {
        let ghost f0 = views(self.file_exclusions@);
        let ghost d0 = views(self.dir_exclusions@);
        let ghost lines = views(self.attempt_lines@);
        let files0 = self.file_exclusions.len();
        let dirs0 = self.dir_exclusions.len();
        let mut files: Vec<String> = Vec::new();
        let mut dirs: Vec<String> = Vec::new();
        std::mem::swap(&mut files, &mut self.file_exclusions);
        std::mem::swap(&mut dirs, &mut self.dir_exclusions);
        let mut i: usize = 0;
        while i < self.attempt_lines.len()
            invariant
                i <= self.attempt_lines.len(),
                lines == views(self.attempt_lines@),
                forall|k: int|
                    0 <= k < self.attempt_lines@.len() ==> single_line(
                        #[trigger] self.attempt_lines@[k]@,
                    ),
                (views(files@), views(dirs@)) == permission_fold(f0, d0, lines.take(i as int)),
                views(files@).no_duplicates(),
                views(dirs@).no_duplicates(),
                views(dirs@).take(7) == d0.take(7),
                dirs@.len() >= d0.len(),
                files@.len() >= f0.len(),
                d0.len() >= 7,
            decreases self.attempt_lines.len() - i,
        {
            assert(lines.take(i + 1).drop_last() =~= lines.take(i as int));
            assert(lines.take(i + 1).last() == self.attempt_lines@[i as int]@);
            let ex = parse_permission_error(self.attempt_lines[i].as_str());
            add_exclusion(&mut files, &mut dirs, ex);
            i = i + 1;
        }
        assert(lines.take(lines.len() as int) =~= lines);
        let found_new = files.len() > files0 || dirs.len() > dirs0;
        self.file_exclusions = files;
        self.dir_exclusions = dirs;
        found_new
    }
}

} // verus!

verus! {

/// What a finished scan reports, as (virus found, details, the audit events
/// as (type, message) pairs, notify, eject), given the exit code of its last run, the
/// summary of that run, the number of retries, the mount point and whether
/// to eject on infection.
pub open spec fn outcome(
    code: Option<i32>,
    summary: Seq<char>,
    retry: u32,
    target: Seq<char>,
    eject_on_infection: bool,
) -> (bool, Seq<char>, Seq<(Seq<char>, Seq<char>)>, bool, bool) {
    match code {
        Some(0) => (
            false,
            summary,
            seq![("SCAN_COMPLETE"@, complete_message(target, false, clean_message()))],
            false,
            false,
        ),
        Some(1) => if infected_count_spec(summary) > 0 {
            (
                true,
                summary,
                seq![
                    (
                        "INFECTION_DETECTED"@,
                        "Malware found on "@ + target + ": "@ + newlines_to_spaces(summary),
                    ),
                    (
                        "SCAN_COMPLETE"@,
                        complete_message(target, true, newlines_to_spaces(summary)),
                    ),
                ],
                true,
                eject_on_infection,
            )
        } else {
            (
                false,
                summary,
                seq![("SCAN_COMPLETE"@, complete_message(target, false, no_count_message()))],
                false,
                false,
            )
        },
        Some(2) => (
            false,
            errors_message(retry),
            seq![("SCAN_COMPLETE"@, complete_message(target, false, errors_message(retry)))],
            false,
            false,
        ),
        _ => (
            false,
            status_message(code),
            seq![("SCAN_COMPLETE"@, complete_message(target, false, status_message(code)))],
            false,
            false,
        ),
    }
}

/// The parts of a report that `outcome` describes.
pub open spec fn report_view(r: ScanReport) -> (bool, Seq<char>, Seq<(Seq<char>, Seq<char>)>, bool, bool) {
    (r.virus_found, r.details@, r.events@.map_values(|e: AuditEvent| e@), r.notify, r.eject)
}

/// A list of one event.
fn single_event(e: AuditEvent) -> (r: Vec<AuditEvent>)
    ensures
        r@ == seq![e],
{
    let mut r: Vec<AuditEvent> = Vec::new();
    r.push(e);
    assert(r@ =~= seq![e]);
    r
}

/// The debug text of an optional exit code.
fn exit_code_text(code: Option<i32>) -> (r: String)
    ensures
        r@ == exit_code_debug(code),
{
    match code {
        Some(c) => {
            let d = i64_to_decimal(c as i64);
            concat3("Some(", d.as_str(), ")")
        },
        None => String::from_str("None"),
    }
}

impl ScanSession {
    /// Ends the current run, given clamscan's exit code and the text of its
    /// exit status. A cancelled run ends the scan at once. A run that exited
    /// with 2 while retries are left has its permission messages read into
    /// the exclusion lists, and is retried when that added a pattern.
    /// Otherwise the scan is over and the report says what it found.
    pub fn finish_attempt(&mut self, exit_code: Option<i32>, status_text: &str, now: &str) -> (r:
        AttemptEnd)
        requires
            old(self).wf(),
        ensures
            final(self).wf(),
            final(self).target_path == old(self).target_path,
            final(self).eject_on_infection == old(self).eject_on_infection,
            final(self).infected_files == old(self).infected_files,
            final(self).attempt_lines == old(self).attempt_lines,
            final(self).summary == old(self).summary,
            old(self).killed ==> {
                &&& r matches AttemptEnd::Done(rep)
                &&& !rep.virus_found
                &&& rep.details@ == cancelled_message()
                &&& rep.infected_files@.len() == 0
                &&& rep.events@.len() == 1
                &&& is_complete_event(rep.events@[0], old(self).target_path@, cancelled_message())
                &&& !rep.notify && !rep.eject && !rep.write_log
                &&& final(self).dir_exclusions == old(self).dir_exclusions
                &&& final(self).file_exclusions == old(self).file_exclusions
                &&& final(self).retry_count == old(self).retry_count
                &&& final(self).log_buffer == old(self).log_buffer
            },
            !old(self).killed ==> {
                let tries = exit_code == Some(2i32) && old(self).retry_count < MAX_RETRIES;
                let folded = permission_fold(
                    views(old(self).file_exclusions@),
                    views(old(self).dir_exclusions@),
                    views(old(self).attempt_lines@),
                );
                let grew = folded.0.len() > old(self).file_exclusions@.len() || folded.1.len()
                    > old(self).dir_exclusions@.len();
                &&& tries ==> (views(final(self).file_exclusions@), views(
                    final(self).dir_exclusions@,
                )) == folded
                &&& !tries ==> final(self).dir_exclusions == old(self).dir_exclusions
                    && final(self).file_exclusions == old(self).file_exclusions
                &&& (tries && grew) ==> {
                    &&& r is Retry
                    &&& final(self).retry_count == old(self).retry_count + 1
                    &&& final(self).log_buffer@ == old(self).log_buffer@ + retry_note()
                }
                &&& !(tries && grew) ==> {
                    &&& r matches AttemptEnd::Done(rep)
                    &&& report_view(rep) == outcome(
                        exit_code,
                        old(self).summary@,
                        old(self).retry_count,
                        old(self).target_path@,
                        old(self).eject_on_infection,
                    )
                    &&& rep.infected_files@ == old(self).infected_files@
                    &&& rep.write_log
                    &&& final(self).retry_count == old(self).retry_count
                    &&& final(self).log_buffer@ == old(self).log_buffer@ + run_footer(
                        old(self).target_path@,
                        now@,
                        status_text@,
                    )
                }
            },
    {
        if self.killed {
            let details = String::from_str("Scan cancelled by user");
            let event = log_scan_complete(
                self.target_path.as_str(),
                false,
                "Scan cancelled by user",
            );
            return AttemptEnd::Done(
                ScanReport {
                    virus_found: false,
                    details,
                    infected_files: Vec::new(),
                    events: single_event(event),
                    notify: false,
                    eject: false,
                    write_log: false,
                },
            );
        }
        let is_two = match exit_code {
            Some(c) => c == 2,
            None => false,
        };
        if is_two && self.retry_count < MAX_RETRIES {
            let found_new = self.collect_permission_exclusions();
            if found_new {
                self.retry_count = self.retry_count + 1;
                self.log_buffer.append(
                    "Detected permission issues, retrying with additional exclusions...\n",
                );
                return AttemptEnd::Retry;
            }
        }
        let mut footer = concat3("--- Scan finished for: ", self.target_path.as_str(), " at ");
        footer.append(now);
        footer.append(" with exit code: ");
        footer.append(status_text);
        footer.append(" ---\n");
        assert(footer@ =~= run_footer(self.target_path@, now@, status_text@));
        self.log_buffer.append(footer.as_str());
        let infected = self.infected_files.clone();
        assert(infected@ =~= self.infected_files@);
        let target = self.target_path.as_str();
        match exit_code {
            Some(0) => {
                let event = log_scan_complete(target, false, "No threats found");
                AttemptEnd::Done(
                    ScanReport {
                        virus_found: false,
                        details: self.summary.clone(),
                        infected_files: infected,
                        events: single_event(event),
                        notify: false,
                        eject: false,
                        write_log: true,
                    },
                )
            },
            Some(1) => {
                let count = infected_count(self.summary.as_str());
                if count > 0 {
                    let flat = replace_newlines(self.summary.as_str());
                    let mut events = single_event(log_infection(target, flat.as_str()));
                    events.push(log_scan_complete(target, true, flat.as_str()));
                    AttemptEnd::Done(
                        ScanReport {
                            virus_found: true,
                            details: self.summary.clone(),
                            infected_files: infected,
                            events,
                            notify: true,
                            eject: self.eject_on_infection,
                            write_log: true,
                        },
                    )
                } else {
                    let event = log_scan_complete(
                        target,
                        false,
                        "Scan finished with exit code 1 but no infected files found in summary",
                    );
                    AttemptEnd::Done(
                        ScanReport {
                            virus_found: false,
                            details: self.summary.clone(),
                            infected_files: infected,
                            events: single_event(event),
                            notify: false,
                            eject: false,
                            write_log: true,
                        },
                    )
                }
            },
            Some(2) => {
                let mut msg = String::from_str(
                    "clamscan finished with some errors (exit code 2) after ",
                );
                let n = u64_to_decimal(self.retry_count as u64);
                msg.append(n.as_str());
                msg.append(" retries. Check clamav_external_scans.log for details.");
                let event = log_scan_complete(target, false, msg.as_str());
                AttemptEnd::Done(
                    ScanReport {
                        virus_found: false,
                        details: msg,
                        infected_files: infected,
                        events: single_event(event),
                        notify: false,
                        eject: false,
                        write_log: true,
                    },
                )
            },
            _ => {
                let code_text = exit_code_text(exit_code);
                let msg = concat2("clamscan exited with non-zero status: ", code_text.as_str());
                let event = log_scan_complete(target, false, msg.as_str());
                AttemptEnd::Done(
                    ScanReport {
                        virus_found: false,
                        details: msg,
                        infected_files: infected,
                        events: single_event(event),
                        notify: false,
                        eject: false,
                        write_log: true,
                    },
                )
            },
        }
    }
}

} // verus!

verus! {

// ---------------------------------------------------------------------------
// freshclam

/// How to run `freshclam`: its arguments and the temporary directory to
/// give it through `TMPDIR`, if any.
pub struct FreshclamPlan {
    pub args: Vec<String>,
    pub tmpdir: Option<String>,
}

/// The arguments of freshclam: `--user=root` when running as root, then
/// the database directory when one is chosen.
pub open spec fn freshclam_args(is_root: bool, datadir: Option<Seq<char>>) -> Seq<Seq<char>> {
    (if is_root {
        seq!["--user=root"@]
    } else {
        Seq::empty()
    }) + match datadir {
        Some(d) => seq!["--datadir="@ + d],
        None => Seq::empty(),
    }
}

/// The temporary directory of freshclam: `FRESHCLAM_TEMPDIR` when it is
/// set, otherwise `/tmp` for a user that is not root, otherwise none.
pub open spec fn freshclam_tmpdir(is_root: bool, env_tempdir: Option<Seq<char>>) -> Option<Seq<char>> {
    match env_tempdir {
        Some(t) => Some(t),
        None => if is_root {
            None
        } else {
            Some("/tmp"@)
        },
    }
}

/// How to run freshclam, given whether the service runs as root, the
/// database directory chosen (if any) and the value of `FRESHCLAM_TEMPDIR`.
pub fn freshclam_plan(is_root: bool, datadir: Option<&str>, env_tempdir: Option<&str>) -> (r:
    FreshclamPlan)
    ensures
        views(r.args@) == freshclam_args(is_root, crate::audit::opt_view(datadir)),
        crate::text::opt_string_view(r.tmpdir) == freshclam_tmpdir(
            is_root,
            crate::audit::opt_view(env_tempdir),
        ),
{
    let mut args: Vec<String> = Vec::new();
    if is_root {
        args.push(String::from_str("--user=root"));
    }
    match datadir {
        Some(d) => args.push(concat2("--datadir=", d)),
        None => {},
    }
    assert(views(args@) =~= freshclam_args(is_root, crate::audit::opt_view(datadir)));
    let tmpdir = match env_tempdir {
        Some(t) => Some(String::from_str(t)),
        None => if is_root {
            None
        } else {
            Some(String::from_str("/tmp"))
        },
    };
    FreshclamPlan { args, tmpdir }
}

/// The details recorded for a freshclam run that failed with `code` (-1
/// when it was ended by a signal) and the given output.
pub open spec fn freshclam_failure_details(code: Option<i32>, stdout: Seq<char>, stderr: Seq<char>) -> Seq<char> {
    let c = match code {
        Some(c) => c as int,
        None => -1,
    };
    "Exited with code "@ + crate::text::signed_decimal(c) + ". Output: "@ + "STDOUT: "@ + stdout
        + "\nSTDERR: "@ + stderr
}

/// The audit event for a freshclam run that finished: success, or failure
/// with its exit code and output.
pub fn freshclam_finished(success: bool, exit_code: Option<i32>, stdout: &str, stderr: &str) -> (r:
    AuditEvent)
    ensures
        r.event_type@ == "UPDATE_COMPLETE"@,
        success ==> r.message@ == crate::audit::update_message(
            true,
            "Database updated successfully"@,
        ),
        !success ==> r.message@ == crate::audit::update_message(
            false,
            freshclam_failure_details(exit_code, stdout@, stderr@),
        ),
{
    if success {
        log_update_complete(true, "Database updated successfully")
    } else {
        let code: i64 = match exit_code {
            Some(c) => c as i64,
            None => -1,
        };
        let mut d = String::from_str("Exited with code ");
        let n = i64_to_decimal(code);
        d.append(n.as_str());
        d.append(". Output: ");
        d.append("STDOUT: ");
        d.append(stdout);
        d.append("\nSTDERR: ");
        d.append(stderr);
        assert(d@ =~= freshclam_failure_details(exit_code, stdout@, stderr@));
        log_update_complete(false, d.as_str())
    }
}

/// The audit event for a freshclam process that could not be started.
pub fn freshclam_not_started(error: &str) -> (r: AuditEvent)
    ensures
        r.event_type@ == "UPDATE_COMPLETE"@,
        r.message@ == crate::audit::update_message(false, "Failed to execute freshclam: "@ + error@),
{
    let d = concat2("Failed to execute freshclam: ", error);
    log_update_complete(false, d.as_str())
}

} // verus!
