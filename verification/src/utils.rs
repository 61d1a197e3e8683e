//! Where the ClamAV tools are found, the tray icon's picture, the database
//! directory, and the files that install the service as a LaunchAgent.

use vstd::prelude::*;
use crate::text::{chars_of, concat2, concat3, join_path, push_char, str_eq};

verus! {

// ---------------------------------------------------------------------------
// Locating the ClamAV tools

/// The first of `candidates` that is among `present`, if any.
pub open spec fn first_present(candidates: Seq<Seq<char>>, present: Seq<Seq<char>>) -> Option<Seq<char>>
    decreases candidates.len(),
{
    if candidates.len() == 0 {
        None
    } else if present.contains(candidates[0]) {
        Some(candidates[0])
    } else {
        first_present(candidates.drop_first(), present)
    }
}

/// Where clamscan is looked for, in order.
pub open spec fn clamscan_paths() -> Seq<Seq<char>> {
    seq!["/opt/homebrew/bin/clamscan"@, "/usr/local/bin/clamscan"@, "/usr/bin/clamscan"@]
}

/// Where freshclam is looked for, in order.
pub open spec fn freshclam_paths() -> Seq<Seq<char>> {
    seq!["/opt/homebrew/bin/freshclam"@, "/usr/local/bin/freshclam"@, "/usr/bin/freshclam"@]
}

/// The places where clamscan is looked for, in order.
pub fn clamscan_candidates() -> (r: Vec<String>)
    ensures
        crate::text::views(r@) == clamscan_paths(),
{
    let mut r: Vec<String> = Vec::new();
    r.push(String::from_str("/opt/homebrew/bin/clamscan"));
    r.push(String::from_str("/usr/local/bin/clamscan"));
    r.push(String::from_str("/usr/bin/clamscan"));
    assert(crate::text::views(r@) =~= clamscan_paths());
    r
}

/// The places where freshclam is looked for, in order.
pub fn freshclam_candidates() -> (r: Vec<String>)
    ensures
        crate::text::views(r@) == freshclam_paths(),
{
    let mut r: Vec<String> = Vec::new();
    r.push(String::from_str("/opt/homebrew/bin/freshclam"));
    r.push(String::from_str("/usr/local/bin/freshclam"));
    r.push(String::from_str("/usr/bin/freshclam"));
    assert(crate::text::views(r@) =~= freshclam_paths());
    r
}

/// Whether `present` holds `s`.
fn holds(present: &Vec<String>, s: &str) -> (r: bool)
    ensures
        r == crate::text::views(present@).contains(s@),
{
    let mut i: usize = 0;
    while i < present.len()
        invariant
            i <= present.len(),
            forall|k: int| 0 <= k < i ==> present@[k]@ != s@,
        decreases present.len() - i,
    {
        if str_eq(present[i].as_str(), s) {
            assert(crate::text::views(present@)[i as int] == s@);
            return true;
        }
        i = i + 1;
    }
    proof {
        if crate::text::views(present@).contains(s@) {
            let k = choose|k: int|
                0 <= k < crate::text::views(present@).len() && crate::text::views(present@)[k]
                    == s@;
            assert(present@[k]@ == s@);
        }
    }
    false
}

/// The first candidate that exists, or the bare `name` to be found on
/// `PATH`.
fn pick_tool(candidates: &Vec<String>, present: &Vec<String>, name: &str) -> (r: String)
    ensures
        r@ == match first_present(crate::text::views(candidates@), crate::text::views(present@)) {
            Some(p) => p,
            None => name@,
        },
{
    let ghost c = crate::text::views(candidates@);
    let ghost pr = crate::text::views(present@);
    assert(c.skip(0) =~= c);
    let mut i: usize = 0;
    while i < candidates.len()
        invariant
            i <= candidates.len(),
            c == crate::text::views(candidates@),
            pr == crate::text::views(present@),
            first_present(c, pr) == first_present(c.skip(i as int), pr),
        decreases candidates.len() - i,
    {
        assert(c.skip(i as int)[0] == candidates@[i as int]@);
        assert(c.skip(i as int).drop_first() =~= c.skip(i + 1));
        if holds(present, candidates[i].as_str()) {
            return candidates[i].clone();
        }
        i = i + 1;
    }
    assert(c.skip(i as int).len() == 0);
    String::from_str(name)
}

/// Where clamscan is: the first of the usual places that exists (those
/// that exist are in `present`), otherwise `clamscan`, to be found on `PATH`.
pub fn find_clamscan(present: &Vec<String>) -> (r: String)
    ensures
        r@ == match first_present(clamscan_paths(), crate::text::views(present@)) {
            Some(p) => p,
            None => "clamscan"@,
        },
{
    let c = clamscan_candidates();
    pick_tool(&c, present, "clamscan")
}

/// Where freshclam is: the first of the usual places that exists (those
/// that exist are in `present`), otherwise `freshclam`, to be found on
/// `PATH`.
pub fn find_freshclam(present: &Vec<String>) -> (r: String)
    ensures
        r@ == match first_present(freshclam_paths(), crate::text::views(present@)) {
            Some(p) => p,
            None => "freshclam"@,
        },
{
    let c = freshclam_candidates();
    pick_tool(&c, present, "freshclam")
}

// ---------------------------------------------------------------------------
// The tray icon

/// What the tray icon shows.
#[derive(Clone, Copy, Debug, PartialEq, Eq, Structural)]
pub enum IconState {
    Idle,
    Active,
    Infected,
}

/// The side of the square icon, in pixels.
pub const ICON_SIZE: u32 = 22;

/// The colour of pixel (`x`, `y`) as RGBA: a disc of radius 7 around the
/// centre (11, 11) in the state's colour (blue when active, red when
/// infected, grey when idle), a light grey ring out to radius 9, and
/// transparent outside. A pixel is in the disc when its squared distance
/// to the centre is below 49, in the ring when it is below 81.
pub open spec fn pixel(state: IconState, x: int, y: int) -> Seq<u8> {
    let d2 = (x - 11) * (x - 11) + (y - 11) * (y - 11);
    if d2 < 49 {
        match state {
            IconState::Active => seq![0u8, 122u8, 255u8, 255u8],
            IconState::Infected => seq![255u8, 59u8, 48u8, 255u8],
            IconState::Idle => seq![128u8, 128u8, 128u8, 255u8],
        }
    } else if d2 < 81 {
        seq![200u8, 200u8, 200u8, 255u8]
    } else {
        seq![0u8, 0u8, 0u8, 0u8]
    }
}

/// Byte `k` of the icon's RGBA data, pixels row by row.
pub open spec fn icon_byte(state: IconState, k: int) -> u8 {
    let p = k / 4;
    pixel(state, p % 22, p / 22)[k % 4]
}

/// The colour of one pixel.
fn pixel_rgba(state: IconState, x: i32, y: i32) -> (r: [u8; 4])
    requires
        0 <= x < 22,
        0 <= y < 22,
    ensures
        r@ == pixel(state, x as int, y as int),
{
    let dx = x - 11;
    let dy = y - 11;
    assert(0 <= dx * dx <= 121 && 0 <= dy * dy <= 121) by (nonlinear_arith)
        requires
            -11 <= dx <= 11,
            -11 <= dy <= 11,
    ;
    let d2 = dx * dx + dy * dy;
    let r: [u8; 4] = if d2 < 49 {
        match state {
            IconState::Active => [0u8, 122u8, 255u8, 255u8],
            IconState::Infected => [255u8, 59u8, 48u8, 255u8],
            IconState::Idle => [128u8, 128u8, 128u8, 255u8],
        }
    } else if d2 < 81 {
        [200u8, 200u8, 200u8, 255u8]
    } else {
        [0u8, 0u8, 0u8, 0u8]
    };
    assert(r@ =~= pixel(state, x as int, y as int));
    r
}

/// The RGBA data of the 22 by 22 tray icon for `state`.
pub fn icon_rgba(state: IconState) -> (r: Vec<u8>)
    ensures
        r@.len() == 22 * 22 * 4,
        forall|k: int| 0 <= k < 22 * 22 * 4 ==> r@[k] == icon_byte(state, k),
{
    let mut v: Vec<u8> = Vec::new();
    let mut p: u32 = 0;
    while p < 484
        invariant
            p <= 484,
            v@.len() == 4 * p,
            forall|k: int| 0 <= k < 4 * p ==> v@[k] == icon_byte(state, k),
        decreases 484 - p,
    {
        let x = (p % 22) as i32;
        let y = (p / 22) as i32;
        let px = pixel_rgba(state, x, y);
        let mut c: usize = 0;
        while c < 4
            invariant
                p < 484,
                c <= 4,
                x == p % 22,
                y == p / 22,
                px@ == pixel(state, x as int, y as int),
                v@.len() == 4 * p + c,
                forall|k: int| 0 <= k < 4 * p + c ==> v@[k] == icon_byte(state, k),
            decreases 4 - c,
        {
            proof {
                let k = 4 * p + c;
                vstd::arithmetic::div_mod::lemma_fundamental_div_mod_converse(
                    k as int,
                    4,
                    p as int,
                    c as int,
                );
            }
            v.push(px[c]);
            c = c + 1;
        }
        p = p + 1;
    }
    v
}

// ---------------------------------------------------------------------------
// The virus database directory

/// Where the virus database is kept.
#[derive(Debug)]
pub enum DatadirChoice {
    /// The directory named by `FRESHCLAM_DATADIR`.
    FromEnv(String),
    /// ClamAV's own default (running as root).
    SystemDefault,
    /// A per-user cache directory, to be created; it is used only when it
    /// can be.
    UserCache(String),
}

/// Where the virus database is kept, given the value of
/// `FRESHCLAM_DATADIR`, whether the service runs as root and the value of
/// `HOME` (`/tmp` when unset).
pub fn get_clamav_datadir(env_datadir: Option<&str>, is_root: bool, home: Option<&str>) -> (r:
    DatadirChoice)
    ensures
        match env_datadir {
            Some(d) => r matches DatadirChoice::FromEnv(s) && s@ == d@,
            None => if is_root {
                r is SystemDefault
            } else {
                r matches DatadirChoice::UserCache(s) && s@ == crate::audit::opt_view(
                    home,
                ).unwrap_or("/tmp"@) + "/Library/Caches/clamguard/clamav"@
            },
        },
{
    match env_datadir {
        Some(d) => DatadirChoice::FromEnv(String::from_str(d)),
        None => if is_root {
            DatadirChoice::SystemDefault
        } else {
            let h = match home {
                Some(h) => h,
                None => "/tmp",
            };
            DatadirChoice::UserCache(concat2(h, "/Library/Caches/clamguard/clamav"))
        },
    }
}

// ---------------------------------------------------------------------------
// Installing and removing the service

/// The system-wide LaunchDaemon of an older installation.
pub open spec fn legacy_daemon_path() -> Seq<char> {
    "/Library/LaunchDaemons/com.osx-dek-rs.plist"@
}

/// The binary of an older installation.
pub open spec fn legacy_bin_path() -> Seq<char> {
    "/usr/local/bin/osx-dek-rs"@
}

/// The paths a per-user installation uses.
pub struct ServicePaths {
    /// The application support directory.
    pub support_dir: String,
    /// Where the binary is copied.
    pub target_bin: String,
    /// The LaunchAgents directory.
    pub plist_dir: String,
    /// The LaunchAgent file.
    pub plist_path: String,
    /// Where the service writes its output.
    pub log_dir: String,
}

/// The paths of a per-user installation under the home directory `home`.
pub fn service_paths(home: &str) -> (r: ServicePaths)
    ensures
        r.support_dir@ == home@ + "/Library/Application Support/osx-dek-rs"@,
        r.target_bin@ == r.support_dir@ + "/osx-dek-rs"@,
        r.plist_dir@ == home@ + "/Library/LaunchAgents"@,
        r.plist_path@ == r.plist_dir@ + "/com.osx-dek-rs.plist"@,
        r.log_dir@ == home@ + "/Library/Logs/osx-dek-rs"@,
{
    let support_dir = concat2(home, "/Library/Application Support/osx-dek-rs");
    let target_bin = concat2(support_dir.as_str(), "/osx-dek-rs");
    let plist_dir = concat2(home, "/Library/LaunchAgents");
    let plist_path = concat2(plist_dir.as_str(), "/com.osx-dek-rs.plist");
    let log_dir = concat2(home, "/Library/Logs/osx-dek-rs");
    ServicePaths { support_dir, target_bin, plist_dir, plist_path, log_dir }
}

/// The text of the LaunchAgent before the binary's path.
pub open spec fn plist_head() -> Seq<char> {
    "<?xml version=\"1.0\" encoding=\"UTF-8\"?>\n<!DOCTYPE plist PUBLIC \"-//Apple//DTD PLIST 1.0//EN\" \"http://www.apple.com/DTDs/PropertyList-1.0.dtd\">\n<plist version=\"1.0\">\n<dict>\n    <key>Label</key>\n    <string>com.osx-dek-rs</string>\n    <key>ProgramArguments</key>\n    <array>\n        <string>"@
}

/// The text of the LaunchAgent between the binary's path and the log
/// directory.
pub open spec fn plist_middle() -> Seq<char> {
    "</string>\n    </array>\n    <key>RunAtLoad</key>\n    <true/>\n    <key>KeepAlive</key>\n    <true/>\n    <key>StandardOutPath</key>\n    <string>"@
}

/// The text of the LaunchAgent between the two log paths.
pub open spec fn plist_between_logs() -> Seq<char> {
    "/stdout.log</string>\n    <key>StandardErrorPath</key>\n    <string>"@
}

/// The text of the LaunchAgent after the log directory.
pub open spec fn plist_tail() -> Seq<char> {
    "/stderr.log</string>\n    <key>ProcessType</key>\n    <string>Background</string>\n    <key>LowPriorityIO</key>\n    <true/>\n    <key>Nice</key>\n    <integer>5</integer>\n</dict>\n</plist>"@
}

/// The LaunchAgent property list that starts `target_bin` at login, keeps
/// it alive in the background at low priority, and sends its output to
/// `log_dir`.
pub fn plist_content(target_bin: &str, log_dir: &str) -> (r: String)
    ensures
        r@ == plist_head() + target_bin@ + plist_middle() + log_dir@ + plist_between_logs()
            + log_dir@ + plist_tail(),
{
    let mut r = String::from_str(
        "<?xml version=\"1.0\" encoding=\"UTF-8\"?>\n<!DOCTYPE plist PUBLIC \"-//Apple//DTD PLIST 1.0//EN\" \"http://www.apple.com/DTDs/PropertyList-1.0.dtd\">\n<plist version=\"1.0\">\n<dict>\n    <key>Label</key>\n    <string>com.osx-dek-rs</string>\n    <key>ProgramArguments</key>\n    <array>\n        <string>",
    );
    r.append(target_bin);
    r.append(
        "</string>\n    </array>\n    <key>RunAtLoad</key>\n    <true/>\n    <key>KeepAlive</key>\n    <true/>\n    <key>StandardOutPath</key>\n    <string>",
    );
    r.append(log_dir);
    r.append("/stdout.log</string>\n    <key>StandardErrorPath</key>\n    <string>");
    r.append(log_dir);
    r.append(
        "/stderr.log</string>\n    <key>ProcessType</key>\n    <string>Background</string>\n    <key>LowPriorityIO</key>\n    <true/>\n    <key>Nice</key>\n    <integer>5</integer>\n</dict>\n</plist>",
    );
    r
}

/// The per-user LaunchAgent file under `home`.
pub fn agent_plist_path(home: &str) -> (r: String)
    ensures
        r@ == home@ + "/Library/LaunchAgents/com.osx-dek-rs.plist"@,
{
    concat2(home, "/Library/LaunchAgents/com.osx-dek-rs.plist")
}

/// The per-user binary under `home`.
pub fn user_bin_path(home: &str) -> (r: String)
    ensures
        r@ == home@ + "/Library/Application Support/osx-dek-rs/osx-dek-rs"@,
{
    concat2(home, "/Library/Application Support/osx-dek-rs/osx-dek-rs")
}

/// The paths whose existence means the service is installed: the legacy
/// LaunchDaemon, and the per-user LaunchAgent when `HOME` is set (joined
/// as a path, so an empty `HOME` gives a relative path).
pub fn installed_markers(home: Option<&str>) -> (r: Vec<String>)
    ensures
        crate::text::views(r@) == seq![legacy_daemon_path()] + match home {
            Some(h) => seq![
                crate::text::joined_path(h@, "Library/LaunchAgents/com.osx-dek-rs.plist"@),
            ],
            None => Seq::empty(),
        },
{
    let mut r: Vec<String> = Vec::new();
    r.push(String::from_str("/Library/LaunchDaemons/com.osx-dek-rs.plist"));
    match home {
        Some(h) => r.push(join_path(h, "Library/LaunchAgents/com.osx-dek-rs.plist")),
        None => {},
    }
    assert(crate::text::views(r@) =~= seq![legacy_daemon_path()] + match home {
        Some(h) => seq![crate::text::joined_path(h@, "Library/LaunchAgents/com.osx-dek-rs.plist"@)],
        None => Seq::<Seq<char>>::empty(),
    });
    r
}

/// The shell script that removes an older system-wide installation.
pub open spec fn legacy_cleanup_script() -> Seq<char> {
    "launchctl unload -w \""@ + legacy_daemon_path() + "\" 2>/dev/null || true; rm -f \""@
        + legacy_daemon_path() + "\"; rm -f \""@ + legacy_bin_path() + "\""@
}

/// The shell script that removes an older system-wide installation.
pub fn legacy_cleanup(
) -> (r: String)
    ensures
        r@ == legacy_cleanup_script(),
{
    let mut r = concat3(
        "launchctl unload -w \"",
        "/Library/LaunchDaemons/com.osx-dek-rs.plist",
        "\" 2>/dev/null || true; rm -f \"",
    );
    r.append("/Library/LaunchDaemons/com.osx-dek-rs.plist");
    r.append("\"; rm -f \"");
    r.append("/usr/local/bin/osx-dek-rs");
    r.append("\"");
    r
}

/// `s` with a backslash before every double quote.
pub open spec fn quotes_escaped(s: Seq<char>) -> Seq<char>
    decreases s.len(),
{
    if s.len() == 0 {
        Seq::empty()
    } else if s.last() == '"' {
        quotes_escaped(s.drop_last()) + seq!['\\', '"']
    } else {
        quotes_escaped(s.drop_last()).push(s.last())
    }
}

/// The AppleScript that runs `script` with administrator privileges (the
/// script's double quotes escaped).
pub fn admin_osascript(script: &str) -> (r: String)
    ensures
        r@ == "do shell script \""@ + quotes_escaped(script@) + "\" with administrator privileges"@,
{
    let v = chars_of(script);
    let mut e = String::new();
    let mut i: usize = 0;
    while i < v.len()
        invariant
            v@ == script@,
            i <= v.len(),
            e@ == quotes_escaped(script@.take(i as int)),
        decreases v.len() - i,
    {
        assert(script@.take(i + 1).drop_last() =~= script@.take(i as int));
        if v[i] == '"' {
            push_char(&mut e, '\\');
            push_char(&mut e, '"');
            assert(e@ =~= quotes_escaped(script@.take(i as int)) + seq!['\\', '"']);
        } else {
            push_char(&mut e, v[i]);
        }
        i = i + 1;
    }
    assert(script@.take(v.len() as int) =~= script@);
    concat3("do shell script \"", e.as_str(), "\" with administrator privileges")
}

} // verus!
