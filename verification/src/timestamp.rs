//! Points in time as plain values: seconds and nanoseconds since the Unix
//! epoch (UTC) together with the local UTC offset in effect at that moment,
//! and the calendar facts the service derives from them.

use vstd::prelude::*;

verus! {

/// The earliest second since the epoch that chrono can represent
/// (January 1, 262144 BCE).
pub const MIN_SECS: i64 = -8334601228800;

/// The latest second since the epoch that chrono can represent
/// (December 31, 262142 CE, 23:59:59).
pub const MAX_SECS: i64 = 8210266876799;

/// Seconds in a day.
pub const SECS_PER_DAY: i64 = 86400;

/// Seconds in 365 days, how far back the history is kept.
pub const SECS_PER_YEAR: i64 = 31536000;

/// A number of days that is a multiple of seven and larger than the day
/// number of any representable local time: adding it makes every local
/// second count non-negative without changing the weekday.
const DAY_SHIFT: i64 = 96465306;

/// A moment in time with the local UTC offset that applied to it.
#[derive(Clone, Copy, Debug, PartialEq, Eq, Structural)]
pub struct Timestamp {
    /// Whole seconds since 1970-01-01 00:00:00 UTC.
    pub secs: i64,
    /// Nanoseconds past `secs`.
    pub nanos: u32,
    /// Local time minus UTC, in seconds.
    pub offset_secs: i32,
}

/// The name of what chrono's `DateTime::to_rfc3339` gives for the moment
/// `secs`/`nanos` shown with the UTC offset `offset_secs`.
pub uninterp spec fn rfc3339_text(secs: i64, nanos: u32, offset_secs: i32) -> Seq<char>;

impl Timestamp {
    /// A moment chrono can represent, with a valid nanosecond count and an
    /// offset of less than a day.
    pub open spec fn wf(&self) -> bool {
        &&& MIN_SECS <= self.secs <= MAX_SECS
        &&& self.nanos < 1_000_000_000
        &&& -86400 < self.offset_secs < 86400
    }

    /// Seconds since the epoch on the local clock.
    pub open spec fn local_secs(&self) -> int {
        self.secs + self.offset_secs
    }

    /// The local calendar day, counted from 1970-01-01.
    pub open spec fn local_day(&self) -> int {
        self.local_secs() / 86400
    }

    /// Seconds since local midnight.
    pub open spec fn second_of_day(&self) -> int {
        self.local_secs() % 86400
    }

    /// The local hour, 0 to 23.
    pub open spec fn hour_spec(&self) -> int {
        self.second_of_day() / 3600
    }

    /// The local minute, 0 to 59.
    pub open spec fn minute_spec(&self) -> int {
        (self.second_of_day() % 3600) / 60
    }

    /// The local weekday counted from Sunday (0) to Saturday (6);
    /// 1970-01-01 was a Thursday.
    pub open spec fn weekday_spec(&self) -> int {
        (self.local_day() + 4) % 7
    }

    /// Whether this is a moment chrono can represent, with a valid
    /// nanosecond count and an offset of less than a day.
    pub fn is_valid(&self) -> (r: bool)
        ensures
            r == self.wf(),
    {
        MIN_SECS <= self.secs && self.secs <= MAX_SECS && self.nanos < 1_000_000_000
            && -86400 < self.offset_secs && self.offset_secs < 86400
    }

    /// Whether this moment comes strictly after `secs`/`nanos`.
    pub open spec fn is_after_spec(&self, secs: int, nanos: int) -> bool {
        self.secs > secs || (self.secs == secs && self.nanos > nanos)
    }

    /// The moment as chrono's RFC 3339 text (`DateTime::to_rfc3339`), for
    /// example `2023-01-01T12:00:00+01:00`.
    #[verifier::external_body]
    pub(crate) fn to_rfc3339(&self) -> (r: String)
        requires
            self.wf(),
        ensures
            r@ == rfc3339_text(self.secs, self.nanos, self.offset_secs),
    {
        let offset = chrono::FixedOffset::east_opt(self.offset_secs).unwrap();
        chrono::DateTime::from_timestamp(self.secs, self.nanos).unwrap().with_timezone(
            &offset,
        ).to_rfc3339()
    }

    /// The local second count shifted so that it is never negative.
    fn shifted_local_secs(&self) -> (r: u64)
        requires
            self.wf(),
        ensures
            r == self.local_secs() + DAY_SHIFT * 86400,
            r / 86400 == self.local_day() + DAY_SHIFT,
            r % 86400 == self.second_of_day(),
    {
        let local: i64 = self.secs + self.offset_secs as i64;
        let r = (local + DAY_SHIFT * SECS_PER_DAY) as u64;
        proof {
            let x = local as int;
            let q = x / 86400;
            let m = x % 86400;
            vstd::arithmetic::div_mod::lemma_fundamental_div_mod(x, 86400);
            assert(86400 * (q + DAY_SHIFT) + m == x + DAY_SHIFT * 86400);
            vstd::arithmetic::div_mod::lemma_div_multiples_vanish_fancy(q + DAY_SHIFT, m, 86400);
            vstd::arithmetic::div_mod::lemma_mod_multiples_vanish(DAY_SHIFT as int, x, 86400);
        }
        r
    }

    /// The local calendar day, counted from 1970-01-01.
    pub fn day_number(&self) -> (r: i64)
        requires
            self.wf(),
        ensures
            r == self.local_day(),
    {
        let s = self.shifted_local_secs();
        (s / 86400) as i64 - DAY_SHIFT
    }

    /// The local hour, 0 to 23.
    pub fn hour(&self) -> (r: u32)
        requires
            self.wf(),
        ensures
            r == self.hour_spec(),
    {
        let s = self.shifted_local_secs();
        ((s % 86400) / 3600) as u32
    }

    /// The local minute, 0 to 59.
    pub fn minute(&self) -> (r: u32)
        requires
            self.wf(),
        ensures
            r == self.minute_spec(),
    {
        let s = self.shifted_local_secs();
        (((s % 86400) % 3600) / 60) as u32
    }

    /// The local weekday counted from Sunday (0) to Saturday (6).
    pub fn weekday_from_sunday(&self) -> (r: u32)
        requires
            self.wf(),
        ensures
            r == self.weekday_spec(),
    {
        let s = self.shifted_local_secs();
        let d = s / 86400;
        proof {
            let day = self.local_day();
            vstd::arithmetic::div_mod::lemma_mod_multiples_vanish(
                DAY_SHIFT / 7,
                day + 4,
                7,
            );
            assert(7 * (DAY_SHIFT / 7) + (day + 4) == d + 4);
        }
        ((d + 4) % 7) as u32
    }

    /// Whether this moment comes strictly after `secs`/`nanos`.
    pub fn is_after(&self, secs: i64, nanos: u32) -> (r: bool)
        ensures
            r == self.is_after_spec(secs as int, nanos as int),
    {
        self.secs > secs || (self.secs == secs && self.nanos > nanos)
    }
}

} // verus!
