//! The service settings, their defaults, where they are stored, and how
//! environment variables override them.

use vstd::prelude::*;
use crate::text::{concat2, join_path, parse_u32, str_eq, to_lowercase};

verus! {

/// How often the scheduled full-system scan runs.
#[derive(Clone, Copy, Debug, PartialEq, Eq, Structural)]
pub enum ScheduleInterval {
    /// No scheduled scans (`None` in the settings file).
    Never,
    Daily,
    Weekly,
}

impl Default for ScheduleInterval {
    /// No scheduled scans.
    fn default() -> (r: ScheduleInterval)
        ensures
            r == ScheduleInterval::Never,
    {
        ScheduleInterval::Never
    }
}

/// The service settings.
#[derive(Debug)]
pub struct Config {
    pub eject_on_infection: bool,
    pub discord_webhooks: String,
    pub slack_webhooks: String,
    pub freshclam_interval_hours: u32,
    pub scheduled_scan_interval: ScheduleInterval,
    /// `HH:MM`.
    pub scheduled_scan_time: String,
    /// 0 (Sunday) to 6 (Saturday).
    pub scheduled_scan_day: u32,
    pub show_uninstall_button: bool,
    pub show_quit_button: bool,
}

impl Clone for Config {
    /// A copy with the same settings.
    fn clone(&self) -> (r: Config)
        ensures
            r == *self,
    {
        Config {
            eject_on_infection: self.eject_on_infection,
            discord_webhooks: self.discord_webhooks.clone(),
            slack_webhooks: self.slack_webhooks.clone(),
            freshclam_interval_hours: self.freshclam_interval_hours,
            scheduled_scan_interval: self.scheduled_scan_interval,
            scheduled_scan_time: self.scheduled_scan_time.clone(),
            scheduled_scan_day: self.scheduled_scan_day,
            show_uninstall_button: self.show_uninstall_button,
            show_quit_button: self.show_quit_button,
        }
    }
}

/// Whether `c` holds the default settings.
pub open spec fn is_default(c: Config) -> bool {
    &&& c.eject_on_infection
    &&& c.discord_webhooks@ == Seq::<char>::empty()
    &&& c.slack_webhooks@ == Seq::<char>::empty()
    &&& c.freshclam_interval_hours == 12
    &&& c.scheduled_scan_interval == ScheduleInterval::Never
    &&& c.scheduled_scan_time@ == "02:00"@
    &&& c.scheduled_scan_day == 0
    &&& !c.show_uninstall_button
    &&& !c.show_quit_button
}

impl Default for Config {
    /// Eject on infection, no webhooks, database updates every 12 hours,
    /// no scheduled scans (02:00 on Sunday when enabled), and neither the
    /// uninstall nor the quit button shown.
    fn default() -> (r: Config)
        ensures
            is_default(r),
    {
        Config {
            eject_on_infection: true,
            discord_webhooks: String::new(),
            slack_webhooks: String::new(),
            freshclam_interval_hours: 12,
            scheduled_scan_interval: ScheduleInterval::Never,
            scheduled_scan_time: String::from_str("02:00"),
            scheduled_scan_day: 0,
            show_uninstall_button: false,
            show_quit_button: false,
        }
    }
}

/// The values of the environment variables that override the settings,
/// `None` for each one that is unset (or not valid Unicode).
pub struct ConfigEnv {
    /// `EJECT_ON_INFECTION`
    pub eject_on_infection: Option<String>,
    /// `DISCORD_WEBHOOKS`
    pub discord_webhooks: Option<String>,
    /// `SLACK_WEBHOOKS`
    pub slack_webhooks: Option<String>,
    /// `FRESHCLAM_INTERVAL_HOURS`
    pub freshclam_interval_hours: Option<String>,
    /// `SCHEDULED_SCAN_INTERVAL`
    pub scheduled_scan_interval: Option<String>,
    /// `SCHEDULED_SCAN_TIME`
    pub scheduled_scan_time: Option<String>,
    /// `SCHEDULED_SCAN_DAY`
    pub scheduled_scan_day: Option<String>,
    /// `SHOW_UNINSTALL_BUTTON`
    pub show_uninstall_button: Option<String>,
    /// `SHOW_QUIT_BUTTON`
    pub show_quit_button: Option<String>,
}

/// A flag set by a variable: true exactly when the variable is `true` in
/// any letter case.
pub open spec fn flag_override(v: Option<String>, current: bool) -> bool {
    match v {
        Some(s) => crate::text::lowercase(s@) == "true"@,
        None => current,
    }
}

/// A text setting replaced by a variable.
pub open spec fn text_override(v: Option<String>, current: Seq<char>) -> Seq<char> {
    match v {
        Some(s) => s@,
        None => current,
    }
}

/// A number set by a variable, kept when the variable is not a `u32`.
pub open spec fn number_override(v: Option<String>, current: u32) -> u32 {
    match v {
        Some(s) => match crate::text::parse_u32_spec(s@) {
            Some(n) => n,
            None => current,
        },
        None => current,
    }
}

/// The interval set by a variable (`none`, `daily` or `weekly` in any letter
/// case), kept for any other value.
pub open spec fn interval_override(v: Option<String>, current: ScheduleInterval) -> ScheduleInterval {
    match v {
        Some(s) => {
            let l = crate::text::lowercase(s@);
            if l == "none"@ {
                ScheduleInterval::Never
            } else if l == "daily"@ {
                ScheduleInterval::Daily
            } else if l == "weekly"@ {
                ScheduleInterval::Weekly
            } else {
                current
            }
        },
        None => current,
    }
}

/// `r` is `base` with the variables in `env` applied.
pub open spec fn overridden(r: Config, base: Config, env: ConfigEnv) -> bool {
    &&& r.eject_on_infection == flag_override(env.eject_on_infection, base.eject_on_infection)
    &&& r.discord_webhooks@ == text_override(env.discord_webhooks, base.discord_webhooks@)
    &&& r.slack_webhooks@ == text_override(env.slack_webhooks, base.slack_webhooks@)
    &&& r.freshclam_interval_hours == number_override(
        env.freshclam_interval_hours,
        base.freshclam_interval_hours,
    )
    &&& r.scheduled_scan_interval == interval_override(
        env.scheduled_scan_interval,
        base.scheduled_scan_interval,
    )
    &&& r.scheduled_scan_time@ == text_override(env.scheduled_scan_time, base.scheduled_scan_time@)
    &&& r.scheduled_scan_day == number_override(env.scheduled_scan_day, base.scheduled_scan_day)
    &&& r.show_uninstall_button == flag_override(
        env.show_uninstall_button,
        base.show_uninstall_button,
    )
    &&& r.show_quit_button == flag_override(env.show_quit_button, base.show_quit_button)
}

/// The flag given by a variable's value.
fn flag_value(v: &Option<String>, current: bool) -> (r: bool)
    ensures
        r == flag_override(*v, current),
{
    match v {
        Some(s) => {
            let l = to_lowercase(s.as_str());
            str_eq(l.as_str(), "true")
        },
        None => current,
    }
}

/// The text given by a variable's value.
fn text_value(v: &Option<String>, current: &String) -> (r: String)
    ensures
        r@ == text_override(*v, current@),
{
    match v {
        Some(s) => s.clone(),
        None => current.clone(),
    }
}

/// The number given by a variable's value.
fn number_value(v: &Option<String>, current: u32) -> (r: u32)
    ensures
        r == number_override(*v, current),
{
    match v {
        Some(s) => match parse_u32(s.as_str()) {
            Some(n) => n,
            None => current,
        },
        None => current,
    }
}

/// The interval given by a variable's value.
fn interval_value(v: &Option<String>, current: ScheduleInterval) -> (r: ScheduleInterval)
    ensures
        r == interval_override(*v, current),
{
    match v {
        Some(s) => {
            let l = to_lowercase(s.as_str());
            if str_eq(l.as_str(), "none") {
                ScheduleInterval::Never
            } else if str_eq(l.as_str(), "daily") {
                ScheduleInterval::Daily
            } else if str_eq(l.as_str(), "weekly") {
                ScheduleInterval::Weekly
            } else {
                current
            }
        },
        None => current,
    }
}

impl Config {
    /// The settings file: `config.json` inside `CONFIG_DIR` when it is set,
    /// otherwise a system location for root and a per-user one (under
    /// `HOME`, or `/tmp` when `HOME` is unset) for everybody else.
    pub fn get_path(env_dir: Option<&str>, is_root: bool, home: Option<&str>) -> (r: String)
        ensures
            r@ == match env_dir {
                Some(d) => crate::text::joined_path(d@, "config.json"@),
                None => if is_root {
                    "/Library/Application Support/clamguard/config.json"@
                } else {
                    crate::audit::opt_view(home).unwrap_or("/tmp"@)
                        + "/Library/Application Support/clamguard/config.json"@
                },
            },
    {
        match env_dir {
            Some(d) => join_path(d, "config.json"),
            None => if is_root {
                String::from_str("/Library/Application Support/clamguard/config.json")
            } else {
                let h = match home {
                    Some(h) => h,
                    None => "/tmp",
                };
                concat2(h, "/Library/Application Support/clamguard/config.json")
            },
        }
    }

    /// Applies the environment variables in `env` to the settings.
    pub fn apply_env(&mut self, env: &ConfigEnv)
        ensures
            overridden(*final(self), *old(self), *env),
    {
        self.eject_on_infection = flag_value(&env.eject_on_infection, self.eject_on_infection);
        self.discord_webhooks = text_value(&env.discord_webhooks, &self.discord_webhooks);
        self.slack_webhooks = text_value(&env.slack_webhooks, &self.slack_webhooks);
        self.freshclam_interval_hours = number_value(
            &env.freshclam_interval_hours,
            self.freshclam_interval_hours,
        );
        self.scheduled_scan_interval = interval_value(
            &env.scheduled_scan_interval,
            self.scheduled_scan_interval,
        );
        self.scheduled_scan_time = text_value(&env.scheduled_scan_time, &self.scheduled_scan_time);
        self.scheduled_scan_day = number_value(&env.scheduled_scan_day, self.scheduled_scan_day);
        self.show_uninstall_button = flag_value(
            &env.show_uninstall_button,
            self.show_uninstall_button,
        );
        self.show_quit_button = flag_value(&env.show_quit_button, self.show_quit_button);
    }

    /// The settings in effect: the stored ones when there are any (the
    /// defaults otherwise), with the environment variables applied.
    pub fn load(stored: Option<Config>, env: &ConfigEnv) -> (r: Config)
        ensures
            match stored {
                Some(c) => overridden(r, c, *env),
                None => exists|d: Config| is_default(d) && overridden(r, d, *env),
            },
    {
        let mut c = match stored {
            Some(c) => c,
            None => Config::default(),
        };
        let ghost base = c;
        c.apply_env(env);
        assert(overridden(c, base, *env));
        c
    }
}

} // verus!
