//! User preferences: their defaults and how each setting is changed.
//! Reading and writing the preferences file is left to the caller.
use crate::text::str_eq;
use vstd::prelude::*;

verus! {

#[derive(Debug, Clone, Copy, PartialEq, Eq, Structural)]
pub struct Preferences {
    /// Auto-refresh interval in seconds (0 = disabled).
    pub refresh_interval: u64,
    /// Last selected repository id.
    pub last_selected_repo_id: Option<i64>,
    pub window_width: i32,
    pub window_height: i32,
    /// Show notifications.
    pub enable_notifications: bool,
    /// Play a sound when a workflow completes.
    pub enable_sounds: bool,
}

/// Auto-refresh off, no repository remembered, a 1000×700 window,
/// notifications and sounds on.
pub open spec fn default_preferences() -> Preferences {
    Preferences {
        refresh_interval: 0,
        last_selected_repo_id: None,
        window_width: 1000,
        window_height: 700,
        enable_notifications: true,
        enable_sounds: true,
    }
}

/// A first start, with no preferences file, has auto-refresh off (the
/// interval `Never` stores), no remembered repository, a 1000×700 window,
/// and notifications and sounds on.
pub proof fn law_first_start_preferences()
    ensures
        Some(default_preferences().refresh_interval) == stored_interval_for("Never"@),
        default_preferences().refresh_interval == 0,
        default_preferences().last_selected_repo_id is None,
        default_preferences().window_width == 1000,
        default_preferences().window_height == 700,
        default_preferences().enable_notifications,
        default_preferences().enable_sounds,
{
}

impl Default for Preferences {
    fn default() -> (p: Preferences)
        ensures
            p == default_preferences(),
    {
        Preferences {
            refresh_interval: 0,
            last_selected_repo_id: None,
            window_width: 1000,
            window_height: 700,
            enable_notifications: true,
            enable_sounds: true,
        }
    }
}

/// The auto-refresh choices offered to the user and their periods in
/// seconds: `Never` turns refreshing off; `30 seconds`, `1 minute` and
/// `5 minutes` refresh at that period. Other labels are no choice.
pub open spec fn refresh_option_period(label: Seq<char>) -> Option<u64> {
    if label == "30 seconds"@ {
        Some(30)
    } else if label == "1 minute"@ {
        Some(60)
    } else if label == "5 minutes"@ {
        Some(300)
    } else {
        None
    }
}

/// The refresh period of an auto-refresh choice, none for `Never`.
pub fn refresh_option_seconds(label: &str) -> (period: Option<u64>)
    ensures
        period == refresh_option_period(label@),
{
    if str_eq(label, "30 seconds") {
        Some(30)
    } else if str_eq(label, "1 minute") {
        Some(60)
    } else if str_eq(label, "5 minutes") {
        Some(300)
    } else {
        None
    }
}

/// The interval stored for an auto-refresh choice: `Never` stores 0, which
/// turns refreshing off; the other choices store their period. Other labels
/// are no choice and store nothing.
pub open spec fn stored_interval_for(label: Seq<char>) -> Option<u64> {
    if label == "Never"@ {
        Some(0)
    } else {
        refresh_option_period(label)
    }
}

/// The refresh interval to store for an auto-refresh choice.
pub fn stored_refresh_interval(label: &str) -> (interval: Option<u64>)
    ensures
        interval == stored_interval_for(label@),
{
    if str_eq(label, "Never") {
        Some(0)
    } else {
        refresh_option_seconds(label)
    }
}

/// How long the background refresh waits before the next refresh: the
/// stored interval, or no refresh at all when it is 0.
pub fn refresh_wait(interval_seconds: u64) -> (wait: Option<u64>)
    ensures
        wait == (if interval_seconds == 0 {
            None
        } else {
            Some(interval_seconds)
        }),
{
    if interval_seconds == 0 {
        None
    } else {
        Some(interval_seconds)
    }
}

/// Choosing `Never` turns the background refresh off, and every other
/// choice refreshes at its period.
pub proof fn law_never_turns_refresh_off(label: Seq<char>)
    ensures
        label == "Never"@ ==> stored_interval_for(label) == Some(0u64),
        refresh_option_period(label) is Some ==> stored_interval_for(label) == refresh_option_period(label)
            && refresh_option_period(label).unwrap() > 0,
{
    reveal_strlit("Never");
    reveal_strlit("30 seconds");
    reveal_strlit("1 minute");
    reveal_strlit("5 minutes");
    assert("Never"@.len() == 5);
    assert("30 seconds"@ != "Never"@);
    assert("1 minute"@ != "Never"@);
    assert("5 minutes"@ != "Never"@);
}

/// The refresh interval stored for a period chosen in whole minutes (zero
/// turns refreshing off).
pub fn refresh_seconds_for_minutes(minutes: u64) -> (seconds: u64)
    requires
        minutes * 60 <= u64::MAX,
    ensures
        seconds == minutes * 60,
{
    minutes * 60
}

/// Holds the current preferences and applies changes to them.
pub struct PreferencesManager {
    prefs: Preferences,
}

impl PreferencesManager {
    pub closed spec fn spec_prefs(&self) -> Preferences {
        self.prefs
    }

    /// Starts from preferences read from the preferences file; when there is
    /// no file, or it does not decode, the defaults apply.
    pub fn new(loaded: Option<Preferences>) -> (m: PreferencesManager)
        ensures
            m.spec_prefs() == match loaded {
                Some(p) => p,
                None => default_preferences(),
            },
    {
        let prefs = match loaded {
            Some(p) => p,
            None => Preferences::default(),
        };
        PreferencesManager { prefs }
    }

    /// The current preferences.
    pub fn get(&self) -> (p: Preferences)
        ensures
            p == self.spec_prefs(),
    {
        self.prefs
    }

    pub fn set_refresh_interval(&mut self, seconds: u64)
        ensures
            final(self).spec_prefs() == (Preferences {
                refresh_interval: seconds,
                ..old(self).spec_prefs()
            }),
    {
        self.prefs.refresh_interval = seconds;
    }

    pub fn set_last_selected_repo(&mut self, repo_id: Option<i64>)
        ensures
            final(self).spec_prefs() == (Preferences {
                last_selected_repo_id: repo_id,
                ..old(self).spec_prefs()
            }),
    {
        self.prefs.last_selected_repo_id = repo_id;
    }

    pub fn set_window_size(&mut self, width: i32, height: i32)
        ensures
            final(self).spec_prefs() == (Preferences {
                window_width: width,
                window_height: height,
                ..old(self).spec_prefs()
            }),
    {
        self.prefs.window_width = width;
        self.prefs.window_height = height;
    }

    pub fn set_notifications_enabled(&mut self, enabled: bool)
        ensures
            final(self).spec_prefs() == (Preferences {
                enable_notifications: enabled,
                ..old(self).spec_prefs()
            }),
    {
        self.prefs.enable_notifications = enabled;
    }

    pub fn set_sounds_enabled(&mut self, enabled: bool)
        ensures
            final(self).spec_prefs() == (Preferences { enable_sounds: enabled, ..old(self).spec_prefs() }),
    {
        self.prefs.enable_sounds = enabled;
    }
}

} // verus!
