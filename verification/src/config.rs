//! Settings of the control loop.

use vstd::prelude::*;
use vstd::string::*;
use crate::icons;

verus! {

/// Icon assets, one per state.
#[derive(Debug, Clone)]
pub struct Icons {
    pub active: String,
    pub busy: String,
    pub paused: String,
}

/// Mathematical value of [`Icons`].
pub struct IconsView {
    pub active: Seq<char>,
    pub busy: Seq<char>,
    pub paused: Seq<char>,
}

impl View for Icons {
    type V = IconsView;

    open spec fn view(&self) -> IconsView {
        IconsView { active: self.active@, busy: self.busy@, paused: self.paused@ }
    }
}

/// Settings of one run.  Loads are fixed-point (millionths), intervals are
/// seconds.
#[derive(Debug, Clone)]
pub struct Config {
    /// A cycle is idle while the load per core stays below this threshold.
    pub idle_load_threshold: u64,
    /// Seconds to sleep after an idle cycle.
    pub min_interval: u64,
    /// Seconds to sleep after a busy or paused cycle.
    pub max_interval: u64,
    /// A load that moved by more than this since the last cycle is announced.
    pub load_change_threshold: u64,
    /// Number of idle cycles in a row from which idleness is announced.
    pub min_idle_cycles_for_notify: u32,
    pub icons: Icons,
}

/// Mathematical value of [`Config`].
pub struct ConfigView {
    pub idle_load_threshold: nat,
    pub min_interval: nat,
    pub max_interval: nat,
    pub load_change_threshold: nat,
    pub min_idle_cycles_for_notify: nat,
    pub icons: IconsView,
}

impl ConfigView {
    /// The invariant of a configuration: the short interval is not longer
    /// than the long one.  (Thresholds cannot be negative by their type.)
    pub open spec fn wf(self) -> bool {
        self.min_interval <= self.max_interval
    }
}

/// The built-in settings.
pub open spec fn default_config() -> ConfigView {
    ConfigView {
        idle_load_threshold: 200_000,
        min_interval: 30,
        max_interval: 300,
        load_change_threshold: 50_000,
        min_idle_cycles_for_notify: 2,
        icons: IconsView { active: icons::IDLE@, busy: icons::BUSY@, paused: icons::PAUSED@ },
    }
}

/// The settings that are in force when a configuration file gave `parsed`:
/// its settings where there are any and they are well-formed, the built-in
/// settings otherwise.
pub open spec fn loaded_config(parsed: Option<ConfigView>) -> ConfigView {
    match parsed {
        Some(c) => if c.wf() {
            c
        } else {
            default_config()
        },
        None => default_config(),
    }
}

impl View for Config {
    type V = ConfigView;

    open spec fn view(&self) -> ConfigView {
        ConfigView {
            idle_load_threshold: self.idle_load_threshold as nat,
            min_interval: self.min_interval as nat,
            max_interval: self.max_interval as nat,
            load_change_threshold: self.load_change_threshold as nat,
            min_idle_cycles_for_notify: self.min_idle_cycles_for_notify as nat,
            icons: self.icons@,
        }
    }
}

impl Default for Config {
    /// The built-in settings: idle below a load of 0.2, 30 s and 300 s
    /// between checks, a load change of 0.05, two idle cycles.
    fn default() -> (cfg: Config)
        ensures
            cfg@ == default_config(),
            cfg@.wf(),
    {
        Config {
            idle_load_threshold: 200_000,
            min_interval: 30,
            max_interval: 300,
            load_change_threshold: 50_000,
            min_idle_cycles_for_notify: 2,
            icons: Icons {
                active: String::from_str(icons::IDLE),
                busy: String::from_str(icons::BUSY),
                paused: String::from_str(icons::PAUSED),
            },
        }
    }
}

impl Config {
    /// Tells whether the configuration keeps its invariant.
    pub fn is_valid(&self) -> (ok: bool)
        ensures
            ok == self@.wf(),
    {
        self.min_interval <= self.max_interval
    }

    /// Settles the settings of a run from what the configuration file gave:
    /// `None` stands for a file that is absent or cannot be parsed.  Settings
    /// that break the invariant are refused like a file that cannot be
    /// parsed.
    pub fn load(parsed: Option<Config>) -> (cfg: Config)
        ensures
            cfg@ == loaded_config(
                match parsed {
                    Some(c) => Some(c@),
                    None => None,
                },
            ),
            cfg@.wf(),
    {
        match parsed {
            Some(c) => {
                if c.is_valid() {
                    c
                } else {
                    Config::default()
                }
            },
            None => Config::default(),
        }
    }
}

} // verus!
