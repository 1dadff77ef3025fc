//! Settings of the tool and how a stored settings file is taken up.

use vstd::prelude::*;

verus! {

/// How the machine is kept awake.
#[derive(Debug, Clone, Copy, PartialEq, Eq, Structural)]
pub enum Mode {
    /// Ask the operating system to inhibit idle sleep.
    Api,
    /// Nudge the mouse pointer now and then.
    Mouse,
}

/// The persisted settings.
#[derive(Debug, Clone, Copy, PartialEq, Eq, Structural)]
pub struct Config {
    /// Whether keeping awake is switched on.
    pub enabled: bool,
    /// Which mechanism is used while switched on.
    pub mode: Mode,
    /// Seconds between two mouse nudges (mouse mode only).
    pub interval_secs: u64,
    /// Whether the tool starts at login.
    pub autostart: bool,
}

/// The settings a fresh installation starts with: switched off, API mode,
/// a nudge every 60 seconds, no autostart.
pub open spec fn default_config() -> Config {
    Config { enabled: false, mode: Mode::Api, interval_secs: 60, autostart: false }
}

impl Default for Config {
    fn default() -> (c: Config)
        ensures
            c == default_config(),
    {
        Config { enabled: false, mode: Mode::Api, interval_secs: 60, autostart: false }
    }
}

/// The mode that a mode switch leads to.
pub open spec fn other_mode(m: Mode) -> Mode {
    match m {
        Mode::Api => Mode::Mouse,
        Mode::Mouse => Mode::Api,
    }
}

impl Mode {
    /// The human-readable name of the mode.
    pub fn label(&self) -> (s: &'static str)
        ensures
            s@ == (match *self {
                Mode::Api => "API Inhibit"@,
                Mode::Mouse => "Mouse Jiggle"@,
            }),
    {
        match self {
            Mode::Api => "API Inhibit",
            Mode::Mouse => "Mouse Jiggle",
        }
    }

    /// The other mode.
    pub fn switched(self) -> (m: Mode)
        ensures
            m == other_mode(self),
    {
        match self {
            Mode::Api => Mode::Mouse,
            Mode::Mouse => Mode::Api,
        }
    }
}

/// What loading yields: the settings in use, and whether they must be
/// written out now.
pub open spec fn loaded(file_exists: bool, parsed: Option<Config>) -> (Config, bool) {
    if file_exists {
        match parsed {
            Some(c) => (c, false),
            None => (default_config(), false),
        }
    } else {
        (default_config(), true)
    }
}

impl Config {
    /// Takes up the result of reading the settings file.
    ///
    /// `file_exists` tells whether the file was there; `parsed` holds its
    /// contents when they could be read and decoded. An existing file gives
    /// its contents, or the defaults when it is unreadable, and nothing is
    /// written. A missing file gives the defaults, which are then written
    /// (the second component is `true`).
    pub fn resolve_load(file_exists: bool, parsed: Option<Config>) -> (r: (Config, bool))
        ensures
            r == loaded(file_exists, parsed),
    {
        if file_exists {
            match parsed {
                Some(c) => (c, false),
                None => (Config::default(), false),
            }
        } else {
            (Config::default(), true)
        }
    }
}

/// The directory that holds the settings folder: the user's configuration
/// directory, else the data directory, else `fallback` (the working
/// directory).
pub open spec fn chosen_base<T>(config_dir: Option<T>, data_dir: Option<T>, fallback: T) -> T {
    match config_dir {
        Some(d) => d,
        None => match data_dir {
            Some(d) => d,
            None => fallback,
        },
    }
}

/// Picks the directory under which `keep-awake/config.json` is kept.
pub fn config_base<T>(config_dir: Option<T>, data_dir: Option<T>, fallback: T) -> (d: T)
    ensures
        d == chosen_base(config_dir, data_dir, fallback),
{
    match config_dir {
        Some(d) => d,
        None => match data_dir {
            Some(d) => d,
            None => fallback,
        },
    }
}

} // verus!
