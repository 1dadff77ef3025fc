//! The controller: turns tray menu commands into new settings and the side
//! effects that the program carries out (saving, acquiring or releasing the
//! sleep inhibition, starting or stopping the mouse nudges, updating the
//! tray, registering autostart, exiting).

use vstd::prelude::*;
use crate::config::{Config, Mode, other_mode};

verus! {

/// The keep-awake mechanism the controller has asked for.
#[derive(Debug, Clone, Copy, PartialEq, Eq, Structural)]
pub enum Activity {
    /// Nothing runs.
    Idle,
    /// The operating system's sleep inhibition was requested.
    Inhibiting,
    /// The mouse nudge loop was started.
    Jiggling,
}

/// A command from the tray menu.
#[derive(Debug, Clone, Copy, PartialEq, Eq, Structural)]
pub enum MenuCommand {
    /// Switch keeping awake on or off.
    Toggle,
    /// Switch between API and mouse mode.
    SwitchMode,
    /// Switch starting at login on or off.
    ToggleAutostart,
    /// End the program.
    Quit,
}

/// A side effect for the program to carry out, in order.
#[derive(Debug, Clone, Copy, PartialEq, Eq, Structural)]
pub enum Effect {
    /// Write these settings to the settings file (failures ignored).
    SaveConfig(Config),
    /// Set the shared "keeping awake" flag the nudge loop watches.
    SetRunning(bool),
    /// Set the shared "mouse mode" flag.
    SetMouseMode(bool),
    /// Ask the operating system to inhibit idle sleep, keeping the guard.
    AcquireInhibit,
    /// Start the nudge loop with this interval in seconds.
    StartJiggler(u64),
    /// Drop the sleep inhibition, if one is held.
    ReleaseInhibit,
    /// Stop the nudge loop, if one runs, and wait for it.
    StopJiggler,
    /// Show the toggle item checked or not, with the matching icon and
    /// tooltip.
    ShowToggle(bool),
    /// Show the mode item's label for this mode.
    ShowModeLabel(Mode),
    /// Show the autostart item checked or not.
    ShowAutostart(bool),
    /// Register (true) or unregister (false) the program for autostart.
    ApplyAutostart(bool),
    /// Leave the event loop.
    Exit,
}

/// The controller's state.
#[derive(Debug, Clone, Copy, PartialEq, Eq, Structural)]
pub struct Controller {
    /// The settings in force.
    pub config: Config,
    /// The mechanism asked for.
    pub activity: Activity,
    /// Whether Quit was handled; later commands are ignored.
    pub exited: bool,
}

/// The mechanism a configuration calls for.
pub open spec fn desired(c: Config) -> Activity {
    if !c.enabled {
        Activity::Idle
    } else {
        match c.mode {
            Mode::Api => Activity::Inhibiting,
            Mode::Mouse => Activity::Jiggling,
        }
    }
}

/// The controller is consistent: while running, the mechanism asked for is
/// the one the settings call for; once exited, nothing runs.
pub open spec fn consistent(s: Controller) -> bool {
    if s.exited {
        s.activity == Activity::Idle
    } else {
        s.activity == desired(s.config)
    }
}

/// The effects that start the mechanism of the configuration's mode.
pub open spec fn activation(c: Config) -> Seq<Effect> {
    match c.mode {
        Mode::Api => seq![Effect::AcquireInhibit],
        Mode::Mouse => seq![Effect::StartJiggler(c.interval_secs)],
    }
}

/// The controller right after start-up with settings `c`.
pub open spec fn started(c: Config) -> Controller {
    Controller { config: c, activity: desired(c), exited: false }
}

/// The effects of start-up: the mechanism starts when the settings say
/// keeping awake is on.
pub open spec fn start_effects(c: Config) -> Seq<Effect> {
    if c.enabled {
        activation(c)
    } else {
        seq![]
    }
}

/// The settings after a command.
pub open spec fn next_config(c: Config, cmd: MenuCommand) -> Config {
    match cmd {
        MenuCommand::Toggle => Config { enabled: !c.enabled, ..c },
        MenuCommand::SwitchMode => Config { mode: other_mode(c.mode), ..c },
        MenuCommand::ToggleAutostart => Config { autostart: !c.autostart, ..c },
        MenuCommand::Quit => c,
    }
}

/// The controller after a command.
pub open spec fn next(s: Controller, cmd: MenuCommand) -> Controller {
    if s.exited {
        s
    } else {
        let c2 = next_config(s.config, cmd);
        match cmd {
            MenuCommand::Toggle => Controller { config: c2, activity: desired(c2), exited: false },
            MenuCommand::SwitchMode => Controller {
                config: c2,
                activity: if s.config.enabled {
                    desired(c2)
                } else {
                    s.activity
                },
                exited: false,
            },
            MenuCommand::ToggleAutostart => Controller { config: c2, ..s },
            MenuCommand::Quit => Controller { config: c2, activity: Activity::Idle, exited: true },
        }
    }
}

/// The effects of a command, in order.
pub open spec fn effects(s: Controller, cmd: MenuCommand) -> Seq<Effect> {
    if s.exited {
        seq![]
    } else {
        let c2 = next_config(s.config, cmd);
        match cmd {
            MenuCommand::Toggle => seq![Effect::SaveConfig(c2), Effect::SetRunning(c2.enabled)] + (
            if c2.enabled {
                activation(c2)
            } else {
                seq![Effect::ReleaseInhibit, Effect::StopJiggler]
            }) + seq![Effect::ShowToggle(c2.enabled)],
            MenuCommand::SwitchMode => seq![
                Effect::SaveConfig(c2),
                Effect::SetMouseMode(c2.mode == Mode::Mouse),
                Effect::ShowModeLabel(c2.mode),
            ] + (if c2.enabled {
                seq![Effect::ReleaseInhibit, Effect::StopJiggler] + activation(c2)
            } else {
                seq![]
            }),
            MenuCommand::ToggleAutostart => seq![
                Effect::SaveConfig(c2),
                Effect::ShowAutostart(c2.autostart),
                Effect::ApplyAutostart(c2.autostart),
            ],
            MenuCommand::Quit => seq![Effect::ReleaseInhibit, Effect::StopJiggler, Effect::Exit],
        }
    }
}

/// Which mechanisms are running, and the shared "keeping awake" flag, as
/// the program's effects leave them.
pub struct Mechanisms {
    /// A sleep inhibition was acquired and not released.
    pub inhibiting: bool,
    /// A nudge loop was started and not stopped.
    pub jiggling: bool,
    /// The shared "keeping awake" flag.
    pub running: bool,
}

/// What carrying out one effect does to the running mechanisms.
pub open spec fn perform(m: Mechanisms, e: Effect) -> Mechanisms {
    match e {
        Effect::AcquireInhibit => Mechanisms { inhibiting: true, ..m },
        Effect::StartJiggler(_) => Mechanisms { jiggling: true, ..m },
        Effect::ReleaseInhibit => Mechanisms { inhibiting: false, ..m },
        Effect::StopJiggler => Mechanisms { jiggling: false, ..m },
        Effect::SetRunning(b) => Mechanisms { running: b, ..m },
        _ => m,
    }
}

/// What carrying out effects in order does to the running mechanisms.
pub open spec fn perform_all(m: Mechanisms, es: Seq<Effect>) -> Mechanisms
    decreases es.len(),
{
    if es.len() == 0 {
        m
    } else {
        perform(perform_all(m, es.drop_last()), es.last())
    }
}

/// The running mechanisms are those the controller asked for, and while
/// it runs the shared flag tells whether keeping awake is on.
pub open spec fn in_line(m: Mechanisms, s: Controller) -> bool {
    &&& m.inhibiting == (s.activity == Activity::Inhibiting)
    &&& m.jiggling == (s.activity == Activity::Jiggling)
    &&& !s.exited ==> m.running == s.config.enabled
}

fn push_activation(v: &mut Vec<Effect>, c: &Config)
    ensures
        final(v)@ == old(v)@ + activation(*c),
{
    match c.mode {
        Mode::Api => v.push(Effect::AcquireInhibit),
        Mode::Mouse => v.push(Effect::StartJiggler(c.interval_secs)),
    }
}

impl Controller {
    /// Starts the controller with the loaded settings `config`, returning
    /// it with the effects to carry out first.
    pub fn startup(config: Config) -> (r: (Controller, Vec<Effect>))
        ensures
            r.0 == started(config),
            r.1@ == start_effects(config),
    {
        let mut v: Vec<Effect> = Vec::new();
        if config.enabled {
            push_activation(&mut v, &config);
        }
        let activity = if !config.enabled {
            Activity::Idle
        } else {
            match config.mode {
                Mode::Api => Activity::Inhibiting,
                Mode::Mouse => Activity::Jiggling,
            }
        };
        (Controller { config, activity, exited: false }, v)
    }

    /// Handles one menu command: updates the controller and returns the
    /// effects to carry out, in order.
    pub fn handle(&mut self, cmd: MenuCommand) -> (v: Vec<Effect>)
        ensures
            *final(self) == next(*old(self), cmd),
            v@ == effects(*old(self), cmd),
    {
        let mut v: Vec<Effect> = Vec::new();
        if self.exited {
            return v;
        }
        match cmd {
            MenuCommand::Toggle => {
                let new = !self.config.enabled;
                self.config.enabled = new;
                v.push(Effect::SaveConfig(self.config));
                v.push(Effect::SetRunning(new));
                if new {
                    push_activation(&mut v, &self.config);
                    self.activity = match self.config.mode {
                        Mode::Api => Activity::Inhibiting,
                        Mode::Mouse => Activity::Jiggling,
                    };
                } else {
                    v.push(Effect::ReleaseInhibit);
                    v.push(Effect::StopJiggler);
                    self.activity = Activity::Idle;
                }
                v.push(Effect::ShowToggle(new));
            },
            MenuCommand::SwitchMode => {
                self.config.mode = self.config.mode.switched();
                v.push(Effect::SaveConfig(self.config));
                v.push(Effect::SetMouseMode(self.config.mode == Mode::Mouse));
                v.push(Effect::ShowModeLabel(self.config.mode));
                if self.config.enabled {
                    v.push(Effect::ReleaseInhibit);
                    v.push(Effect::StopJiggler);
                    push_activation(&mut v, &self.config);
                    self.activity = match self.config.mode {
                        Mode::Api => Activity::Inhibiting,
                        Mode::Mouse => Activity::Jiggling,
                    };
                }
            },
            MenuCommand::ToggleAutostart => {
                self.config.autostart = !self.config.autostart;
                v.push(Effect::SaveConfig(self.config));
                v.push(Effect::ShowAutostart(self.config.autostart));
                v.push(Effect::ApplyAutostart(self.config.autostart));
            },
            MenuCommand::Quit => {
                v.push(Effect::ReleaseInhibit);
                v.push(Effect::StopJiggler);
                v.push(Effect::Exit);
                self.activity = Activity::Idle;
                self.exited = true;
            },
        }
        v
    }
}

} // verus!
