use keep_awake::config::{Config, Mode};
use keep_awake::controller::{Activity, Controller, Effect, MenuCommand};
use keep_awake::lang::Lang;
use keep_awake::tray::{menu_model, mode_switch_label};

fn cfg(enabled: bool, mode: Mode) -> Config {
    Config { enabled, mode, interval_secs: 45, autostart: false }
}

#[test]
fn start_disabled_does_nothing() {
    let (c, fx) = Controller::startup(Config::default());
    assert!(fx.is_empty());
    assert_eq!(c.activity, Activity::Idle);
}

#[test]
fn start_enabled_starts_mechanism_of_mode() {
    let (c, fx) = Controller::startup(cfg(true, Mode::Api));
    assert_eq!(fx, vec![Effect::AcquireInhibit]);
    assert_eq!(c.activity, Activity::Inhibiting);
    let (c, fx) = Controller::startup(cfg(true, Mode::Mouse));
    assert_eq!(fx, vec![Effect::StartJiggler(45)]);
    assert_eq!(c.activity, Activity::Jiggling);
}

#[test]
fn toggle_on_and_off() {
    let (mut c, _) = Controller::startup(cfg(false, Mode::Api));
    let on = c.handle(MenuCommand::Toggle);
    let saved = cfg(true, Mode::Api);
    assert_eq!(
        on,
        vec![Effect::SaveConfig(saved), Effect::SetRunning(true), Effect::AcquireInhibit, Effect::ShowToggle(true)]
    );
    assert_eq!(c.activity, Activity::Inhibiting);
    let off = c.handle(MenuCommand::Toggle);
    assert_eq!(
        off,
        vec![
            Effect::SaveConfig(cfg(false, Mode::Api)),
            Effect::SetRunning(false),
            Effect::ReleaseInhibit,
            Effect::StopJiggler,
            Effect::ShowToggle(false)
        ]
    );
    assert_eq!(c.activity, Activity::Idle);
}

#[test]
fn switch_mode_while_running_restarts() {
    let (mut c, _) = Controller::startup(cfg(true, Mode::Api));
    let fx = c.handle(MenuCommand::SwitchMode);
    assert_eq!(
        fx,
        vec![
            Effect::SaveConfig(cfg(true, Mode::Mouse)),
            Effect::SetMouseMode(true),
            Effect::ShowModeLabel(Mode::Mouse),
            Effect::ReleaseInhibit,
            Effect::StopJiggler,
            Effect::StartJiggler(45)
        ]
    );
    assert_eq!(c.activity, Activity::Jiggling);
}

#[test]
fn switch_mode_while_stopped_starts_nothing() {
    let (mut c, _) = Controller::startup(cfg(false, Mode::Mouse));
    let fx = c.handle(MenuCommand::SwitchMode);
    assert_eq!(
        fx,
        vec![Effect::SaveConfig(cfg(false, Mode::Api)), Effect::SetMouseMode(false), Effect::ShowModeLabel(Mode::Api)]
    );
    assert_eq!(c.activity, Activity::Idle);
}

#[test]
fn autostart_toggle() {
    let (mut c, _) = Controller::startup(Config::default());
    let fx = c.handle(MenuCommand::ToggleAutostart);
    let saved = Config { autostart: true, ..Config::default() };
    assert_eq!(fx, vec![Effect::SaveConfig(saved), Effect::ShowAutostart(true), Effect::ApplyAutostart(true)]);
    assert_eq!(c.config, saved);
}

#[test]
fn quit_releases_and_ignores_later_commands() {
    let (mut c, _) = Controller::startup(cfg(true, Mode::Mouse));
    let fx = c.handle(MenuCommand::Quit);
    assert_eq!(fx, vec![Effect::ReleaseInhibit, Effect::StopJiggler, Effect::Exit]);
    assert_eq!(c.config, cfg(true, Mode::Mouse));
    assert_eq!(c.activity, Activity::Idle);
    assert!(c.exited);
    let before = c;
    assert!(c.handle(MenuCommand::Toggle).is_empty());
    assert_eq!(c, before);
}

#[test]
fn double_toggle_restores_state() {
    for start in [cfg(true, Mode::Api), cfg(false, Mode::Mouse)] {
        let (mut c, _) = Controller::startup(start);
        let before = c;
        c.handle(MenuCommand::Toggle);
        c.handle(MenuCommand::Toggle);
        assert_eq!(c, before);
    }
}

#[test]
fn double_mode_switch_restores_state() {
    for start in [cfg(true, Mode::Api), cfg(false, Mode::Mouse)] {
        let (mut c, _) = Controller::startup(start);
        let before = c;
        c.handle(MenuCommand::SwitchMode);
        c.handle(MenuCommand::SwitchMode);
        assert_eq!(c, before);
    }
}

#[test]
fn double_autostart_restores_state() {
    let (mut c, _) = Controller::startup(cfg(true, Mode::Api));
    let before = c;
    c.handle(MenuCommand::ToggleAutostart);
    c.handle(MenuCommand::ToggleAutostart);
    assert_eq!(c, before);
}

#[test]
fn activity_follows_settings_through_a_session() {
    let (mut c, _) = Controller::startup(Config::default());
    let cmds = [
        MenuCommand::Toggle,
        MenuCommand::SwitchMode,
        MenuCommand::ToggleAutostart,
        MenuCommand::SwitchMode,
        MenuCommand::Toggle,
        MenuCommand::SwitchMode,
        MenuCommand::Toggle,
    ];
    for cmd in cmds {
        let fx = c.handle(cmd);
        assert_eq!(fx[0], Effect::SaveConfig(c.config));
        let expected = match (c.config.enabled, c.config.mode) {
            (false, _) => Activity::Idle,
            (true, Mode::Api) => Activity::Inhibiting,
            (true, Mode::Mouse) => Activity::Jiggling,
        };
        assert_eq!(c.activity, expected);
        for e in &fx {
            match e {
                Effect::AcquireInhibit => assert!(c.config.enabled && c.config.mode == Mode::Api),
                Effect::StartJiggler(_) => assert!(c.config.enabled && c.config.mode == Mode::Mouse),
                Effect::ShowToggle(b) => assert_eq!(*b, menu_model(&c.config, Lang::En).toggle_checked),
                Effect::ShowModeLabel(m) => {
                    assert_eq!(mode_switch_label(*m, Lang::Zh), menu_model(&c.config, Lang::Zh).mode_label)
                }
                Effect::ShowAutostart(b) => assert_eq!(*b, menu_model(&c.config, Lang::En).autostart_checked),
                _ => {}
            }
        }
    }
}

/// Carries out effects on a record of what runs.
fn run(m: &mut (bool, bool, bool), effects: &[Effect]) {
    for e in effects {
        match e {
            Effect::AcquireInhibit => m.0 = true,
            Effect::StartJiggler(_) => m.1 = true,
            Effect::ReleaseInhibit => m.0 = false,
            Effect::StopJiggler => m.1 = false,
            Effect::SetRunning(b) => m.2 = *b,
            _ => {}
        }
    }
}

#[test]
fn effects_keep_running_mechanisms_in_line() {
    let start = cfg(true, Mode::Mouse);
    let (mut c, fx) = Controller::startup(start);
    let mut m = (false, false, start.enabled);
    run(&mut m, &fx);
    let cmds = [
        MenuCommand::SwitchMode,
        MenuCommand::Toggle,
        MenuCommand::SwitchMode,
        MenuCommand::Toggle,
        MenuCommand::ToggleAutostart,
        MenuCommand::SwitchMode,
        MenuCommand::Quit,
        MenuCommand::Toggle,
    ];
    for cmd in cmds {
        let fx = c.handle(cmd);
        run(&mut m, &fx);
        assert_eq!(m.0, c.activity == Activity::Inhibiting);
        assert_eq!(m.1, c.activity == Activity::Jiggling);
        assert!(!(m.0 && m.1));
        if !c.exited {
            assert_eq!(m.2, c.config.enabled);
        }
    }
    assert_eq!(m, (false, false, true));
}
