//! Properties of the library as a whole, stated over the specifications
//! that the functions' contracts use.

use vstd::prelude::*;
use crate::config::{Config, Mode, default_config, loaded, other_mode};
use crate::controller::{
    Activity, Controller, Effect, Mechanisms, MenuCommand, consistent, effects, in_line, next,
    perform, perform_all, start_effects, started,
};
use crate::inhibit::{ES_CONTINUOUS, InhibitToken, Release, partial_undo, releases_of};
use crate::autostart::{Platform, StepView, enable_plan};
use crate::lang::Lang;
use crate::mouse::{JigglerAction, JigglerPhase, jiggler_after, jiggler_next};
use crate::tray::{menu_model_spec, mode_switch_text, tr};

verus! {

/// Right after start-up, the mechanism asked for is the one the settings
/// call for, and it is started exactly when keeping awake is on.
pub proof fn start_is_consistent(c: Config)
    ensures
        consistent(started(c)),
        start_effects(c).len() > 0 <==> c.enabled,
{
}

/// Every command keeps the controller consistent: the mechanism asked for
/// always follows the settings, and nothing runs after Quit.
pub proof fn command_keeps_consistency(s: Controller, cmd: MenuCommand)
    requires
        consistent(s),
    ensures
        consistent(next(s, cmd)),
{
}

/// Toggling twice gives back the controller one started from.
pub proof fn toggle_twice_restores(s: Controller)
    requires
        consistent(s),
    ensures
        next(next(s, MenuCommand::Toggle), MenuCommand::Toggle) == s,
{
}

/// Switching the mode twice gives back the controller one started from.
pub proof fn switch_mode_twice_restores(s: Controller)
    requires
        consistent(s),
    ensures
        next(next(s, MenuCommand::SwitchMode), MenuCommand::SwitchMode) == s,
{
}

/// Toggling autostart twice gives back the controller one started from.
pub proof fn autostart_twice_restores(s: Controller)
    ensures
        next(next(s, MenuCommand::ToggleAutostart), MenuCommand::ToggleAutostart) == s,
{
}

/// Every settings change is saved at once: the first effect of any command
/// but Quit writes out the new settings, which differ from the old ones.
pub proof fn changes_are_saved(s: Controller, cmd: MenuCommand)
    requires
        !s.exited,
        cmd != MenuCommand::Quit,
    ensures
        effects(s, cmd).len() > 0,
        effects(s, cmd)[0] == Effect::SaveConfig(next(s, cmd).config),
        next(s, cmd).config != s.config,
{
}

/// Quit keeps the settings, releases the inhibition, stops the nudges and
/// exits, in that order; after it, commands change nothing.
pub proof fn quit_releases_everything(s: Controller, cmd: MenuCommand)
    requires
        !s.exited,
    ensures
        next(s, MenuCommand::Quit).config == s.config,
        next(s, MenuCommand::Quit).activity == Activity::Idle,
        effects(s, MenuCommand::Quit) == seq![Effect::ReleaseInhibit, Effect::StopJiggler, Effect::Exit],
        next(next(s, MenuCommand::Quit), cmd) == next(s, MenuCommand::Quit),
        effects(next(s, MenuCommand::Quit), cmd).len() == 0,
{
}

/// A mechanism is started only when the new settings have keeping awake
/// on, and then it is the one of their mode.
pub proof fn starts_only_when_enabled(s: Controller, cmd: MenuCommand, i: int)
    requires
        0 <= i < effects(s, cmd).len(),
    ensures
        effects(s, cmd)[i] == Effect::AcquireInhibit ==> next(s, cmd).config.enabled
            && next(s, cmd).config.mode == Mode::Api,
        effects(s, cmd)[i] is StartJiggler ==> next(s, cmd).config.enabled && next(
            s,
            cmd,
        ).config.mode == Mode::Mouse && effects(s, cmd)[i] == Effect::StartJiggler(
            next(s, cmd).config.interval_secs,
        ),
{
}

/// What a command shows in the tray agrees with the menu built from the
/// new settings.
pub proof fn shown_state_matches_menu(s: Controller, cmd: MenuCommand, lang: Lang, i: int)
    requires
        0 <= i < effects(s, cmd).len(),
    ensures
        effects(s, cmd)[i] matches Effect::ShowToggle(b) ==> b == menu_model_spec(
            next(s, cmd).config,
            lang,
        ).toggle_checked,
        effects(s, cmd)[i] matches Effect::ShowModeLabel(m) ==> mode_switch_text(m, lang)
            == menu_model_spec(next(s, cmd).config, lang).mode_label,
        effects(s, cmd)[i] matches Effect::ShowAutostart(b) ==> b == menu_model_spec(
            next(s, cmd).config,
            lang,
        ).autostart_checked,
{
}

/// A fresh installation does not keep the machine awake: the defaults
/// are off, in API mode, and starting with them starts nothing.
pub proof fn fresh_start_is_idle()
    ensures
        !default_config().enabled,
        default_config().mode == Mode::Api,
        started(loaded(false, None).0).activity == Activity::Idle,
        start_effects(loaded(false, None).0).len() == 0,
        loaded(false, None).1,
{
}

/// The mode item always offers the other mode.
pub proof fn mode_item_offers_other_mode(m: Mode, lang: Lang)
    ensures
        mode_switch_text(m, lang) == match other_mode(m) {
            Mode::Mouse => tr(lang, "Switch to Mouse Jiggle", "切换到鼠标微动"),
            Mode::Api => tr(lang, "Switch to API Inhibit", "切换到API抑制"),
        },
        other_mode(other_mode(m)) == m,
{
}

/// Releasing a guard undoes exactly what acquiring it did: the same
/// assertion, the same cookie and the same sleep lock; on the desktop both
/// inhibitions are released together.
pub proof fn release_matches_acquire(id: u32, cookie: u32, sleep_lock: i32)
    ensures
        releases_of(InhibitToken::Assertion(id)) == seq![Release::ReleaseAssertion(id)],
        releases_of(InhibitToken::Desktop { cookie, sleep_lock }) == seq![
            Release::UnInhibit(cookie),
            Release::CloseSleepLock(sleep_lock),
        ],
        releases_of(InhibitToken::ExecutionState) == seq![Release::SetExecutionState(ES_CONTINUOUS)],
        partial_undo(Some(cookie), None) == seq![Release::UnInhibit(cookie)],
        partial_undo(None, Some(sleep_lock)) == seq![Release::CloseSleepLock(sleep_lock)],
{
    assert(partial_undo(Some(cookie), None) =~= seq![Release::UnInhibit(cookie)]);
    assert(partial_undo(None, Some(sleep_lock)) =~= seq![Release::CloseSleepLock(sleep_lock)]);
}

/// The nudge loop nudges only while keeping awake is on and no stop was
/// asked for; once it has found otherwise it has ended, and it never
/// nudges again whatever the flags become.
pub proof fn jiggler_never_resumes(phase: JigglerPhase, running: bool, stop: bool, later_running: bool, later_stop: bool)
    ensures
        jiggler_next(phase, running, stop) == JigglerAction::Nudge ==> running && !stop,
        phase == JigglerPhase::Woken && (!running || stop) ==> jiggler_after(
            jiggler_next(phase, running, stop),
        ) == JigglerPhase::Done,
        jiggler_next(JigglerPhase::Done, later_running, later_stop) == JigglerAction::Finish,
        jiggler_after(jiggler_next(JigglerPhase::Done, later_running, later_stop)) == JigglerPhase::Done,
{
}

/// Registering for autostart with a file first creates the file's folder,
/// under the same base directory, and then writes the file into it.
pub proof fn entry_folder_created_first(p: Platform, exe: Seq<char>)
    requires
        p != Platform::Windows,
    ensures
        enable_plan(p, exe).len() == 2,
        enable_plan(p, exe)[0] is CreateDir,
        enable_plan(p, exe)[1] is WriteFile,
        ({
            let (b1, dir) = match enable_plan(p, exe)[0] {
                StepView::CreateDir(b, d) => (b, d),
                _ => arbitrary(),
            };
            let (b2, file) = match enable_plan(p, exe)[1] {
                StepView::WriteFile(b, f, _) => (b, f),
                _ => arbitrary(),
            };
            &&& b1 == b2
            &&& dir.len() < file.len()
            &&& file.subrange(0, dir.len() as int) == dir
            &&& file[dir.len() as int] == '/'
        }),
{
    reveal_strlit("Library/LaunchAgents");
    reveal_strlit("Library/LaunchAgents/com.keep-awake.plist");
    reveal_strlit("autostart");
    reveal_strlit("autostart/keep-awake.desktop");
    match p {
        Platform::MacOs => {
            assert("Library/LaunchAgents/com.keep-awake.plist"@.subrange(0, 20) =~= "Library/LaunchAgents"@);
        },
        Platform::Linux => {
            assert("autostart/keep-awake.desktop"@.subrange(0, 9) =~= "autostart"@);
        },
        Platform::Windows => {},
    }
}

/// Carrying out effects one after the other is carrying out the first
/// part, then the rest.
pub proof fn perform_all_append(m: Mechanisms, a: Seq<Effect>, b: Seq<Effect>)
    ensures
        perform_all(m, a + b) == perform_all(perform_all(m, a), b),
    decreases b.len(),
{
    if b.len() == 0 {
        assert(a + b =~= a);
    } else {
        perform_all_append(m, a, b.drop_last());
        assert((a + b).drop_last() =~= a + b.drop_last());
        assert((a + b).last() == b.last());
    }
}

proof fn perform_one(m: Mechanisms, e: Effect)
    ensures
        perform_all(m, seq![e]) == perform(m, e),
{
    assert(seq![e].drop_last() =~= Seq::<Effect>::empty());
    assert(perform_all(m, Seq::<Effect>::empty()) == m);
    assert(seq![e].last() == e);
}

proof fn perform_two(m: Mechanisms, e1: Effect, e2: Effect)
    ensures
        perform_all(m, seq![e1, e2]) == perform(perform(m, e1), e2),
{
    assert(seq![e1, e2] =~= seq![e1] + seq![e2]);
    perform_all_append(m, seq![e1], seq![e2]);
    perform_one(m, e1);
    perform_one(perform(m, e1), e2);
}

proof fn perform_three(m: Mechanisms, e1: Effect, e2: Effect, e3: Effect)
    ensures
        perform_all(m, seq![e1, e2, e3]) == perform(perform(perform(m, e1), e2), e3),
{
    assert(seq![e1, e2, e3] =~= seq![e1, e2] + seq![e3]);
    perform_all_append(m, seq![e1, e2], seq![e3]);
    perform_two(m, e1, e2);
    perform_one(perform(perform(m, e1), e2), e3);
}

/// Starting up brings the running mechanisms in line with the settings,
/// the shared flag having been set from them.
pub proof fn start_brings_mechanisms_in_line(c: Config)
    ensures
        in_line(
            perform_all(Mechanisms { inhibiting: false, jiggling: false, running: c.enabled }, start_effects(c)),
            started(c),
        ),
{
    let m = Mechanisms { inhibiting: false, jiggling: false, running: c.enabled };
    if c.enabled {
        match c.mode {
            Mode::Api => perform_one(m, Effect::AcquireInhibit),
            Mode::Mouse => perform_one(m, Effect::StartJiggler(c.interval_secs)),
        }
    } else {
        assert(start_effects(c) =~= Seq::<Effect>::empty());
    }
}

/// Carrying out a command's effects keeps the running mechanisms in line
/// with what the controller asked for: at most one runs, it is the one of
/// the mode while keeping awake is on, and none runs otherwise or after
/// Quit.
pub proof fn effects_keep_mechanisms_in_line(s: Controller, cmd: MenuCommand, m: Mechanisms)
    requires
        consistent(s),
        in_line(m, s),
    ensures
        in_line(perform_all(m, effects(s, cmd)), next(s, cmd)),
{
    if s.exited {
        assert(effects(s, cmd) =~= Seq::<Effect>::empty());
        return;
    }
    let c2 = crate::controller::next_config(s.config, cmd);
    match cmd {
        MenuCommand::Toggle => {
            let head = seq![Effect::SaveConfig(c2), Effect::SetRunning(c2.enabled)];
            let tail = seq![Effect::ShowToggle(c2.enabled)];
            perform_two(m, Effect::SaveConfig(c2), Effect::SetRunning(c2.enabled));
            let m1 = perform_all(m, head);
            if c2.enabled {
                let mid = crate::controller::activation(c2);
                assert(effects(s, cmd) =~= head + mid + tail);
                perform_all_append(m, head + mid, tail);
                perform_all_append(m, head, mid);
                match c2.mode {
                    Mode::Api => perform_one(m1, Effect::AcquireInhibit),
                    Mode::Mouse => perform_one(m1, Effect::StartJiggler(c2.interval_secs)),
                }
                perform_one(perform_all(m1, mid), Effect::ShowToggle(c2.enabled));
            } else {
                let mid = seq![Effect::ReleaseInhibit, Effect::StopJiggler];
                assert(effects(s, cmd) =~= head + mid + tail);
                perform_all_append(m, head + mid, tail);
                perform_all_append(m, head, mid);
                perform_two(m1, Effect::ReleaseInhibit, Effect::StopJiggler);
                perform_one(perform_all(m1, mid), Effect::ShowToggle(c2.enabled));
            }
        },
        MenuCommand::SwitchMode => {
            let head = seq![
                Effect::SaveConfig(c2),
                Effect::SetMouseMode(c2.mode == Mode::Mouse),
                Effect::ShowModeLabel(c2.mode),
            ];
            perform_three(
                m,
                Effect::SaveConfig(c2),
                Effect::SetMouseMode(c2.mode == Mode::Mouse),
                Effect::ShowModeLabel(c2.mode),
            );
            let m1 = perform_all(m, head);
            if c2.enabled {
                let stop = seq![Effect::ReleaseInhibit, Effect::StopJiggler];
                let act = crate::controller::activation(c2);
                assert(effects(s, cmd) =~= head + (stop + act));
                perform_all_append(m, head, stop + act);
                perform_all_append(m1, stop, act);
                perform_two(m1, Effect::ReleaseInhibit, Effect::StopJiggler);
                let m2 = perform_all(m1, stop);
                match c2.mode {
                    Mode::Api => perform_one(m2, Effect::AcquireInhibit),
                    Mode::Mouse => perform_one(m2, Effect::StartJiggler(c2.interval_secs)),
                }
            } else {
                assert(effects(s, cmd) =~= head);
            }
        },
        MenuCommand::ToggleAutostart => {
            perform_three(
                m,
                Effect::SaveConfig(c2),
                Effect::ShowAutostart(c2.autostart),
                Effect::ApplyAutostart(c2.autostart),
            );
        },
        MenuCommand::Quit => {
            perform_three(m, Effect::ReleaseInhibit, Effect::StopJiggler, Effect::Exit);
        },
    }
}

} // verus!
