//! What each operation does, stated directly over its inputs and results:
//! the settings it produces, the effects in order, the texts and colours
//! shown, the language chosen, the nudge loop's steps and the autostart
//! steps.

use vstd::prelude::*;
use vstd::arithmetic::div_mod::lemma_fundamental_div_mod_converse;
use crate::autostart::{
    BaseDir, Platform, StepView, apply_plan, disable_plan, enable_plan, registry_add_args,
    registry_delete_args,
};
use crate::icon::{rgba_byte, ico_pixel_roundtrip, abs, ico_byte, rim_alpha_from, below_rim, sun_pixel, on_ray, ray_perp, ray_proj, off2};
use crate::symmetry::{lemma_first_ray_found, lemma_first_ray_none};
use crate::inhibit::partial_undo;
use crate::notify::{field_unit, utf16_of, utf16_units};
use crate::config::{Config, Mode, chosen_base, default_config, loaded, other_mode};
use crate::controller::{Activity, Controller, Effect, MenuCommand, effects, next, start_effects, started};
use crate::lang::{Lang, detected, is_chinese_locale};
use crate::mouse::{JigglerAction, JigglerPhase, jiggler_after, jiggler_next};
use crate::tray::{MenuEntry, menu_layout_spec, menu_model_spec, mode_switch_text, status_color_spec, tooltip_text};

verus! {

// ------------------------------------------------------------ settings ----

/// The defaults: switched off, API mode, a nudge every 60 seconds, no
/// autostart.
pub proof fn defaults_are()
    ensures
        default_config() == (Config { enabled: false, mode: Mode::Api, interval_secs: 60, autostart: false }),
{
}

/// Loading: an existing, readable file gives its settings and writes
/// nothing; an existing unreadable one gives the defaults and writes
/// nothing; a missing file gives the defaults and writes them.
pub proof fn loading_behaviour(file_exists: bool, parsed: Option<Config>)
    ensures
        file_exists && parsed is Some ==> loaded(file_exists, parsed) == (parsed->0, false),
        file_exists && parsed is None ==> loaded(file_exists, parsed) == (
            Config { enabled: false, mode: Mode::Api, interval_secs: 60, autostart: false },
            false,
        ),
        !file_exists ==> loaded(file_exists, parsed) == (
            Config { enabled: false, mode: Mode::Api, interval_secs: 60, autostart: false },
            true,
        ),
{
}

/// The settings folder lies under the configuration directory when there
/// is one, else under the data directory, else under the fallback.
pub proof fn config_base_behaviour<T>(config_dir: Option<T>, data_dir: Option<T>, fallback: T)
    ensures
        config_dir is Some ==> chosen_base(config_dir, data_dir, fallback) == config_dir->0,
        config_dir is None && data_dir is Some ==> chosen_base(config_dir, data_dir, fallback)
            == data_dir->0,
        config_dir is None && data_dir is None ==> chosen_base(config_dir, data_dir, fallback)
            == fallback,
{
}

/// Switching the mode always changes it, to the one other mode.
pub proof fn mode_switch_behaviour(m: Mode)
    ensures
        other_mode(m) != m,
        other_mode(Mode::Api) == Mode::Mouse,
        other_mode(Mode::Mouse) == Mode::Api,
{
}

// ---------------------------------------------------------- controller ----

/// Start-up keeps the settings and starts the mechanism of the mode only
/// when keeping awake is on.
pub proof fn startup_behaviour(c: Config)
    ensures
        started(c) == (Controller {
            config: c,
            activity: if !c.enabled {
                Activity::Idle
            } else if c.mode == Mode::Api {
                Activity::Inhibiting
            } else {
                Activity::Jiggling
            },
            exited: false,
        }),
        start_effects(c) == (if !c.enabled {
            Seq::<Effect>::empty()
        } else if c.mode == Mode::Api {
            seq![Effect::AcquireInhibit]
        } else {
            seq![Effect::StartJiggler(c.interval_secs)]
        }),
{
}

/// Toggle flips keeping awake and nothing else, saves, sets the shared
/// flag to the new state, starts the mechanism of the mode when switched
/// on or releases and stops everything when switched off, then shows the
/// new state.
pub proof fn toggle_behaviour(s: Controller)
    requires
        !s.exited,
    ensures
        ({
            let on = !s.config.enabled;
            let c2 = Config {
                enabled: on,
                mode: s.config.mode,
                interval_secs: s.config.interval_secs,
                autostart: s.config.autostart,
            };
            &&& next(s, MenuCommand::Toggle) == Controller {
                config: c2,
                activity: if !on {
                    Activity::Idle
                } else if s.config.mode == Mode::Api {
                    Activity::Inhibiting
                } else {
                    Activity::Jiggling
                },
                exited: false,
            }
            &&& effects(s, MenuCommand::Toggle) == seq![Effect::SaveConfig(c2), Effect::SetRunning(on)]
                + (if !on {
                seq![Effect::ReleaseInhibit, Effect::StopJiggler]
            } else if s.config.mode == Mode::Api {
                seq![Effect::AcquireInhibit]
            } else {
                seq![Effect::StartJiggler(s.config.interval_secs)]
            }) + seq![Effect::ShowToggle(on)]
        }),
{
}

/// Switching the mode changes the mode and nothing else, saves, sets the
/// mouse-mode flag, shows the new label, and while keeping awake is on
/// stops the old mechanism and starts the new one; while off it starts
/// nothing.
pub proof fn switch_mode_behaviour(s: Controller)
    requires
        !s.exited,
    ensures
        ({
            let m2 = if s.config.mode == Mode::Api {
                Mode::Mouse
            } else {
                Mode::Api
            };
            let c2 = Config {
                enabled: s.config.enabled,
                mode: m2,
                interval_secs: s.config.interval_secs,
                autostart: s.config.autostart,
            };
            &&& next(s, MenuCommand::SwitchMode) == Controller {
                config: c2,
                activity: if !s.config.enabled {
                    s.activity
                } else if m2 == Mode::Api {
                    Activity::Inhibiting
                } else {
                    Activity::Jiggling
                },
                exited: false,
            }
            &&& effects(s, MenuCommand::SwitchMode) == seq![
                Effect::SaveConfig(c2),
                Effect::SetMouseMode(m2 == Mode::Mouse),
                Effect::ShowModeLabel(m2),
            ] + (if !s.config.enabled {
                Seq::<Effect>::empty()
            } else if m2 == Mode::Api {
                seq![Effect::ReleaseInhibit, Effect::StopJiggler, Effect::AcquireInhibit]
            } else {
                seq![
                    Effect::ReleaseInhibit,
                    Effect::StopJiggler,
                    Effect::StartJiggler(s.config.interval_secs),
                ]
            })
        }),
{
    let c2 = crate::controller::next_config(s.config, MenuCommand::SwitchMode);
    if s.config.enabled {
        assert(seq![Effect::ReleaseInhibit, Effect::StopJiggler] + crate::controller::activation(c2)
            =~= (if c2.mode == Mode::Api {
            seq![Effect::ReleaseInhibit, Effect::StopJiggler, Effect::AcquireInhibit]
        } else {
            seq![
                Effect::ReleaseInhibit,
                Effect::StopJiggler,
                Effect::StartJiggler(s.config.interval_secs),
            ]
        }));
    } else {
        assert(effects(s, MenuCommand::SwitchMode) =~= seq![
            Effect::SaveConfig(c2),
            Effect::SetMouseMode(c2.mode == Mode::Mouse),
            Effect::ShowModeLabel(c2.mode),
        ]);
    }
}

/// Toggling autostart flips that setting and nothing else, saves, shows
/// the new state and applies exactly the new state: switching it off
/// unregisters, switching it on registers.
pub proof fn autostart_behaviour(s: Controller, i: int)
    requires
        !s.exited,
    ensures
        ({
            let a2 = !s.config.autostart;
            let c2 = Config {
                enabled: s.config.enabled,
                mode: s.config.mode,
                interval_secs: s.config.interval_secs,
                autostart: a2,
            };
            &&& next(s, MenuCommand::ToggleAutostart) == Controller {
                config: c2,
                activity: s.activity,
                exited: false,
            }
            &&& effects(s, MenuCommand::ToggleAutostart) == seq![
                Effect::SaveConfig(c2),
                Effect::ShowAutostart(a2),
                Effect::ApplyAutostart(a2),
            ]
        }),
        0 <= i < effects(s, MenuCommand::ToggleAutostart).len() ==> (
        effects(s, MenuCommand::ToggleAutostart)[i] matches Effect::ApplyAutostart(b) ==> b
            == !s.config.autostart),
{
}

/// Quit keeps the settings, releases the inhibition, stops the nudges and
/// exits; after it, commands do nothing.
pub proof fn quit_behaviour(s: Controller, cmd: MenuCommand)
    ensures
        !s.exited ==> next(s, MenuCommand::Quit) == (Controller {
            config: s.config,
            activity: Activity::Idle,
            exited: true,
        }),
        !s.exited ==> effects(s, MenuCommand::Quit) == seq![
            Effect::ReleaseInhibit,
            Effect::StopJiggler,
            Effect::Exit,
        ],
        s.exited ==> next(s, cmd) == s && effects(s, cmd).len() == 0,
{
}

// ---------------------------------------------------------------- tray ----

/// The menu shows the settings: the toggle is ticked exactly when keeping
/// awake is on, autostart exactly when it is on, and the sun is orange
/// while keeping awake and grey otherwise, whatever the mode.
pub proof fn menu_shows_settings(c: Config, l: Lang)
    ensures
        menu_model_spec(c, l).toggle_checked == c.enabled,
        menu_model_spec(c, l).autostart_checked == c.autostart,
        menu_model_spec(c, l).icon_color == (if c.enabled {
            (255u8, 183u8, 77u8)
        } else {
            (158u8, 158u8, 158u8)
        }),
        status_color_spec(c.enabled) == menu_model_spec(c, l).icon_color,
        menu_model_spec(c, l).mode_label == mode_switch_text(c.mode, l),
        menu_model_spec(c, l).tooltip == tooltip_text(c.enabled, l),
{
}

/// The menu's texts in each language.
pub proof fn menu_texts(c: Config)
    ensures
        menu_model_spec(c, Lang::En).toggle_label == "Keep Awake",
        menu_model_spec(c, Lang::Zh).toggle_label == "保持唤醒",
        menu_model_spec(c, Lang::En).autostart_label == "Launch at Login",
        menu_model_spec(c, Lang::Zh).autostart_label == "开机启动",
        menu_model_spec(c, Lang::En).quit_label == "Quit",
        menu_model_spec(c, Lang::Zh).quit_label == "退出",
        mode_switch_text(Mode::Api, Lang::En) == "Switch to Mouse Jiggle",
        mode_switch_text(Mode::Api, Lang::Zh) == "切换到鼠标微动",
        mode_switch_text(Mode::Mouse, Lang::En) == "Switch to API Inhibit",
        mode_switch_text(Mode::Mouse, Lang::Zh) == "切换到API抑制",
        tooltip_text(true, Lang::En) == "Keep Awake — Active",
        tooltip_text(true, Lang::Zh) == "保持唤醒 — 运行中",
        tooltip_text(false, Lang::En) == "Keep Awake — Stopped",
        tooltip_text(false, Lang::Zh) == "保持唤醒 — 已停止",
        status_color_spec(true) == (255u8, 183u8, 77u8),
        status_color_spec(false) == (158u8, 158u8, 158u8),
{
}

/// The menu's entries: toggle, separator, mode switch, separator,
/// autostart, quit.
pub proof fn menu_order()
    ensures
        menu_layout_spec().len() == 6,
        menu_layout_spec()[0] == MenuEntry::Toggle,
        menu_layout_spec()[1] == MenuEntry::Separator,
        menu_layout_spec()[2] == MenuEntry::ModeSwitch,
        menu_layout_spec()[3] == MenuEntry::Separator,
        menu_layout_spec()[4] == MenuEntry::Autostart,
        menu_layout_spec()[5] == MenuEntry::Quit,
{
}

// ------------------------------------------------------------ language ----

/// Chinese is chosen exactly when the `LANG` value or the culture name is
/// present and starts with `zh`; anything else, absent values included,
/// gives English.
pub proof fn language_behaviour(lang_var: Option<Seq<char>>, culture: Option<Seq<char>>)
    ensures
        (detected(lang_var, culture) == Lang::Zh) <==> ((lang_var is Some && lang_var->0.len() >= 2
            && lang_var->0[0] == 'z' && lang_var->0[1] == 'h') || (culture is Some
            && culture->0.len() >= 2 && culture->0[0] == 'z' && culture->0[1] == 'h')),
        (detected(lang_var, culture) == Lang::En) <==> !(detected(lang_var, culture) == Lang::Zh),
{
}

/// A locale name counts as Chinese exactly when it starts with `zh`.
pub proof fn chinese_locale_behaviour(s: Seq<char>)
    ensures
        is_chinese_locale(s) <==> (s.len() >= 2 && s[0] == 'z' && s[1] == 'h'),
{
}

// ------------------------------------------------------------ nudging ----

/// The nudge loop: a stop request ends it in any phase; it sleeps only
/// while waiting without a stop request; it nudges only on waking while
/// keeping awake is on and no stop was asked for; once ended it stays
/// ended.
pub proof fn nudge_loop_behaviour(p: JigglerPhase, running: bool, stop: bool)
    ensures
        stop ==> jiggler_next(p, running, stop) == JigglerAction::Finish,
        (jiggler_next(p, running, stop) == JigglerAction::SleepInterval) <==> (p
            == JigglerPhase::Waiting && !stop),
        (jiggler_next(p, running, stop) == JigglerAction::Nudge) <==> (p == JigglerPhase::Woken
            && running && !stop),
        p == JigglerPhase::Done ==> jiggler_next(p, running, stop) == JigglerAction::Finish,
        jiggler_after(JigglerAction::SleepInterval) == JigglerPhase::Woken,
        jiggler_after(JigglerAction::Nudge) == JigglerPhase::Waiting,
        jiggler_after(JigglerAction::Finish) == JigglerPhase::Done,
{
}

// ----------------------------------------------------------- autostart ----

/// Switching autostart off unregisters, whether or not the program's path
/// is known; switching it on registers the given path, and does nothing
/// without one.
pub proof fn apply_autostart_behaviour(p: Platform, exe: Option<Seq<char>>, e: Seq<char>)
    ensures
        apply_plan(p, false, exe) == disable_plan(p),
        apply_plan(p, true, Some(e)) == enable_plan(p, e),
        apply_plan(p, true, None).len() == 0,
{
}

/// Unregistering removes exactly what registering created, and never
/// writes anything.
pub proof fn unregister_undoes_register(p: Platform, e: Seq<char>, i: int)
    ensures
        p == Platform::Windows ==> ({
            let add = registry_add_args(e);
            let del = registry_delete_args();
            &&& enable_plan(p, e) == seq![StepView::Registry(add)]
            &&& disable_plan(p) == seq![StepView::Registry(del)]
            &&& add[0] == "add"@ && del[0] == "delete"@
            &&& add[1] == del[1] && add[2] == del[2] && add[3] == del[3]
            &&& add[7] == e
        }),
        p != Platform::Windows ==> (enable_plan(p, e).len() == 2 && disable_plan(p).len() == 1
            && (match (enable_plan(p, e)[1], disable_plan(p)[0]) {
            (StepView::WriteFile(b1, f1, _), StepView::RemoveFile(b2, f2)) => b1 == b2 && f1 == f2,
            _ => false,
        })),
        0 <= i < disable_plan(p).len() ==> !(disable_plan(p)[i] is WriteFile) && !(
        disable_plan(p)[i] is CreateDir),
{
}

/// The registered entries: on Linux a desktop entry under the
/// configuration directory, on macOS a launch agent under the home
/// directory, each after creating its folder; both run the given path.
pub proof fn registration_contents(e: Seq<char>)
    ensures
        enable_plan(Platform::Linux, e) == seq![
            StepView::CreateDir(BaseDir::Config, "autostart"@),
            StepView::WriteFile(
                BaseDir::Config,
                "autostart/keep-awake.desktop"@,
                "[Desktop Entry]\nType=Application\nName=Keep Awake\nExec="@ + e
                    + "\nX-GNOME-Autostart-enabled=true\n"@,
            ),
        ],
        enable_plan(Platform::MacOs, e) == seq![
            StepView::CreateDir(BaseDir::Home, "Library/LaunchAgents"@),
            StepView::WriteFile(
                BaseDir::Home,
                "Library/LaunchAgents/com.keep-awake.plist"@,
                "<?xml version=\"1.0\"?>\n<!DOCTYPE plist PUBLIC \"-//Apple//DTD PLIST 1.0//EN\" \"http://www.apple.com/DTDs/PropertyList-1.0.dtd\">\n<plist version=\"1.0\"><dict>\n<key>Label</key><string>com.keep-awake</string>\n<key>ProgramArguments</key><array><string>"@
                    + e + "</string></array>\n<key>RunAtLoad</key><true/>\n</dict></plist>"@,
            ),
        ],
        registry_add_args(e) == seq![
            "add"@,
            "HKCU\\Software\\Microsoft\\Windows\\CurrentVersion\\Run"@,
            "/v"@,
            "keep-awake"@,
            "/t"@,
            "REG_SZ"@,
            "/d"@,
            e,
            "/f"@,
        ],
        registry_delete_args() == seq![
            "delete"@,
            "HKCU\\Software\\Microsoft\\Windows\\CurrentVersion\\Run"@,
            "/v"@,
            "keep-awake"@,
            "/f"@,
        ],
{
}

// ---------------------------------------------------------------- text ----

/// A character below U+10000 is one UTF-16 unit equal to its code; any
/// other is a surrogate pair, high then low, that decodes back to it.
pub proof fn utf16_unit_behaviour(c: char)
    ensures
        (c as int) < 0x10000 ==> utf16_units(c).len() == 1 && utf16_units(c)[0] as int == c as int,
        (c as int) >= 0x10000 ==> ({
            let u = utf16_units(c);
            &&& u.len() == 2
            &&& 0xD800 <= u[0] < 0xDC00
            &&& 0xDC00 <= u[1] < 0xE000
            &&& (u[0] - 0xD800) * 0x400 + (u[1] - 0xDC00) + 0x10000 == c as int
        }),
{
    let v = c as int;
    if v >= 0x10000 {
        let w = v - 0x10000;
        assert(w < 0x100000);
        assert(w / 0x400 < 0x400);
        assert((w / 0x400) * 0x400 + w % 0x400 == w);
    }
}

/// The empty text encodes to nothing, and a single character to its own
/// units.
pub proof fn utf16_small(c: char)
    ensures
        utf16_of(Seq::<char>::empty()) == Seq::<u16>::empty(),
        utf16_of(seq![c]) == utf16_units(c),
{
    assert(seq![c].drop_last() =~= Seq::<char>::empty());
    assert(Seq::<u16>::empty() + utf16_units(c) =~= utf16_units(c));
}

/// Encoding a text is encoding its characters one after another: the
/// encoding of two texts joined is the two encodings joined.
pub proof fn utf16_concat(a: Seq<char>, b: Seq<char>)
    ensures
        utf16_of(a + b) == utf16_of(a) + utf16_of(b),
    decreases b.len(),
{
    if b.len() == 0 {
        assert(a + b =~= a);
        assert(utf16_of(b) =~= Seq::<u16>::empty());
        assert(utf16_of(a) + utf16_of(b) =~= utf16_of(a));
    } else {
        utf16_concat(a, b.drop_last());
        assert((a + b).drop_last() =~= a + b.drop_last());
        assert((a + b).last() == b.last());
        assert(utf16_of(a) + utf16_of(b) =~= utf16_of(a) + utf16_of(b.drop_last()) + utf16_units(b.last()));
    }
}

/// A notification buffer of `capacity` units holds the text's first units,
/// at most `capacity - 1` of them, and zeros after; its last unit is always
/// zero, so it is always terminated.
pub proof fn field_behaviour(units: Seq<u16>, capacity: int, j: int)
    requires
        capacity >= 1,
        0 <= j < capacity,
    ensures
        field_unit(units, capacity, capacity - 1) == 0,
        j < units.len() && j < capacity - 1 ==> field_unit(units, capacity, j) == units[j],
        j >= units.len() ==> field_unit(units, capacity, j) == 0,
{
}

/// When neither desktop inhibition was granted there is nothing to undo.
pub proof fn nothing_to_undo()
    ensures
        partial_undo(None, None).len() == 0,
{
}

// ---------------------------------------------------------------- icon ----

proof fn lemma_rim_alpha(d4: int, n: nat)
    requires
        below_rim(d4, 0),
        n <= 255,
    ensures
        rim_alpha_from(d4, n) <= n,
        below_rim(d4, rim_alpha_from(d4, n) as int),
        rim_alpha_from(d4, n) == n || !below_rim(d4, rim_alpha_from(d4, n) as int + 1),
    decreases n,
{
    if n > 0 && !below_rim(d4, n as int) {
        lemma_rim_alpha(d4, (n - 1) as nat);
    }
}

/// The sun in colour (r, g, b), by four times the squared distance d of a
/// pixel from the centre (15.5, 15.5): a painted pixel has the colour and
/// the rest are transparent black; the body is opaque out to radius 7, its
/// rim from 7 to 8 has alpha floor(255 (8 - r)), the ring from 8 to 9 and
/// everything beyond 13 stay transparent.
pub proof fn sun_behaviour(r: u8, g: u8, b: u8, px: int, py: int)
    requires
        0 <= px < 32,
        0 <= py < 32,
    ensures
        ({
            let d = (2 * px - 31) * (2 * px - 31) + (2 * py - 31) * (2 * py - 31);
            let p = sun_pixel(r, g, b, px, py);
            &&& p == (0u8, 0u8, 0u8, 0u8) || (p.0 == r && p.1 == g && p.2 == b)
            &&& d <= 196 ==> p == (r, g, b, 255u8)
            &&& 196 < d <= 256 ==> p.0 == r && p.1 == g && p.2 == b
                && 65025 * d <= 4 * (2040 - p.3) * (2040 - p.3)
                && (p.3 == 255 || 65025 * d > 4 * (2039 - p.3) * (2039 - p.3))
            &&& 256 < d <= 324 ==> p == (0u8, 0u8, 0u8, 0u8)
            &&& d > 676 ==> p == (0u8, 0u8, 0u8, 0u8)
        }),
{
    let d = (2 * px - 31) * (2 * px - 31) + (2 * py - 31) * (2 * py - 31);
    if 196 < d <= 256 {
        assert(below_rim(d, 0));
        lemma_rim_alpha(d, 255);
        let a = rim_alpha_from(d, 255) as int;
        assert(4 * (2040 - (a + 1)) * (2040 - (a + 1)) == 4 * (2039 - a) * (2039 - a));
    }
}

/// The eight ray directions, times 1000: east, then every 45 degrees
/// turning towards +y; the diagonals use 0.707.
pub open spec fn sun_ray_dirs() -> Seq<(int, int)> {
    seq![(1000int, 0int), (707int, 707int), (0int, 1000int), (-707int, 707int), (-1000int, 0int), (-707int, -707int), (0int, -1000int), (707int, -707int)]
}

/// 2000 times the distance of pixel (px, py) from the axis of the ray
/// with direction `dir`.
pub open spec fn axis_distance(px: int, py: int, dir: (int, int)) -> int {
    let e = (2 * px - 31) * dir.1 - (2 * py - 31) * dir.0;
    if e < 0 {
        -e
    } else {
        e
    }
}

/// 2000 times the position of pixel (px, py) along the ray with
/// direction `dir`.
pub open spec fn along_ray(px: int, py: int, dir: (int, int)) -> int {
    (2 * px - 31) * dir.0 + (2 * py - 31) * dir.1
}

/// Pixel (px, py) lies on the ray with direction `dir`: within 1.8 of its
/// axis and between 9 and 13 along it.
pub open spec fn within_ray(px: int, py: int, dir: (int, int)) -> bool {
    axis_distance(px, py, dir) <= 3600 && 18000 <= along_ray(px, py, dir) <= 26000
}

proof fn lemma_ray_dir(px: int, py: int, k: int)
    requires
        0 <= k < 8,
    ensures
        on_ray(px, py, k) == within_ray(px, py, sun_ray_dirs()[k]),
        ray_perp(px, py, k) == axis_distance(px, py, sun_ray_dirs()[k]),
{
    if k == 0 {
        assert(ray_perp(px, py, 0) == abs(off2(px) * 0 - off2(py) * 1000));
        assert(ray_proj(px, py, 0) == off2(px) * 1000 + off2(py) * 0);
        assert(sun_ray_dirs()[0] == (1000int, 0int));
    } else if k == 1 {
        assert(ray_perp(px, py, 1) == abs(off2(px) * 707 - off2(py) * 707));
        assert(ray_proj(px, py, 1) == off2(px) * 707 + off2(py) * 707);
        assert(sun_ray_dirs()[1] == (707int, 707int));
    } else if k == 2 {
        assert(ray_perp(px, py, 2) == abs(off2(px) * 1000 - off2(py) * 0));
        assert(ray_proj(px, py, 2) == off2(px) * 0 + off2(py) * 1000);
        assert(sun_ray_dirs()[2] == (0int, 1000int));
    } else if k == 3 {
        assert(ray_perp(px, py, 3) == abs(off2(px) * 707 - off2(py) * (-707)));
        assert(ray_proj(px, py, 3) == off2(px) * (-707) + off2(py) * 707);
        assert(sun_ray_dirs()[3] == (-707int, 707int));
    } else if k == 4 {
        assert(ray_perp(px, py, 4) == abs(off2(px) * 0 - off2(py) * (-1000)));
        assert(ray_proj(px, py, 4) == off2(px) * (-1000) + off2(py) * 0);
        assert(sun_ray_dirs()[4] == (-1000int, 0int));
    } else if k == 5 {
        assert(ray_perp(px, py, 5) == abs(off2(px) * (-707) - off2(py) * (-707)));
        assert(ray_proj(px, py, 5) == off2(px) * (-707) + off2(py) * (-707));
        assert(sun_ray_dirs()[5] == (-707int, -707int));
    } else if k == 6 {
        assert(ray_perp(px, py, 6) == abs(off2(px) * (-1000) - off2(py) * 0));
        assert(ray_proj(px, py, 6) == off2(px) * 0 + off2(py) * (-1000));
        assert(sun_ray_dirs()[6] == (0int, -1000int));
    } else if k == 7 {
        assert(ray_perp(px, py, 7) == abs(off2(px) * (-707) - off2(py) * 707));
        assert(ray_proj(px, py, 7) == off2(px) * 707 + off2(py) * (-707));
        assert(sun_ray_dirs()[7] == (707int, -707int));
    }
}

/// Between radius 9 and 13 the sun paints exactly the pixels on one of
/// its eight rays, in its colour, opaque within 1.0 of the ray's axis and
/// with alpha floor(255 (1.8 - distance)) beyond; the colour does not
/// change the alpha.
pub proof fn sun_rays_behaviour(r: u8, g: u8, b: u8, r2: u8, g2: u8, b2: u8, px: int, py: int, k: int)
    requires
        0 <= px < 32,
        0 <= py < 32,
    ensures
        ({
            let d = (2 * px - 31) * (2 * px - 31) + (2 * py - 31) * (2 * py - 31);
            let p = sun_pixel(r, g, b, px, py);
            &&& 324 < d <= 676 && 0 <= k < 8 && within_ray(px, py, sun_ray_dirs()[k]) ==> ({
                let e = axis_distance(px, py, sun_ray_dirs()[k]);
                p == (r, g, b, (if e > 2000 {
                    (3600 - e) * 255 / 2000
                } else {
                    255
                }) as u8)
            })
            &&& 324 < d <= 676 && (forall|j: int|
                0 <= j < 8 ==> !within_ray(px, py, #[trigger] sun_ray_dirs()[j])) ==> p == (
            0u8,
            0u8,
            0u8,
            0u8,
            )
            &&& p.3 == sun_pixel(r2, g2, b2, px, py).3
            &&& (p == (0u8, 0u8, 0u8, 0u8)) == (sun_pixel(r2, g2, b2, px, py) == (0u8, 0u8, 0u8, 0u8))
                || (r == 0 && g == 0 && b == 0) || (r2 == 0 && g2 == 0 && b2 == 0)
        }),
{
    let d = (2 * px - 31) * (2 * px - 31) + (2 * py - 31) * (2 * py - 31);
    if 324 < d <= 676 && 0 <= k < 8 && within_ray(px, py, sun_ray_dirs()[k]) {
        lemma_ray_dir(px, py, k);
        lemma_first_ray_found(px, py, k as nat, 0);
    }
    if 324 < d <= 676 && (forall|j: int| 0 <= j < 8 ==> !within_ray(px, py, #[trigger] sun_ray_dirs()[j])) {
        assert forall|j: int| 0 <= j < 8 implies !#[trigger] on_ray(px, py, j) by {
            lemma_ray_dir(px, py, j);
        }
        lemma_first_ray_none(px, py, 0);
    }
}

/// Bytes `i` and `i + 1` of the ICO file read as a little-endian number.
pub open spec fn ico_u16(rgba: Seq<u8>, i: int) -> int {
    ico_byte(rgba, i) + 256 * ico_byte(rgba, i + 1)
}

/// Bytes `i` to `i + 3` of the ICO file read as a little-endian number.
pub open spec fn ico_u32(rgba: Seq<u8>, i: int) -> int {
    ico_u16(rgba, i) + 65536 * ico_u16(rgba, i + 2)
}

/// The ICO file's fields: a directory of one icon image; an entry for a
/// 32 x 32 image with one plane, 32 bits per pixel, 4264 bytes of data
/// (40 of header, 4096 of colour, 128 of mask) at offset 22, which is the
/// rest of the file; a bitmap header of 40 bytes for width 32 and double
/// height 64, one plane, 32 bits per pixel, no compression and nothing
/// else; and a transparency mask of zeros at the end.
pub proof fn ico_layout(rgba: Seq<u8>, i: int)
    requires
        rgba.len() == 4096,
    ensures
        ico_u16(rgba, 0) == 0,
        ico_u16(rgba, 2) == 1,
        ico_u16(rgba, 4) == 1,
        ico_byte(rgba, 6) == 32 && ico_byte(rgba, 7) == 32,
        ico_byte(rgba, 8) == 0 && ico_byte(rgba, 9) == 0,
        ico_u16(rgba, 10) == 1,
        ico_u16(rgba, 12) == 32,
        ico_u32(rgba, 14) == 40 + 4096 + 128,
        ico_u32(rgba, 18) == 22,
        22 + ico_u32(rgba, 14) == 4286,
        ico_u32(rgba, 22) == 40,
        ico_u32(rgba, 26) == 32,
        ico_u32(rgba, 30) == 64,
        ico_u16(rgba, 34) == 1,
        ico_u16(rgba, 36) == 32,
        38 <= i < 62 ==> ico_byte(rgba, i) == 0,
        62 + 4096 <= i < 4286 ==> ico_byte(rgba, i) == 0,
{
}

/// Pixel (x, y) of the icon is stored in the ICO file's colour mask at
/// row 31 - y (rows run bottom-up), as blue, green, red, alpha.
pub proof fn ico_pixel_channels(rgba: Seq<u8>, x: int, y: int)
    requires
        rgba.len() == 4096,
        0 <= x < 32,
        0 <= y < 32,
    ensures
        ({
            let at = 62 + ((31 - y) * 32 + x) * 4;
            let src = (y * 32 + x) * 4;
            &&& ico_byte(rgba, at) == rgba[src + 2]
            &&& ico_byte(rgba, at + 1) == rgba[src + 1]
            &&& ico_byte(rgba, at + 2) == rgba[src]
            &&& ico_byte(rgba, at + 3) == rgba[src + 3]
        }),
{
    ico_pixel_roundtrip(rgba, x, y, 0);
    ico_pixel_roundtrip(rgba, x, y, 1);
    ico_pixel_roundtrip(rgba, x, y, 2);
    ico_pixel_roundtrip(rgba, x, y, 3);
}

/// An RGBA buffer stores pixel (x, y) at position (32 y + x) * 4, as red,
/// green, blue, alpha.
pub proof fn rgba_layout(pixel: spec_fn(int, int) -> (u8, u8, u8, u8), x: int, y: int)
    requires
        0 <= x < 32,
        0 <= y < 32,
    ensures
        rgba_byte(pixel, (y * 32 + x) * 4) == pixel(x, y).0,
        rgba_byte(pixel, (y * 32 + x) * 4 + 1) == pixel(x, y).1,
        rgba_byte(pixel, (y * 32 + x) * 4 + 2) == pixel(x, y).2,
        rgba_byte(pixel, (y * 32 + x) * 4 + 3) == pixel(x, y).3,
{
    let p = y * 32 + x;
    lemma_fundamental_div_mod_converse(p, 32, y, x);
    lemma_fundamental_div_mod_converse(p * 4, 4, p, 0);
    lemma_fundamental_div_mod_converse(p * 4 + 1, 4, p, 1);
    lemma_fundamental_div_mod_converse(p * 4 + 2, 4, p, 2);
    lemma_fundamental_div_mod_converse(p * 4 + 3, 4, p, 3);
}

} // verus!
