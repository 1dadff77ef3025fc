//! What the tray shows: the menu, its texts in both languages, the tooltip,
//! the icon's colour, and the text fields of a balloon notification.

use vstd::prelude::*;
use crate::config::{Config, Mode};
use crate::lang::Lang;

verus! {

/// The text for `lang` out of an English and a Chinese one.
pub open spec fn tr(lang: Lang, en: &'static str, zh: &'static str) -> &'static str {
    match lang {
        Lang::En => en,
        Lang::Zh => zh,
    }
}

/// Colour of the sun while keeping awake (orange).
pub open spec fn active_color() -> (u8, u8, u8) {
    (255, 183, 77)
}

/// Colour of the sun while stopped (grey).
pub open spec fn stopped_color() -> (u8, u8, u8) {
    (158, 158, 158)
}

/// One entry of the tray menu, top to bottom.
#[derive(Debug, Clone, Copy, PartialEq, Eq, Structural)]
pub enum MenuEntry {
    /// The check item that switches keeping awake on and off.
    Toggle,
    /// The item that switches between API and mouse mode.
    ModeSwitch,
    /// The check item for starting at login.
    Autostart,
    /// The item that ends the program.
    Quit,
    /// A separator line.
    Separator,
}

/// Everything the tray menu and icon show for a given configuration.
#[derive(Debug, Clone, Copy, PartialEq, Eq)]
pub struct MenuModel {
    pub toggle_label: &'static str,
    pub toggle_checked: bool,
    pub mode_label: &'static str,
    pub autostart_label: &'static str,
    pub autostart_checked: bool,
    pub quit_label: &'static str,
    pub tooltip: &'static str,
    /// Colour of the sun icon (`icon::sun_icon_rgba`).
    pub icon_color: (u8, u8, u8),
}

/// The order of the menu's entries.
pub open spec fn menu_layout_spec() -> Seq<MenuEntry> {
    seq![
        MenuEntry::Toggle,
        MenuEntry::Separator,
        MenuEntry::ModeSwitch,
        MenuEntry::Separator,
        MenuEntry::Autostart,
        MenuEntry::Quit,
    ]
}

/// The entries of the tray menu, top to bottom.
pub fn menu_layout() -> (v: Vec<MenuEntry>)
    ensures
        v@ == menu_layout_spec(),
{
    let mut v: Vec<MenuEntry> = Vec::new();
    v.push(MenuEntry::Toggle);
    v.push(MenuEntry::Separator);
    v.push(MenuEntry::ModeSwitch);
    v.push(MenuEntry::Separator);
    v.push(MenuEntry::Autostart);
    v.push(MenuEntry::Quit);
    v
}

/// Label of the mode item: it offers the mode not in use.
pub open spec fn mode_switch_text(mode: Mode, lang: Lang) -> &'static str {
    match mode {
        Mode::Api => tr(lang, "Switch to Mouse Jiggle", "切换到鼠标微动"),
        Mode::Mouse => tr(lang, "Switch to API Inhibit", "切换到API抑制"),
    }
}

/// Tooltip of the tray icon.
pub open spec fn tooltip_text(enabled: bool, lang: Lang) -> &'static str {
    if enabled {
        tr(lang, "Keep Awake — Active", "保持唤醒 — 运行中")
    } else {
        tr(lang, "Keep Awake — Stopped", "保持唤醒 — 已停止")
    }
}

/// Colour of the sun icon.
pub open spec fn status_color_spec(enabled: bool) -> (u8, u8, u8) {
    if enabled {
        active_color()
    } else {
        stopped_color()
    }
}

/// The menu and icon for configuration `c` in language `lang`.
pub open spec fn menu_model_spec(c: Config, lang: Lang) -> MenuModel {
    let color = status_color_spec(c.enabled);
    MenuModel {
        toggle_label: tr(lang, "Keep Awake", "保持唤醒"),
        toggle_checked: c.enabled,
        mode_label: mode_switch_text(c.mode, lang),
        autostart_label: tr(lang, "Launch at Login", "开机启动"),
        autostart_checked: c.autostart,
        quit_label: tr(lang, "Quit", "退出"),
        tooltip: tooltip_text(c.enabled, lang),
        icon_color: color,
    }
}

/// Label of the mode item for `mode`.
pub fn mode_switch_label(mode: Mode, lang: Lang) -> (s: &'static str)
    ensures
        s == mode_switch_text(mode, lang),
{
    match mode {
        Mode::Api => lang.pick("Switch to Mouse Jiggle", "切换到鼠标微动"),
        Mode::Mouse => lang.pick("Switch to API Inhibit", "切换到API抑制"),
    }
}

/// Tooltip while keeping awake is on (`enabled`) or off.
pub fn tooltip(enabled: bool, lang: Lang) -> (s: &'static str)
    ensures
        s == tooltip_text(enabled, lang),
{
    if enabled {
        lang.pick("Keep Awake — Active", "保持唤醒 — 运行中")
    } else {
        lang.pick("Keep Awake — Stopped", "保持唤醒 — 已停止")
    }
}

/// Colour of the sun: orange while keeping awake, grey while stopped.
pub fn status_color(enabled: bool) -> (c: (u8, u8, u8))
    ensures
        c == status_color_spec(enabled),
{
    if enabled {
        (255, 183, 77)
    } else {
        (158, 158, 158)
    }
}

/// The tray menu and icon for configuration `c`.
pub fn menu_model(c: &Config, lang: Lang) -> (m: MenuModel)
    ensures
        m == menu_model_spec(*c, lang),
{
    let color = status_color(c.enabled);
    MenuModel {
        toggle_label: lang.pick("Keep Awake", "保持唤醒"),
        toggle_checked: c.enabled,
        mode_label: mode_switch_label(c.mode, lang),
        autostart_label: lang.pick("Launch at Login", "开机启动"),
        autostart_checked: c.autostart,
        quit_label: lang.pick("Quit", "退出"),
        tooltip: tooltip(c.enabled, lang),
        icon_color: color,
    }
}

} // verus!
