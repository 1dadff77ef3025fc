use keep_awake::config::{Config, Mode};
use keep_awake::lang::Lang;
use keep_awake::tray::{menu_layout, menu_model, mode_switch_label, status_color, tooltip, MenuEntry};

#[test]
fn english_menu_for_defaults() {
    let m = menu_model(&Config::default(), Lang::En);
    assert_eq!(m.toggle_label, "Keep Awake");
    assert!(!m.toggle_checked);
    assert_eq!(m.mode_label, "Switch to Mouse Jiggle");
    assert_eq!(m.autostart_label, "Launch at Login");
    assert!(!m.autostart_checked);
    assert_eq!(m.quit_label, "Quit");
    assert_eq!(m.tooltip, "Keep Awake — Stopped");
    assert_eq!(m.icon_color, (158, 158, 158));
}

#[test]
fn chinese_menu_when_active_in_mouse_mode() {
    let c = Config { enabled: true, mode: Mode::Mouse, interval_secs: 60, autostart: true };
    let m = menu_model(&c, Lang::Zh);
    assert_eq!(m.toggle_label, "保持唤醒");
    assert!(m.toggle_checked);
    assert_eq!(m.mode_label, "切换到API抑制");
    assert_eq!(m.autostart_label, "开机启动");
    assert!(m.autostart_checked);
    assert_eq!(m.quit_label, "退出");
    assert_eq!(m.tooltip, "保持唤醒 — 运行中");
    assert_eq!(m.icon_color, (255, 183, 77));
}

#[test]
fn mode_labels_offer_the_other_mode() {
    assert_eq!(mode_switch_label(Mode::Api, Lang::En), "Switch to Mouse Jiggle");
    assert_eq!(mode_switch_label(Mode::Mouse, Lang::En), "Switch to API Inhibit");
    assert_eq!(mode_switch_label(Mode::Api, Lang::Zh), "切换到鼠标微动");
    assert_eq!(mode_switch_label(Mode::Mouse, Lang::Zh), "切换到API抑制");
}

#[test]
fn tooltips() {
    assert_eq!(tooltip(true, Lang::En), "Keep Awake — Active");
    assert_eq!(tooltip(false, Lang::En), "Keep Awake — Stopped");
    assert_eq!(tooltip(true, Lang::Zh), "保持唤醒 — 运行中");
    assert_eq!(tooltip(false, Lang::Zh), "保持唤醒 — 已停止");
}

#[test]
fn colours_orange_when_active_grey_when_stopped() {
    assert_eq!(status_color(true), (255, 183, 77));
    assert_eq!(status_color(false), (158, 158, 158));
}

#[test]
fn layout_order() {
    assert_eq!(
        menu_layout(),
        vec![
            MenuEntry::Toggle,
            MenuEntry::Separator,
            MenuEntry::ModeSwitch,
            MenuEntry::Separator,
            MenuEntry::Autostart,
            MenuEntry::Quit,
        ]
    );
}
