use keep_awake::config::{config_base, Config, Mode};

#[test]
fn default_config_is_off_api_sixty_seconds() {
    let c = Config::default();
    assert!(!c.enabled);
    assert_eq!(c.mode, Mode::Api);
    assert_eq!(c.interval_secs, 60);
    assert!(!c.autostart);
}

#[test]
fn mode_labels() {
    assert_eq!(Mode::Api.label(), "API Inhibit");
    assert_eq!(Mode::Mouse.label(), "Mouse Jiggle");
}

#[test]
fn mode_switch_is_an_involution() {
    assert_eq!(Mode::Api.switched(), Mode::Mouse);
    assert_eq!(Mode::Mouse.switched(), Mode::Api);
    assert_eq!(Mode::Api.switched().switched(), Mode::Api);
}

#[test]
fn load_existing_file_keeps_its_settings() {
    let stored = Config { enabled: true, mode: Mode::Mouse, interval_secs: 30, autostart: true };
    assert_eq!(Config::resolve_load(true, Some(stored)), (stored, false));
}

#[test]
fn load_unreadable_file_gives_defaults_without_saving() {
    assert_eq!(Config::resolve_load(true, None), (Config::default(), false));
}

#[test]
fn load_missing_file_gives_defaults_and_saves() {
    assert_eq!(Config::resolve_load(false, None), (Config::default(), true));
    let other = Config { enabled: true, mode: Mode::Mouse, interval_secs: 5, autostart: false };
    assert_eq!(Config::resolve_load(false, Some(other)), (Config::default(), true));
}

#[test]
fn config_base_prefers_config_then_data_then_fallback() {
    assert_eq!(config_base(Some("cfg"), Some("data"), "."), "cfg");
    assert_eq!(config_base(None, Some("data"), "."), "data");
    assert_eq!(config_base::<&str>(None, None, "."), ".");
}
