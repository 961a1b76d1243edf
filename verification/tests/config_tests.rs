use wankle_client::config::{Config, NO_THROTTLE_BITS, WANKLE_ONLINE, WANSHOT_LOL};

#[test]
fn default_config_values() {
    let c = Config::default();
    assert_eq!(c.site, "https://wankle.online");
    assert_eq!(c.site, WANKLE_ONLINE);
    assert_eq!(c.custom_url, "");
    assert!(!c.use_custom_url);
    assert_eq!(c.rendering_api, "auto");
    assert!(c.gpu_acceleration);
    assert!(c.fps_unlock);
    assert_eq!(f32::from_bits(c.cpu_throttle_bits), 1.0f32);
    assert_eq!(c.cpu_throttle_bits, NO_THROTTLE_BITS);
    assert_eq!(c.priority, "High");
    assert_eq!(c.window_mode, "Windowed");
    assert!(c.extra_flags.is_empty());
    assert!(c.disabled_default_flags.is_empty());
    assert_eq!(c.menu_hotkey, "F1");
    assert!(c.open_menu_on_startup);
    assert!(c.devtools);
}

#[test]
fn target_url_defaults_to_site() {
    let c = Config::default();
    assert_eq!(c.target_url(), "https://wankle.online");
}

#[test]
fn target_url_uses_trimmed_custom_url() {
    let mut c = Config::default();
    c.use_custom_url = true;
    c.custom_url = "  https://example.test/game \n".to_string();
    assert_eq!(c.target_url(), "https://example.test/game");
}

#[test]
fn target_url_ignores_blank_custom_url() {
    let mut c = Config::default();
    c.use_custom_url = true;
    c.custom_url = " \t\u{3000} ".to_string();
    c.site = WANSHOT_LOL.to_string();
    assert_eq!(c.target_url(), "https://wanshot.lol");
}

#[test]
fn target_url_ignores_custom_url_when_disabled() {
    let mut c = Config::default();
    c.use_custom_url = false;
    c.custom_url = "https://example.test".to_string();
    assert_eq!(c.target_url(), "https://wankle.online");
}

#[test]
fn trimming_is_idempotent() {
    let mut c = Config::default();
    c.use_custom_url = true;
    c.custom_url = "\u{a0} https://a.test \u{2028}".to_string();
    let once = c.target_url();
    c.custom_url = once.clone();
    assert_eq!(c.target_url(), once);
    assert_eq!(once, "https://a.test");
}
