use wankle_client::ui::{
    apply_config_script, center_overlay_position, hotkey_from_upper, menu_config_script, os_json,
    parse_hotkey, resize_dir, window_mode_action, HotkeyCode, ResizeDir, WindowModeAction,
};

#[test]
fn resize_dir_all_grips() {
    assert_eq!(resize_dir("n"), Some(ResizeDir::North));
    assert_eq!(resize_dir("s"), Some(ResizeDir::South));
    assert_eq!(resize_dir("e"), Some(ResizeDir::East));
    assert_eq!(resize_dir("w"), Some(ResizeDir::West));
    assert_eq!(resize_dir("ne"), Some(ResizeDir::NorthEast));
    assert_eq!(resize_dir("nw"), Some(ResizeDir::NorthWest));
    assert_eq!(resize_dir("se"), Some(ResizeDir::SouthEast));
    assert_eq!(resize_dir("sw"), Some(ResizeDir::SouthWest));
}

#[test]
fn resize_dir_unknown() {
    assert_eq!(resize_dir("N"), None);
    assert_eq!(resize_dir(""), None);
    assert_eq!(resize_dir("nn"), None);
    assert_eq!(resize_dir("north"), None);
}

#[test]
fn window_modes() {
    assert_eq!(window_mode_action("Maximized"), WindowModeAction::Maximize);
    assert_eq!(window_mode_action("Borderless Fullscreen"), WindowModeAction::BorderlessFullscreen);
    assert_eq!(window_mode_action("Windowed"), WindowModeAction::Keep);
    assert_eq!(window_mode_action("maximized"), WindowModeAction::Keep);
}

#[test]
fn hotkeys_any_case() {
    assert_eq!(parse_hotkey("F1"), HotkeyCode::F1);
    assert_eq!(parse_hotkey("f2"), HotkeyCode::F2);
    assert_eq!(parse_hotkey("insert"), HotkeyCode::Insert);
    assert_eq!(parse_hotkey("Insert"), HotkeyCode::Insert);
    assert_eq!(parse_hotkey("`"), HotkeyCode::Backquote);
    assert_eq!(parse_hotkey("Backtick"), HotkeyCode::Backquote);
    assert_eq!(parse_hotkey("backquote"), HotkeyCode::Backquote);
}

#[test]
fn hotkey_unknown_falls_back_to_f1() {
    assert_eq!(parse_hotkey("F3"), HotkeyCode::F1);
    assert_eq!(parse_hotkey(""), HotkeyCode::F1);
    assert_eq!(hotkey_from_upper("insert"), HotkeyCode::F1);
    assert_eq!(hotkey_from_upper("INSERT"), HotkeyCode::Insert);
}

#[test]
fn overlay_centred_over_game() {
    // 1280x720 game at (100, 50), 620x780 overlay.
    assert_eq!(center_overlay_position(100, 50, 1280, 720, 620, 780), (430, 20));
    // Odd difference rounds toward zero: (101 - 20) / 2 = 40.
    assert_eq!(center_overlay_position(0, 0, 101, 101, 20, 20), (40, 40));
}

#[test]
fn overlay_position_clamped_at_zero() {
    // Overlay larger than the game near the origin: -30 and -5 clamp to 0.
    assert_eq!(center_overlay_position(0, 0, 100, 100, 161, 111), (0, 0));
    // A negative odd difference rounds toward zero: 10 + (-3 / 2) = 9.
    assert_eq!(center_overlay_position(10, 10, 10, 10, 13, 13), (9, 9));
    assert_eq!(center_overlay_position(-500, -20, 400, 40, 200, 20), (0, 0));
}

#[test]
fn os_json_quotes_and_escapes() {
    assert_eq!(os_json("windows"), "\"windows\"");
    assert_eq!(os_json("a\"b\\c\n"), "\"a\\\"b\\\\c\\n\"");
    assert_eq!(os_json("\u{8}\t\u{c}\r"), "\"\\b\\t\\f\\r\"");
    assert_eq!(os_json("\u{1}\u{1f}\u{7f}/é"), "\"\\u0001\\u001f\u{7f}/é\"");
    assert_eq!(os_json(""), "\"\"");
}

#[test]
fn os_text_cannot_end_the_literal() {
    let script = menu_config_script("{}", "x\"); alert(1); //", false);
    assert_eq!(
        script,
        "window.applyConfig && window.applyConfig({}, \"x\\\"); alert(1); //\", false);"
    );
}

#[test]
fn config_script_text() {
    assert_eq!(
        apply_config_script("{\"a\":1}", "\"linux\"", false),
        "window.applyConfig && window.applyConfig({\"a\":1}, \"linux\", false);"
    );
    assert_eq!(
        menu_config_script("{}", "macos", true),
        "window.applyConfig && window.applyConfig({}, \"macos\", true);"
    );
}
