use wankle_client::client::{ipc_event, ClientEvent, ClientState, Effect};
use wankle_client::config::Config;
use wankle_client::flags::build_browser_args;
use wankle_client::ui::ResizeDir;

fn on_menu() -> ClientState {
    let (s, effects) = ClientState::launch(Config::default(), &vec!["wankle-client".to_string()]);
    assert!(effects.is_empty());
    s
}

fn in_game() -> ClientState {
    let (s, effects) = ClientState::launch(
        Config::default(),
        &vec!["wankle-client".to_string(), "--play".to_string()],
    );
    assert_eq!(effects, vec![Effect::StartGame]);
    s
}

#[test]
fn launch_opens_menu_by_default() {
    let s = on_menu();
    assert!(s.menu_open);
    assert!(!s.in_game);
    assert_eq!(s.startup_args, build_browser_args(&Config::default()));
}

#[test]
fn launch_with_play_flag_starts_game() {
    let s = in_game();
    assert!(!s.menu_open);
    assert!(s.in_game);
}

#[test]
fn launch_skips_menu_when_configured() {
    let mut c = Config::default();
    c.open_menu_on_startup = false;
    let (s, effects) = ClientState::launch(c, &vec![]);
    assert_eq!(effects, vec![Effect::StartGame]);
    assert!(s.in_game && !s.menu_open);
}

#[test]
fn toggle_twice_restores_menu() {
    let mut s = in_game();
    let e1 = s.handle(ClientEvent::ToggleMenu);
    assert_eq!(e1, vec![Effect::SetMenuVisible(true), Effect::FocusMenu, Effect::SendConfig]);
    assert!(s.menu_open);
    let e2 = s.handle(ClientEvent::ToggleMenu);
    assert_eq!(e2, vec![Effect::SetMenuVisible(false), Effect::FocusGame]);
    assert!(!s.menu_open);
    assert!(s.in_game);
}

#[test]
fn toggle_closed_without_game_does_not_focus_game() {
    let mut s = on_menu();
    let e = s.handle(ClientEvent::ToggleMenu);
    assert_eq!(e, vec![Effect::SetMenuVisible(false)]);
}

#[test]
fn ready_sends_config() {
    let mut s = on_menu();
    assert_eq!(s.handle(ClientEvent::MenuReady), vec![Effect::SendConfig]);
}

#[test]
fn play_with_unchanged_flags_starts_in_process() {
    let mut s = on_menu();
    let mut c = Config::default();
    c.priority = "Idle".to_string();
    let e = s.handle(ClientEvent::Play { config: Some(c) });
    assert_eq!(e, vec![Effect::SaveConfig, Effect::StartGame]);
    assert!(s.in_game && !s.menu_open);
    assert_eq!(s.config.priority, "Idle");
}

#[test]
fn play_with_changed_flags_relaunches() {
    let mut s = on_menu();
    let mut c = Config::default();
    c.rendering_api = "vulkan".to_string();
    let e = s.handle(ClientEvent::Play { config: Some(c) });
    assert_eq!(e, vec![Effect::SaveConfig, Effect::Relaunch, Effect::Exit]);
    assert_eq!(s.config.rendering_api, "vulkan");
    assert!(!s.in_game);
}

#[test]
fn play_in_game_relaunches() {
    let mut s = in_game();
    let e = s.handle(ClientEvent::Play { config: None });
    assert_eq!(e, vec![Effect::SaveConfig, Effect::Relaunch, Effect::Exit]);
    assert!(s.in_game);
}

#[test]
fn live_settings_apply_in_place() {
    let mut s = in_game();
    let bits = 2.0f32.to_bits();
    assert_eq!(
        s.handle(ClientEvent::Throttle { rate_bits: Some(bits) }),
        vec![Effect::ApplyCpuThrottle, Effect::SaveConfig]
    );
    assert_eq!(s.config.cpu_throttle_bits, bits);
    assert_eq!(
        s.handle(ClientEvent::Priority { level: Some("Below Normal".to_string()) }),
        vec![Effect::ApplyPriority, Effect::SaveConfig]
    );
    assert_eq!(s.config.priority, "Below Normal");
    assert_eq!(s.handle(ClientEvent::OpenDevtools), vec![Effect::OpenDevtools]);
    assert!(s.in_game);
}

#[test]
fn live_settings_from_menu_before_game() {
    let mut s = on_menu();
    assert_eq!(s.handle(ClientEvent::Throttle { rate_bits: Some(3) }), vec![Effect::SaveConfig]);
    assert_eq!(s.handle(ClientEvent::Throttle { rate_bits: None }), vec![]);
    assert_eq!(s.handle(ClientEvent::Priority { level: None }), vec![]);
    assert_eq!(s.handle(ClientEvent::OpenDevtools), vec![]);
    assert_eq!(s.config.cpu_throttle_bits, 3);
}

#[test]
fn close_and_overlay_close_hide_menu() {
    let mut s = in_game();
    s.handle(ClientEvent::ToggleMenu);
    assert_eq!(s.handle(ClientEvent::CloseMenu), vec![Effect::SetMenuVisible(false), Effect::FocusGame]);
    assert!(!s.menu_open);
    s.handle(ClientEvent::ToggleMenu);
    assert_eq!(
        s.handle(ClientEvent::OverlayCloseRequested),
        vec![Effect::SetMenuVisible(false), Effect::FocusGame]
    );
    let mut m = on_menu();
    assert_eq!(m.handle(ClientEvent::OverlayCloseRequested), vec![Effect::SetMenuVisible(false)]);
    assert!(!m.menu_open);
}

#[test]
fn quit_and_game_close_exit() {
    let mut s = in_game();
    assert_eq!(s.handle(ClientEvent::Quit), vec![Effect::Exit]);
    assert_eq!(s.handle(ClientEvent::GameCloseRequested), vec![Effect::Exit]);
}

#[test]
fn drag_and_resize() {
    let mut s = on_menu();
    assert_eq!(s.handle(ClientEvent::DragMenu), vec![Effect::DragMenu]);
    assert_eq!(
        s.handle(ClientEvent::ResizeMenu { dir: Some("se".to_string()) }),
        vec![Effect::ResizeMenu(ResizeDir::SouthEast)]
    );
    assert_eq!(s.handle(ClientEvent::ResizeMenu { dir: Some("x".to_string()) }), vec![]);
    assert_eq!(s.handle(ClientEvent::ResizeMenu { dir: None }), vec![]);
    assert_eq!(s.handle(ClientEvent::UnknownMessage), vec![]);
}

#[test]
fn ipc_kinds() {
    assert!(matches!(ipc_event("ready", None, None, None, None), ClientEvent::MenuReady));
    assert!(matches!(ipc_event("play", None, None, None, None), ClientEvent::Play { config: None }));
    assert!(matches!(
        ipc_event("throttle", None, Some(7), None, None),
        ClientEvent::Throttle { rate_bits: Some(7) }
    ));
    match ipc_event("priority", None, None, Some("High".to_string()), None) {
        ClientEvent::Priority { level: Some(v) } => assert_eq!(v, "High"),
        other => panic!("unexpected {:?}", other),
    }
    assert!(matches!(ipc_event("devtools", None, None, None, None), ClientEvent::OpenDevtools));
    assert!(matches!(ipc_event("close", None, None, None, None), ClientEvent::CloseMenu));
    assert!(matches!(ipc_event("quit", None, None, None, None), ClientEvent::Quit));
    assert!(matches!(ipc_event("drag", None, None, None, None), ClientEvent::DragMenu));
    match ipc_event("resize", None, None, None, Some("n".to_string())) {
        ClientEvent::ResizeMenu { dir: Some(d) } => assert_eq!(d, "n"),
        other => panic!("unexpected {:?}", other),
    }
    assert!(matches!(ipc_event("", None, None, None, None), ClientEvent::UnknownMessage));
    assert!(matches!(ipc_event("Ready", None, None, None, None), ClientEvent::UnknownMessage));
}

#[test]
fn startup_args_never_change() {
    let mut s = on_menu();
    let before = s.startup_args.clone();
    let mut c = Config::default();
    c.fps_unlock = false;
    s.handle(ClientEvent::Play { config: Some(c) });
    s.handle(ClientEvent::ToggleMenu);
    assert_eq!(s.startup_args, before);
}
