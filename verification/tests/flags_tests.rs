use wankle_client::config::Config;
use wankle_client::flags::{build_browser_args, contains_str, default_flag_list, join_spaces};

fn defaults_joined() -> String {
    default_flag_list().join(" ")
}

#[test]
fn default_flag_list_has_curated_switches() {
    let d = default_flag_list();
    assert_eq!(d.len(), 18);
    assert_eq!(d[2], "--ignore-gpu-blocklist");
    assert_eq!(d[17], "--autoplay-policy=no-user-gesture-required");
    assert!(d[0].starts_with("--enable-features=BlinkCompositorUseDisplayThreadPriority,"));
    assert!(d[1].starts_with("--disable-features=msSmartScreenProtection,"));
}

#[test]
fn default_config_args() {
    let c = Config::default();
    let expected = format!(
        "{} --disable-frame-rate-limit --disable-gpu-vsync",
        defaults_joined()
    );
    assert_eq!(build_browser_args(&c), expected);
}

#[test]
fn disabled_default_flag_is_dropped() {
    let mut c = Config::default();
    c.fps_unlock = false;
    c.disabled_default_flags = vec!["--no-pings".to_string(), "--enable-quic".to_string()];
    let args = build_browser_args(&c);
    assert!(!args.contains("--no-pings"));
    assert!(!args.contains("--enable-quic"));
    assert!(args.contains("--ignore-gpu-blocklist"));
    assert!(args.ends_with("--disable-component-update --autoplay-policy=no-user-gesture-required"));
}

#[test]
fn disabled_flag_needs_exact_match() {
    let mut c = Config::default();
    c.fps_unlock = false;
    c.disabled_default_flags = vec!["--no-pings ".to_string(), "no-pings".to_string()];
    assert_eq!(build_browser_args(&c), defaults_joined());
}

#[test]
fn rendering_api_select() {
    for (api, flag) in [
        ("d3d11", "--use-angle=d3d11"),
        ("d3d9", "--use-angle=d3d9"),
        ("gl", "--use-angle=gl"),
        ("vulkan", "--use-angle=vulkan"),
        ("swiftshader", "--use-angle=swiftshader"),
    ] {
        let mut c = Config::default();
        c.fps_unlock = false;
        c.rendering_api = api.to_string();
        assert_eq!(build_browser_args(&c), format!("{} {}", defaults_joined(), flag));
    }
}

#[test]
fn rendering_api_auto_and_unknown_pass_nothing() {
    for api in ["auto", "D3D11", "metal", ""] {
        let mut c = Config::default();
        c.fps_unlock = false;
        c.rendering_api = api.to_string();
        assert_eq!(build_browser_args(&c), defaults_joined());
    }
}

#[test]
fn gpu_off_and_fps_locked() {
    let mut c = Config::default();
    c.fps_unlock = false;
    c.gpu_acceleration = false;
    assert_eq!(build_browser_args(&c), format!("{} --disable-gpu", defaults_joined()));
}

#[test]
fn extra_flags_trimmed_and_blank_dropped() {
    let mut c = Config::default();
    c.disabled_default_flags = default_flag_list().iter().map(|s| s.to_string()).collect();
    c.rendering_api = "gl".to_string();
    c.gpu_acceleration = false;
    c.extra_flags = vec![
        "  --foo=1 ".to_string(),
        "   ".to_string(),
        "".to_string(),
        "--bar".to_string(),
    ];
    assert_eq!(
        build_browser_args(&c),
        "--use-angle=gl --disable-frame-rate-limit --disable-gpu-vsync --disable-gpu --foo=1 --bar"
    );
}

#[test]
fn everything_disabled_gives_empty_args() {
    let mut c = Config::default();
    c.disabled_default_flags = default_flag_list().iter().map(|s| s.to_string()).collect();
    c.fps_unlock = false;
    assert_eq!(build_browser_args(&c), "");
}

#[test]
fn disabled_default_can_be_readded_as_extra() {
    let mut c = Config::default();
    c.fps_unlock = false;
    c.disabled_default_flags = vec!["--no-pings".to_string()];
    c.extra_flags = vec!["--no-pings".to_string()];
    let args = build_browser_args(&c);
    assert!(args.ends_with("--autoplay-policy=no-user-gesture-required --no-pings"));
    assert_eq!(args.matches("--no-pings").count(), 1);
}

#[test]
fn join_spaces_cases() {
    assert_eq!(join_spaces(&vec![]), "");
    assert_eq!(join_spaces(&vec!["a".to_string()]), "a");
    assert_eq!(join_spaces(&vec!["a".to_string(), "".to_string(), "b c".to_string()]), "a  b c");
}

#[test]
fn contains_str_cases() {
    let v = vec!["x".to_string(), "yz".to_string()];
    assert!(contains_str(&v, "yz"));
    assert!(!contains_str(&v, "y"));
    assert!(!contains_str(&vec![], ""));
}
