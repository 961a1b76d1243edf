use wankle_client::platform::{
    has_webview2, is_webview2_process, priority_class, set_priority, str_contains, PriorityClass,
    ProcessEntry,
};

#[test]
fn priority_classes() {
    assert_eq!(priority_class("High"), PriorityClass::High);
    assert_eq!(priority_class("Above Normal"), PriorityClass::AboveNormal);
    assert_eq!(priority_class("Normal"), PriorityClass::Normal);
    assert_eq!(priority_class("Below Normal"), PriorityClass::BelowNormal);
    assert_eq!(priority_class("Idle"), PriorityClass::Idle);
    assert_eq!(priority_class("high"), PriorityClass::Normal);
    assert_eq!(priority_class(""), PriorityClass::Normal);
}

#[test]
fn webview2_process_names() {
    assert!(is_webview2_process("msedgewebview2.exe"));
    assert!(is_webview2_process("MSEDGEWEBVIEW2.EXE"));
    assert!(is_webview2_process("msedgeWebView2.exe\0\0\0"));
    assert!(!is_webview2_process("msedge.exe"));
    assert!(!is_webview2_process("webview.exe"));
    assert!(!is_webview2_process(""));
}

fn entry(pid: u32, parent_pid: u32, name: &str) -> ProcessEntry {
    ProcessEntry { pid, parent_pid, exe_name: name.to_string() }
}

#[test]
fn set_priority_targets_own_webview2_descendants() {
    // 200 is this client; 100 its WebView2 browser process, 300 a renderer
    // under it; 500 is another application's WebView2 process.
    let ps = vec![
        entry(4, 0, "System"),
        entry(300, 100, "MsEdgeWebView2.exe"),
        entry(100, 200, "msedgewebview2.exe"),
        entry(200, 1, "wankle-client.exe"),
        entry(400, 200, "conhost.exe"),
        entry(500, 600, "msedgewebview2.exe"),
        entry(600, 1, "other-app.exe"),
    ];
    let u = set_priority("Above Normal", 200, &ps);
    assert_eq!(u.class, PriorityClass::AboveNormal);
    assert_eq!(u.webview_pids, vec![300, 100]);
}

#[test]
fn set_priority_ignores_other_apps_webview2() {
    let ps = vec![entry(500, 600, "msedgewebview2.exe")];
    let u = set_priority("High", 200, &ps);
    assert!(u.webview_pids.is_empty());
}

#[test]
fn set_priority_terminates_on_parent_cycles() {
    // Reused ids can form a parent cycle that does not reach this process.
    let ps = vec![
        entry(10, 11, "msedgewebview2.exe"),
        entry(11, 10, "msedgewebview2.exe"),
        entry(12, 200, "msedgewebview2.exe"),
        entry(13, 12, "msedgewebview2.exe"),
    ];
    let u = set_priority("Normal", 200, &ps);
    assert_eq!(u.class, PriorityClass::Normal);
    assert_eq!(u.webview_pids, vec![12, 13]);
}

#[test]
fn set_priority_without_processes() {
    let u = set_priority("Idle", 200, &vec![]);
    assert_eq!(u.class, PriorityClass::Idle);
    assert!(u.webview_pids.is_empty());
}

#[test]
fn has_webview2_on_lowercased_names() {
    assert!(has_webview2("msedgewebview2.exe"));
    assert!(has_webview2("webview2"));
    assert!(!has_webview2("MSEDGEWEBVIEW2.EXE"));
    assert!(!has_webview2("webview"));
    assert!(!has_webview2(""));
}

#[test]
fn str_contains_cases() {
    assert!(str_contains("abc", ""));
    assert!(str_contains("", ""));
    assert!(str_contains("abcabd", "abd"));
    assert!(!str_contains("ab", "abc"));
    assert!(str_contains("héllo wörld", "ö"));
    assert!(!str_contains("aaa", "aab"));
}
