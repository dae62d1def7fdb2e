use phantom::panels::{
    capture_answered, capture_failed, capture_settings, capture_started, network_settings,
    panel_geometry, permission_message, shortcut_action, shortcut_keys, startup_panel,
    stealth_settings, toggle_plan, ShortcutAction, TogglePlan,
};
use phantom::state::AppState;

#[test]
fn panel_geometries() {
    let c = panel_geometry("config");
    assert_eq!((c.width, c.height, c.resizable, c.always_on_top, c.centered), (460, 520, false, true, false));
    let m = panel_geometry("main");
    assert_eq!((m.width, m.height, m.resizable, m.always_on_top), (380, 48, true, true));
    let w = panel_geometry("welcome");
    assert_eq!((w.width, w.height, w.always_on_top, w.centered), (500, 480, false, true));
    let o = panel_geometry("other");
    assert_eq!((o.width, o.height), (400, 400));
}

#[test]
fn toggling() {
    assert_eq!(toggle_plan("config", true, true), TogglePlan::Hide);
    assert_eq!(toggle_plan("config", true, false), TogglePlan::ShowFocused);
    assert_eq!(toggle_plan("main", true, false), TogglePlan::ShowInFront);
    assert_eq!(toggle_plan("main", false, false), TogglePlan::Create { activate: false });
    assert_eq!(toggle_plan("welcome", false, true), TogglePlan::Create { activate: true });
}

#[test]
fn first_panel() {
    let mut s = AppState::default();
    assert_eq!(startup_panel(&s), "welcome");
    s.set_has_onboarded(true);
    assert_eq!(startup_panel(&s), "welcome");
    s.set_api_key("k".to_string());
    assert_eq!(startup_panel(&s), "main");
}

#[test]
fn stealth_window_settings() {
    let on = stealth_settings(true);
    assert_eq!((on.sharing_type, on.level, on.collection_behavior), (0, Some(25), Some(273)));
    let off = stealth_settings(false);
    assert_eq!((off.sharing_type, off.level, off.collection_behavior), (1, None, None));
}

#[test]
fn shortcuts() {
    assert_eq!(shortcut_action('S'), Some(ShortcutAction::Capture));
    assert_eq!(shortcut_action('C'), Some(ShortcutAction::ToggleConfig));
    assert_eq!(shortcut_action('A'), Some(ShortcutAction::ToggleMain));
    assert_eq!(shortcut_action('M'), Some(ShortcutAction::ToggleRecording));
    assert_eq!(shortcut_action('O'), Some(ShortcutAction::ToggleWatcher));
    assert_eq!(shortcut_action('X'), None);
    assert_eq!(shortcut_keys(), vec!['S', 'C', 'M', 'A', 'O']);
}

#[test]
fn capture_flow() {
    let mut s = AppState::default();
    assert_eq!(
        capture_settings(&s).err(),
        Some("API key not configured. Press Cmd+Shift+C to open settings.".to_string())
    );
    s.set_api_key("k".to_string());
    let c = capture_settings(&s).ok().unwrap();
    assert_eq!(c.api_key, "k");
    assert_eq!(c.model, "gemini-2.5-flash");
    s.set_last_response(Some("old".to_string()));
    capture_started(&mut s);
    assert_eq!(s.get_last_response(), None);
    assert!(s.get_processing());
    let msg = capture_failed(&mut s, "timeout");
    assert_eq!(msg, "Error: timeout");
    assert_eq!(s.get_last_response(), Some("Error: timeout".to_string()));
    assert!(!s.get_processing());
    capture_started(&mut s);
    capture_answered(&mut s, "42".to_string());
    assert_eq!(s.get_last_response(), Some("42".to_string()));
    assert!(!s.get_processing());
    assert_eq!(permission_message(), "Screen recording permission required.");
}

#[test]
fn network_from_state() {
    let mut s = AppState::default();
    let n = network_settings(&s);
    assert!(n.spoof_user_agent && n.jitter && n.proxy.is_none());
    s.set_proxy_url("socks5://h:1".to_string());
    s.set_network_jitter(false);
    let n = network_settings(&s);
    assert_eq!(n.proxy, Some("socks5://h:1".to_string()));
    assert!(!n.jitter);
}
