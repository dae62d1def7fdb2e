//! The panels, the global shortcuts and the screenshot flow: what to show,
//! how windows are set up, and how the state moves through a capture.
use vstd::prelude::*;
use vstd::string::StringExecFns;
use crate::commands::{lemma_onboarding_survives_restart, with_stored, StoredConfig};
use crate::state::{AppState, StateField, StateValue, StateView};
use crate::text::str_eq;

verus! {

/// How a panel window is created.
pub struct PanelGeometry {
    pub width: u32,
    pub height: u32,
    pub resizable: bool,
    pub always_on_top: bool,
    pub centered: bool,
}

/// The configuration panel is 460 by 520, the main panel 380 by 48 and the
/// only resizable one, the welcome panel 500 by 480, centred and the only
/// one not kept on top; any other panel is 400 by 400.
pub open spec fn geometry_of(label: Seq<char>) -> PanelGeometry {
    let (width, height) = if label == "config"@ {
        (460u32, 520u32)
    } else if label == "main"@ {
        (380u32, 48u32)
    } else if label == "welcome"@ {
        (500u32, 480u32)
    } else {
        (400u32, 400u32)
    };
    PanelGeometry {
        width,
        height,
        resizable: label == "main"@,
        always_on_top: label != "welcome"@,
        centered: label == "welcome"@,
    }
}

pub fn panel_geometry(label: &str) -> (r: PanelGeometry)
    ensures
        r == geometry_of(label@),
{
    let is_config = str_eq(label, "config");
    let is_main = str_eq(label, "main");
    let is_welcome = str_eq(label, "welcome");
    let (width, height) = if is_config {
        (460u32, 520u32)
    } else if is_main {
        (380u32, 48u32)
    } else if is_welcome {
        (500u32, 480u32)
    } else {
        (400u32, 400u32)
    };
    PanelGeometry {
        width,
        height,
        resizable: is_main,
        always_on_top: !is_welcome,
        centered: is_welcome,
    }
}

/// What toggling a panel does.
#[derive(Clone, Copy, Debug, PartialEq, Eq, Structural)]
pub enum TogglePlan {
    /// The panel is visible: hide it.
    Hide,
    /// Bring the application forward, show the panel and focus it.
    ShowFocused,
    /// Show the panel in front without taking focus.
    ShowInFront,
    /// The panel does not exist: create it, bringing the application
    /// forward first when `activate`.
    Create { activate: bool },
}

/// Every panel but the main one takes focus when shown.
pub open spec fn toggle_plan_of(label: Seq<char>, exists: bool, visible: bool) -> TogglePlan {
    let needs_focus = label != "main"@;
    if exists {
        if visible {
            TogglePlan::Hide
        } else if needs_focus {
            TogglePlan::ShowFocused
        } else {
            TogglePlan::ShowInFront
        }
    } else {
        TogglePlan::Create { activate: needs_focus }
    }
}

pub fn toggle_plan(label: &str, exists: bool, visible: bool) -> (r: TogglePlan)
    ensures
        r == toggle_plan_of(label@, exists, visible),
{
    let needs_focus = !str_eq(label, "main");
    if exists {
        if visible {
            TogglePlan::Hide
        } else if needs_focus {
            TogglePlan::ShowFocused
        } else {
            TogglePlan::ShowInFront
        }
    } else {
        TogglePlan::Create { activate: needs_focus }
    }
}

/// Toggling a visible panel hides it; toggling a hidden one shows it.
pub proof fn lemma_toggle_flips_visibility(label: Seq<char>, visible: bool)
    ensures
        visible ==> toggle_plan_of(label, true, visible) == TogglePlan::Hide,
        !visible ==> toggle_plan_of(label, true, visible) != TogglePlan::Hide,
{
}

/// The panel shown at start-up: the welcome panel until onboarding is done
/// and a key is set, the main panel afterwards.
pub open spec fn startup_panel_of(s: StateView) -> Seq<char> {
    if !s.has_onboarded || s.api_key.len() == 0 {
        "welcome"@
    } else {
        "main"@
    }
}

pub fn startup_panel(state: &AppState) -> (r: &'static str)
    ensures
        r@ == startup_panel_of(state@),
{
    let key = state.get_api_key();
    if !state.get_has_onboarded() || key.as_str().is_empty() {
        "welcome"
    } else {
        "main"
    }
}

/// Once the welcome flow has stored a key, every later start shows the main
/// panel, whatever else the store holds.
pub proof fn lemma_onboarded_start_shows_main(fresh: StateView, stored: StoredConfig, key: String)
    requires
        stored.api_key == Some(key),
        stored.has_onboarded == Some(true),
        key@.len() > 0,
    ensures
        startup_panel_of(with_stored(fresh, stored)) == "main"@,
{
    lemma_onboarding_survives_restart(fresh, stored, key);
}

/// How a window is kept out of sight.
pub struct WindowStealth {
    /// 0 keeps the window out of screen captures, 1 lets it be captured.
    pub sharing_type: u64,
    /// The window level, when it is raised.
    pub level: Option<i64>,
    /// The collection behaviour (all spaces, out of the window cycle,
    /// full-screen auxiliary), when it is set.
    pub collection_behavior: Option<u64>,
}

/// The status window level.
pub const STATUS_WINDOW_LEVEL: i64 = 25;

/// Join all spaces (1), ignore cycling (16), full-screen auxiliary (256).
pub const STEALTH_COLLECTION_BEHAVIOR: u64 = 273;

pub fn stealth_settings(enabled: bool) -> (r: WindowStealth)
    ensures
        r.sharing_type == (if enabled {
            0u64
        } else {
            1u64
        }),
        r.level == (if enabled {
            Some(STATUS_WINDOW_LEVEL)
        } else {
            None
        }),
        r.collection_behavior == (if enabled {
            Some(STEALTH_COLLECTION_BEHAVIOR)
        } else {
            None
        }),
{
    if enabled {
        WindowStealth {
            sharing_type: 0,
            level: Some(STATUS_WINDOW_LEVEL),
            collection_behavior: Some(STEALTH_COLLECTION_BEHAVIOR),
        }
    } else {
        WindowStealth { sharing_type: 1, level: None, collection_behavior: None }
    }
}

/// The panels whose stealth follows the setting.
pub fn stealth_panels() -> (r: Vec<&'static str>)
    ensures
        r@ == seq!["config", "main", "welcome"],
{
    vec!["config", "main", "welcome"]
}

// ---------------------------------------------------------------------------
// Shortcuts
// ---------------------------------------------------------------------------

/// What a global shortcut (Command-Shift and a letter) does.
#[derive(Clone, Copy, Debug, PartialEq, Eq, Structural)]
pub enum ShortcutAction {
    Capture,
    ToggleConfig,
    ToggleMain,
    ToggleRecording,
    ToggleWatcher,
}

/// S captures the screen, C toggles the settings, A the main panel, M the
/// recording and O the watcher; other letters do nothing.
pub open spec fn action_of(key: char) -> Option<ShortcutAction> {
    if key == 'S' {
        Some(ShortcutAction::Capture)
    } else if key == 'C' {
        Some(ShortcutAction::ToggleConfig)
    } else if key == 'A' {
        Some(ShortcutAction::ToggleMain)
    } else if key == 'M' {
        Some(ShortcutAction::ToggleRecording)
    } else if key == 'O' {
        Some(ShortcutAction::ToggleWatcher)
    } else {
        None
    }
}

pub fn shortcut_action(key: char) -> (r: Option<ShortcutAction>)
    ensures
        r == action_of(key),
{
    if key == 'S' {
        Some(ShortcutAction::Capture)
    } else if key == 'C' {
        Some(ShortcutAction::ToggleConfig)
    } else if key == 'A' {
        Some(ShortcutAction::ToggleMain)
    } else if key == 'M' {
        Some(ShortcutAction::ToggleRecording)
    } else if key == 'O' {
        Some(ShortcutAction::ToggleWatcher)
    } else {
        None
    }
}

/// The letters registered as shortcuts.
pub fn shortcut_keys() -> (r: Vec<char>)
    ensures
        r@ == seq!['S', 'C', 'M', 'A', 'O'],
        forall|i: int| 0 <= i < r@.len() ==> action_of(#[trigger] r@[i]) is Some,
{
    let r = vec!['S', 'C', 'M', 'A', 'O'];
    assert(r@ =~= seq!['S', 'C', 'M', 'A', 'O']);
    r
}

// ---------------------------------------------------------------------------
// The screenshot flow
// ---------------------------------------------------------------------------

/// What a screenshot request needs from the state.
pub struct CaptureSettings {
    pub api_key: String,
    pub model: String,
    pub prompt: String,
    pub response_language: String,
}

pub open spec fn missing_key_message() -> Seq<char> {
    "API key not configured. Press Cmd+Shift+C to open settings."@
}

/// A capture can only go ahead once an API key is set.
pub fn capture_settings(state: &AppState) -> (r: Result<CaptureSettings, String>)
    ensures
        match r {
            Ok(c) => {
                &&& state@.api_key.len() > 0
                &&& c.api_key@ == state@.api_key
                &&& c.model@ == state@.model
                &&& c.prompt@ == state@.prompt
                &&& c.response_language@ == state@.response_language
            },
            Err(e) => state@.api_key.len() == 0 && e@ == missing_key_message(),
        },
{
    let api_key = state.get_api_key();
    if api_key.as_str().is_empty() {
        return Err("API key not configured. Press Cmd+Shift+C to open settings.".to_owned());
    }
    Ok(
        CaptureSettings {
            api_key,
            model: state.get_model(),
            prompt: state.get_prompt(),
            response_language: state.get_response_language(),
        },
    )
}

/// The message shown when screen recording is not permitted.
pub fn permission_message() -> (r: &'static str)
    ensures
        r@ == "Screen recording permission required."@,
{
    "Screen recording permission required."
}

/// How requests go out: with a browser-like user agent, after a random
/// delay, through a proxy.
pub struct NetworkSettings {
    pub spoof_user_agent: bool,
    pub jitter: bool,
    pub proxy: Option<String>,
}

pub fn network_settings(state: &AppState) -> (r: NetworkSettings)
    ensures
        r.spoof_user_agent == state@.spoof_user_agent,
        r.jitter == state@.network_jitter,
        match r.proxy {
            Some(p) => state@.proxy_url.len() > 0 && p@ == state@.proxy_url,
            None => state@.proxy_url.len() == 0,
        },
{
    let proxy = state.get_proxy_url();
    NetworkSettings {
        spoof_user_agent: state.get_spoof_user_agent(),
        jitter: state.get_network_jitter(),
        proxy: if proxy.as_str().is_empty() {
            None
        } else {
            Some(proxy)
        },
    }
}

/// The state of a capture under way: the previous answer is cleared.
pub open spec fn capture_start_state(s: StateView) -> StateView {
    StateView { last_response: None, is_processing: true, ..s }
}

/// A capture under way: the previous answer is cleared.
pub fn capture_started(state: &mut AppState)
    ensures
        final(state)@ == capture_start_state(old(state)@),
{
    state.set_last_response(None);
    state.set_processing(true);
}

pub open spec fn error_text(e: Seq<char>) -> Seq<char> {
    "Error: "@ + e
}

/// The state after a capture failed: the error is the last response.
pub open spec fn after_capture_failure(s: StateView, error: Seq<char>) -> StateView {
    StateView { last_response: Some(error_text(error)), is_processing: false, ..s }
}

/// The state after a capture was answered: the answer is the last response.
pub open spec fn after_capture_answer(s: StateView, response: Seq<char>) -> StateView {
    StateView { last_response: Some(response), is_processing: false, ..s }
}

/// A capture that failed: the error becomes the last response.
pub fn capture_failed(state: &mut AppState, error: &str) -> (r: String)
    ensures
        r@ == error_text(error@),
        final(state)@ == after_capture_failure(old(state)@, error@),
{
    let mut message = "Error: ".to_owned();
    message.append(error);
    state.set_processing(false);
    state.set_last_response(Some(message.clone()));
    message
}

/// A capture that was answered: the answer becomes the last response.
pub fn capture_answered(state: &mut AppState, response: String)
    ensures
        final(state)@ == after_capture_answer(old(state)@, response@),
{
    state.set_last_response(Some(response));
    state.set_processing(false);
}

/// However a capture that was started ends, it is no longer processing,
/// the user sees the answer or the error, and nothing else in the state
/// has changed since before it started.
pub proof fn lemma_capture_ends_settled(s: StateView, answer: Seq<char>, error: Seq<char>)
    ensures
        !after_capture_answer(capture_start_state(s), answer).is_processing,
        !after_capture_failure(capture_start_state(s), error).is_processing,
        after_capture_answer(capture_start_state(s), answer).last_response == Some(answer),
        after_capture_failure(capture_start_state(s), error).last_response == Some(
            error_text(error),
        ),
        after_capture_answer(capture_start_state(s), answer) == after_capture_answer(s, answer),
        after_capture_failure(capture_start_state(s), error) == after_capture_failure(s, error),
{
}

} // verus!
