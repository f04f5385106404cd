use mushak::config::vk;
use mushak::config::{Action, ButtonMap, Config, GestureConfig, Modifier, MouseButton, Profile};
use mushak::gestures::{classify, handle_buttons, handle_raw_xy, GestureDetector, Outcome};
use mushak::hidpp::device::{DeviceCommand, StatusUpdate};
use mushak::hook::{classify as classify_message, hook_decision, HookVerdict, WM_MBUTTONDOWN, WM_XBUTTONDOWN, WM_XBUTTONUP};
use mushak::injector::{chord_events, KeyEvent, INJECT_SIGNATURE, VK_CONTROL, VK_LWIN, VK_SHIFT};
use mushak::profiles::{basename, resolve_button_map};
use mushak::state;

fn ctrl_w() -> Action {
    Action::key(&[Modifier::Ctrl], vk::letter(b'W'))
}

fn browser_profile() -> Profile {
    Profile {
        name: "Browser".to_string(),
        match_processes: vec!["chrome.exe".to_string()],
        buttons: ButtonMap { back: ctrl_w(), forward: Action::Disabled, middle: Action::PassThrough },
    }
}

fn config_with_browser() -> Config {
    let mut cfg = Config::default();
    cfg.profiles.push(browser_profile());
    cfg
}

#[test]
fn small_movement_is_a_tap_and_large_movement_a_swipe() {
    assert_eq!(classify(10, -20, 60), Outcome::Tap);
    assert_eq!(classify(100, 20, 60), Outcome::Right);
    assert_eq!(classify(-100, 20, 60), Outcome::Left);
    assert_eq!(classify(10, -90, 60), Outcome::Up);
    assert_eq!(classify(10, 90, 60), Outcome::Down);
    // A diagonal of equal extent goes horizontal.
    assert_eq!(classify(-70, 70, 60), Outcome::Left);
}

#[test]
fn press_move_release_fires_the_swipe_action_once() {
    let g = GestureConfig::default();
    let mut det = GestureDetector::new();
    assert_eq!(handle_buttons(&mut det, true, &g), None);
    assert!(handle_raw_xy(&mut det, 0, -50));
    assert!(handle_raw_xy(&mut det, 5, -50));
    let fired = handle_buttons(&mut det, false, &g);
    assert_eq!(fired, Some(Action::key(&[], vk::VOLUME_UP)));
    // Released: further motion is not accumulated and a second release fires nothing.
    assert!(!handle_raw_xy(&mut det, 0, -50));
    assert_eq!(handle_buttons(&mut det, false, &g), None);
}

#[test]
fn a_press_without_movement_is_the_tap_action() {
    let g = GestureConfig::default();
    let mut det = GestureDetector::new();
    handle_buttons(&mut det, true, &g);
    assert_eq!(handle_buttons(&mut det, false, &g), Some(Action::key(&[Modifier::Win], vk::TAB)));
}

#[test]
fn mouse_messages_are_classified() {
    assert_eq!(classify_message(WM_MBUTTONDOWN, 0), Some((MouseButton::Middle, true)));
    assert_eq!(classify_message(WM_XBUTTONDOWN, 1 << 16), Some((MouseButton::Back, true)));
    assert_eq!(classify_message(WM_XBUTTONUP, 2 << 16), Some((MouseButton::Forward, false)));
    assert_eq!(classify_message(WM_XBUTTONUP, 3 << 16), None);
    assert_eq!(classify_message(0x0200, 0), None);
}

#[test]
fn a_remapped_button_is_swallowed_down_and_up_and_injected_once() {
    let map = browser_profile().buttons;
    let down = hook_decision(true, false, 0, WM_XBUTTONDOWN, 1 << 16, &map);
    assert_eq!(down, HookVerdict::SwallowAndInject(ctrl_w()));
    let up = hook_decision(true, false, 0, WM_XBUTTONUP, 1 << 16, &map);
    assert_eq!(up, HookVerdict::Swallow);
    let disabled = hook_decision(true, false, 0, WM_XBUTTONDOWN, 2 << 16, &map);
    assert_eq!(disabled, HookVerdict::Swallow);
    let native = hook_decision(true, false, 0, WM_MBUTTONDOWN, 0, &map);
    assert_eq!(native, HookVerdict::CallNext);
}

#[test]
fn paused_or_self_injected_input_passes_through() {
    let map = browser_profile().buttons;
    assert_eq!(hook_decision(true, true, 0, WM_XBUTTONDOWN, 1 << 16, &map), HookVerdict::CallNext);
    assert_eq!(
        hook_decision(true, false, INJECT_SIGNATURE, WM_XBUTTONDOWN, 1 << 16, &map),
        HookVerdict::CallNext
    );
    assert_eq!(hook_decision(false, false, 0, WM_XBUTTONDOWN, 1 << 16, &map), HookVerdict::CallNext);
}

#[test]
fn a_chord_holds_modifiers_around_the_key_and_releases_in_reverse() {
    let action = Action::key(&[Modifier::Ctrl, Modifier::Shift], vk::letter(b'T'));
    let events = chord_events(&action);
    let expect = vec![
        KeyEvent { vk: VK_CONTROL, up: false },
        KeyEvent { vk: VK_SHIFT, up: false },
        KeyEvent { vk: 0x54, up: false },
        KeyEvent { vk: 0x54, up: true },
        KeyEvent { vk: VK_SHIFT, up: true },
        KeyEvent { vk: VK_CONTROL, up: true },
    ];
    assert_eq!(events, expect);
    assert!(chord_events(&Action::PassThrough).is_empty());
    let win_d = chord_events(&Action::key(&[Modifier::Win], 0x44));
    assert_eq!(win_d.first(), Some(&KeyEvent { vk: VK_LWIN, up: false }));
}

#[test]
fn letters_map_to_their_upper_case_key_codes() {
    assert_eq!(vk::letter(b'w'), 0x57);
    assert_eq!(vk::letter(b'W'), 0x57);
    assert_eq!(vk::letter(b'5'), 0x35);
}

#[test]
fn the_first_matching_profile_wins_ignoring_case() {
    let mut cfg = config_with_browser();
    let mut second = browser_profile();
    second.name = "Second".to_string();
    second.buttons.back = Action::Disabled;
    cfg.profiles.push(second);
    assert_eq!(resolve_button_map(&cfg, Some("CHROME.EXE")).back, ctrl_w());
    assert_eq!(resolve_button_map(&cfg, Some("notepad.exe")).back, Action::PassThrough);
    assert_eq!(resolve_button_map(&cfg, None).back, Action::PassThrough);
}

#[test]
fn a_process_path_is_reduced_to_its_executable() {
    assert_eq!(basename("C:\\Program Files\\Google\\chrome.exe"), "chrome.exe");
    assert_eq!(basename("/usr/bin/app"), "app");
    assert_eq!(basename("plain.exe"), "plain.exe");
}

#[test]
fn switching_foreground_window_switches_the_active_map() {
    let (mut st, cmd) = state::init(config_with_browser(), Some("chrome.exe"), false);
    assert_eq!(cmd, None);
    assert_eq!(state::active_map(&st).back, ctrl_w());
    let cmd = state::reevaluate_active_profile(&mut st, Some("explorer.exe"), false);
    assert_eq!(cmd, None);
    assert_eq!(state::active_map(&st).back, Action::PassThrough);
}

#[test]
fn an_elevated_window_without_helper_falls_back_to_native_wheel() {
    let (mut st, cmd) = state::init(Config::default(), None, true);
    assert_eq!(cmd, Some(DeviceCommand::ApplyWheelMode));
    assert!(state::wheel_native_fallback(&st));
    // The helper arrives: injection can reach the window again.
    assert_eq!(state::set_uiaccess_helper_available(&mut st, true), Some(DeviceCommand::ApplyWheelMode));
    assert!(!state::wheel_native_fallback(&st));
    assert!(state::wheel_needs_uiaccess_helper(&st));
    // Setting the same availability again changes nothing.
    assert_eq!(state::set_uiaccess_helper_available(&mut st, true), None);
}

#[test]
fn a_failed_injection_falls_back_until_the_foreground_changes() {
    let (mut st, _) = state::init(Config::default(), None, false);
    assert_eq!(state::report_wheel_injection_failure(&mut st), Some(DeviceCommand::ApplyWheelMode));
    assert!(state::wheel_native_fallback(&st));
    assert_eq!(state::report_wheel_injection_failure(&mut st), None);
    assert_eq!(
        state::reevaluate_active_profile(&mut st, Some("notepad.exe"), false),
        Some(DeviceCommand::ApplyWheelMode)
    );
    assert!(!state::wheel_native_fallback(&st));
}

#[test]
fn pausing_and_status_updates() {
    let (mut st, _) = state::init(Config::default(), None, false);
    assert!(!state::is_paused(&st));
    state::set_paused(&mut st, true);
    assert!(state::is_paused(&st));
    state::update_device_status(&mut st, StatusUpdate::Battery { percent: 42, charging: true });
    assert_eq!(state::device_status(&st).battery_percent, Some(42));
    assert!(state::device_status(&st).charging);
    state::update_device_status(&mut st, StatusUpdate::Disconnected);
    assert!(!state::device_status(&st).connected);
}

#[test]
fn nothing_is_queued_without_a_worker() {
    let ch = state::Channels::new();
    assert!(!state::inject(&ch, ctrl_w()));
    assert!(!state::device_command(&ch, DeviceCommand::Shutdown));
}
