use mushak::config::vk;
use mushak::config::{Action, Config, Modifier, Profile};
use mushak::conflicts::{conflict_name, detect, kill_all, wide_to_string, ConflictProc, KillOutcome};
use mushak::gui::actions::{display, key_name, presets, Category, Kind};
use mushak::gui::theme::{Accent, Theme};
use mushak::gui::uiprefs::UiPrefs;
use mushak::gui::widgets::{banner_subtitle, banner_title, battery_level, battery_text, status_label, BatteryLevel};
use mushak::gui::{capture_process, profile_names, show_conflict};
use mushak::hidpp::device::DeviceStatus;
use mushak::resident::tray_battery_text;
use mushak::startup::{run_value, to_wide_bytes, Mechanism};
use mushak::uiaccess::handshake_ok;
use mushak::gui::profiles_tab::{add_profile, delete_profile, move_profile_down, move_profile_up};
use mushak::gui::profiles_tab::{pick_countdown, remove_match};
use mushak::gui::device_tab::{dpi_slider_range, feature_id_text, feature_name, slider_dpi};
use mushak::gui::picker::{group_hits, quick_matches, PickerTarget};
use mushak::gui::picker::toggle_mod;

use mushak::uiaccess::wire::{decode_delta, encode_delta, valid_delta};
use mushak::uiaccess::wire::{RateWindow, MAX_MESSAGES_PER_SECOND};
use mushak::resident::LoopTimers;
use mushak::resident::{after_reload, config_changed};

#[test]
fn a_wide_buffer_stops_at_its_nul() {
    let mut buf = [0u16; 16];
    for (i, c) in "lghub.exe".encode_utf16().enumerate() {
        buf[i] = c;
    }
    assert_eq!(wide_to_string(&buf), "lghub.exe");
    assert_eq!(wide_to_string(&[0x41, 0x42]), "AB");
    assert_eq!(wide_to_string(&[0xD83D, 0xDE00, 0, 0x41]), "\u{1F600}");
    assert_eq!(wide_to_string(&[0xD800, 0x41, 0xDC00]), "\u{FFFD}A\u{FFFD}");
}

#[test]
fn logitech_drivers_are_recognised_case_insensitively() {
    assert_eq!(conflict_name("LogiOptionsPlus_Agent.exe"), Some("logioptionsplus_agent.exe".to_string()));
    assert_eq!(conflict_name("lghub_agent.exe"), Some("lghub_agent.exe".to_string()));
    assert_eq!(conflict_name("Logi Options.exe"), Some("logi options.exe".to_string()));
    assert_eq!(conflict_name("explorer.exe"), None);
}

#[test]
fn conflicting_names_are_listed_once_in_order() {
    let names = vec![
        "logioptionsplus_agent.exe".to_string(),
        "lghub.exe".to_string(),
        "logioptionsplus_agent.exe".to_string(),
    ];
    assert_eq!(detect(names), vec!["lghub.exe".to_string(), "logioptionsplus_agent.exe".to_string()]);
}

#[test]
fn terminations_are_tallied() {
    let proc = |pid: u32, name: &str| ConflictProc { pid, name: name.to_string() };
    let outcome = kill_all(vec![
        (proc(1, "a.exe"), Ok(())),
        (proc(2, "b.exe"), Err("Access is denied.".to_string())),
        (proc(3, "c.exe"), Ok(())),
    ]);
    assert_eq!(outcome.killed, 2);
    assert_eq!(outcome.failed, vec![("b.exe".to_string(), "Access is denied.".to_string())]);
    assert!(!outcome.all_gone());
    assert!(kill_all(vec![]).all_gone());
}

#[test]
fn the_preset_list_follows_the_design() {
    let list = presets();
    assert_eq!(list.len(), 24);
    assert_eq!(list[0].label, "Copy");
    assert_eq!(list[0].keys, vec!["Ctrl", "C"]);
    assert_eq!(list[8].action, Action::key(&[Modifier::Ctrl, Modifier::Shift], 0x54));
    assert_eq!(list[23].label, "Previous track");
    assert!(list[23].cat == Category::Media);
    assert_eq!(Category::order()[1].label(), "Navigation");
}

#[test]
fn a_preset_action_shows_its_name() {
    let d = display(&Action::key(&[Modifier::Ctrl], vk::letter(b'C')));
    assert_eq!(d.label, "Copy");
    assert_eq!(d.keys, vec!["Ctrl".to_string(), "C".to_string()]);
    assert!(d.kind == Kind::Preset);
    let back = display(&Action::key(&[Modifier::Alt], vk::LEFT));
    assert_eq!(back.label, "Back");
    assert_eq!(back.keys, vec!["Alt".to_string(), "\u{2190}".to_string()]);
}

#[test]
fn a_custom_combo_shows_only_keycaps_in_design_order() {
    let d = display(&Action::key(&[Modifier::Shift, Modifier::Ctrl], 0x71));
    assert_eq!(d.label, "");
    assert_eq!(d.keys, vec!["Ctrl".to_string(), "Shift".to_string(), "F2".to_string()]);
    assert!(d.kind == Kind::Custom);
    let raw = display(&Action::key(&[Modifier::Win, Modifier::Alt], 0x07));
    assert_eq!(raw.keys, vec!["Win".to_string(), "Alt".to_string(), "0x07".to_string()]);
}

#[test]
fn pass_through_and_disabled_show_a_word() {
    let p = display(&Action::PassThrough);
    assert_eq!(p.label, "Pass through");
    assert!(p.keys.is_empty() && p.kind == Kind::PassThrough);
    let d = display(&Action::Disabled);
    assert_eq!(d.label, "Disabled");
    assert!(d.kind == Kind::Disabled);
}

#[test]
fn key_names() {
    assert_eq!(key_name(vk::TAB), "Tab");
    assert_eq!(key_name(vk::VOLUME_DOWN), "Vol\u{2212}");
    assert_eq!(key_name(0x20), "Space");
    assert_eq!(key_name(0x4B), "K");
    assert_eq!(key_name(0x7B), "F12");
    assert_eq!(key_name(0x70), "F1");
    assert_eq!(key_name(0x0C), "0x0c");
    assert_eq!(key_name(0x1FF), "0x1ff");
}

#[test]
fn the_theme_toggles_back_and_forth() {
    assert!(Theme::Dark.toggled() == Theme::Light);
    assert!(Theme::Dark.toggled().toggled() == Theme::Dark);
    let mut prefs = UiPrefs::default();
    assert!(prefs.theme == Theme::Dark && prefs.accent == Accent::Vermilion);
    prefs.toggle_theme();
    assert!(prefs.theme == Theme::Light && prefs.accent == Accent::Vermilion);
    assert_eq!(Accent::Vermilion.rgb(), 0xe5533c);
    assert!(UiPrefs::load(None).theme == Theme::Dark);
}

#[test]
fn the_status_card_reads_the_device() {
    assert_eq!(status_label(true, true), "Paused");
    assert_eq!(status_label(false, false), "Asleep");
    assert_eq!(status_label(false, true), "Connected");
    assert!(battery_level(Some(20)) == BatteryLevel::Low);
    assert!(battery_level(Some(45)) == BatteryLevel::Medium);
    assert!(battery_level(Some(46)) == BatteryLevel::Good);
    assert!(battery_level(None) == BatteryLevel::Good);
    assert_eq!(battery_text(Some(57), true), "57%");
    assert_eq!(battery_text(Some(57), false), "\u{2014}");
    assert_eq!(battery_text(None, true), "\u{2014}");
}

#[test]
fn the_conflict_banner_names_the_drivers_and_what_happened() {
    let names = vec!["lghub.exe".to_string(), "logioptionsplus_agent.exe".to_string()];
    assert_eq!(banner_title(&names), "lghub.exe, logioptionsplus_agent.exe is running");
    let failed = KillOutcome { killed: 1, failed: vec![("lghub.exe".to_string(), "Access is denied.".to_string())] };
    assert_eq!(banner_subtitle(Some(&failed)), "Could not quit lghub.exe: Access is denied.");
    let advice = "It fights Mushak for control of the mouse. Quit it so your mappings take effect reliably.";
    assert_eq!(banner_subtitle(None), advice);
    assert_eq!(banner_subtitle(Some(&KillOutcome { killed: 2, failed: vec![] })), advice);
    assert!(show_conflict(&names, false));
    assert!(!show_conflict(&names, true));
    assert!(!show_conflict(&vec![], false));
}

#[test]
fn picking_a_window_adds_its_process_once() {
    let mut cfg = Config::default();
    cfg.profiles.push(Profile { name: "Work".to_string(), match_processes: vec![], buttons: Default::default() });
    assert_eq!(profile_names(&cfg), vec!["Default".to_string(), "Work".to_string()]);
    assert!(capture_process(&mut cfg, 1, "Code.exe", "mushak.exe"));
    assert_eq!(cfg.profiles[0].match_processes, vec!["Code.exe".to_string()]);
    assert!(!capture_process(&mut cfg, 1, "code.EXE", "mushak.exe"));
    assert!(!capture_process(&mut cfg, 1, "MUSHAK.exe", "mushak.exe"));
    assert!(!capture_process(&mut cfg, 5, "other.exe", "mushak.exe"));
    assert!(capture_process(&mut cfg, 0, "other.exe", "mushak.exe"));
    assert_eq!(cfg.default_profile.match_processes, vec!["other.exe".to_string()]);
}

#[test]
fn the_tray_battery_line() {
    let mut s = DeviceStatus::default();
    assert_eq!(tray_battery_text(&s), "Device: disconnected");
    s.connected = true;
    assert_eq!(tray_battery_text(&s), "Battery: unknown");
    s.battery_percent = Some(80);
    assert_eq!(tray_battery_text(&s), "Battery: 80%");
    s.charging = true;
    assert_eq!(tray_battery_text(&s), "Battery: 80% (charging)");
}

#[test]
fn startup_picks_the_mechanism_for_the_build() {
    assert!(mushak::startup::set(true, true).mechanism == Mechanism::StartupTask);
    assert!(mushak::startup::set(false, false).mechanism == Mechanism::RunKey);
    assert!(!mushak::startup::set(false, false).enabled);
    assert_eq!(run_value("C:\\Apps\\mushak.exe"), "\"C:\\Apps\\mushak.exe\"");
}

#[test]
fn registry_strings_are_utf16le_with_a_terminator() {
    assert_eq!(to_wide_bytes("A"), vec![0x41, 0, 0, 0]);
    let expect: Vec<u8> = "\u{e9}\u{1F600}"
        .encode_utf16()
        .chain(std::iter::once(0))
        .flat_map(|u| u.to_le_bytes())
        .collect();
    assert_eq!(to_wide_bytes("\u{e9}\u{1F600}"), expect);
}

#[test]
fn the_helper_handshake_must_match_exactly() {
    assert!(handshake_ok("MUSHAK_UIACCESS_WHEEL_V1\r\n"));
    assert!(handshake_ok("MUSHAK_UIACCESS_WHEEL_V1"));
    assert!(!handshake_ok(""));
    assert!(!handshake_ok("MUSHAK_UIACCESS_WHEEL_V2\n"));
    assert!(!handshake_ok(" MUSHAK_UIACCESS_WHEEL_V1"));
}

#[test]
fn config_lives_under_appdata() {
    let base = "C:\\Users\\me\\AppData\\Roaming";
    let p = Config::path(Some(base)).unwrap();
    assert!(p.starts_with(base) && p.len() > base.len());
    assert!(p.ends_with("config.toml"));
    assert!(p.contains("Mushak"));
    assert!(Config::path(None).is_err());
    assert_eq!(Config::load(None).default_profile.name, "Default");
}

fn named(name: &str) -> Profile {
    Profile { name: name.to_string(), match_processes: vec![], buttons: Default::default() }
}

fn names_of(cfg: &Config) -> Vec<String> {
    cfg.profiles.iter().map(|p| p.name.clone()).collect()
}

#[test]
fn profiles_are_added_moved_and_deleted() {
    let mut cfg = Config::default();
    add_profile(&mut cfg);
    assert_eq!(names_of(&cfg), vec!["New profile".to_string()]);
    cfg.profiles[0].name = "A".to_string();
    cfg.profiles.push(named("B"));
    cfg.profiles.push(named("C"));
    // Row 3 is "C": up swaps it with "B".
    assert!(move_profile_up(&mut cfg, 3));
    assert_eq!(names_of(&cfg), vec!["A", "C", "B"]);
    // And back down restores the order.
    assert!(move_profile_down(&mut cfg, 2));
    assert_eq!(names_of(&cfg), vec!["A", "B", "C"]);
    // The first row cannot move up, the last cannot move down.
    assert!(!move_profile_up(&mut cfg, 1));
    assert!(!move_profile_down(&mut cfg, 3));
    assert!(!move_profile_down(&mut cfg, 0));
    // Deleting keeps a selection that still exists, else falls back to the default row.
    assert_eq!(delete_profile(&mut cfg, 1, 2), 2);
    assert_eq!(names_of(&cfg), vec!["B", "C"]);
    assert_eq!(delete_profile(&mut cfg, 2, 2), 0);
    assert_eq!(names_of(&cfg), vec!["B"]);
    assert_eq!(delete_profile(&mut cfg, 0, 1), 1);
    assert_eq!(names_of(&cfg), vec!["B"]);
}

#[test]
fn a_matched_process_is_removed_from_its_row() {
    let mut cfg = Config::default();
    let mut p = named("Work");
    p.match_processes = vec!["a.exe".to_string(), "b.exe".to_string()];
    cfg.profiles.push(p);
    assert!(remove_match(&mut cfg, 1, 0));
    assert_eq!(cfg.profiles[0].match_processes, vec!["b.exe".to_string()]);
    assert!(!remove_match(&mut cfg, 1, 5));
    assert!(!remove_match(&mut cfg, 0, 0));
    assert!(!remove_match(&mut cfg, 7, 0));
    assert_eq!(pick_countdown(3), "Click a window\u{2026} 3s");
}

#[test]
fn device_tab_readings() {
    assert_eq!(feature_name(0x2121), "Hi-res wheel");
    assert_eq!(feature_name(0x1b04), "Reprogrammable controls v4");
    assert_eq!(feature_name(0x4242), "Unknown");
    assert_eq!(dpi_slider_range(&vec![200, 400, 4000]), (200, 4000));
    assert_eq!(dpi_slider_range(&vec![1000]), (200, 4000));
    assert_eq!(dpi_slider_range(&vec![]), (200, 4000));
    assert_eq!(slider_dpi(100, (200, 4000)), 200);
    assert_eq!(slider_dpi(5000, (200, 4000)), 4000);
    assert_eq!(slider_dpi(1000, (200, 4000)), 1000);
    assert_eq!(feature_id_text(0x1b04), "0x1b04");
    assert_eq!(feature_id_text(0x0001), "0x0001");
}

#[test]
fn the_picker_searches_names_keycaps_and_groups() {
    assert_eq!(PickerTarget::Button("back".to_string()).label(), "Back button");
    assert_eq!(PickerTarget::Button("middle".to_string()).label(), "Middle click");
    assert_eq!(PickerTarget::Gesture("left".to_string()).label(), "Swipe left");
    assert_eq!(PickerTarget::Gesture("right".to_string()).label(), "Swipe right");
    // Everything shows for an empty search.
    assert_eq!(group_hits(Category::Edit, ""), vec![0, 1, 2, 3, 4]);
    // Found by name ...
    assert_eq!(group_hits(Category::Navigation, "tab"), vec![5, 7, 8]);
    // ... by keycaps ...
    assert_eq!(group_hits(Category::Edit, "ctrl z"), vec![3]);
    // ... and by group name.
    assert_eq!(group_hits(Category::Media, "media"), vec![18, 19, 20, 21, 22, 23]);
    assert!(group_hits(Category::System, "nothing like this").is_empty());
    assert!(quick_matches(0, "normal"));
    assert!(quick_matches(1, "disab"));
    assert!(!quick_matches(1, "normal"));
    assert!(quick_matches(1, ""));
}

#[test]
fn custom_modifiers_toggle() {
    let mut mods = vec![Modifier::Ctrl];
    toggle_mod(&mut mods, Modifier::Shift);
    assert_eq!(mods, vec![Modifier::Ctrl, Modifier::Shift]);
    toggle_mod(&mut mods, Modifier::Ctrl);
    assert_eq!(mods, vec![Modifier::Shift]);
    toggle_mod(&mut mods, Modifier::Shift);
    assert!(mods.is_empty());
}

#[test]
fn the_rail_lists_the_sections_in_order() {
    let labels: Vec<&str> = mushak::gui::Section::all().iter().map(|s| s.label()).collect();
    assert_eq!(labels, vec!["Buttons", "Scroll", "Gestures", "Profiles", "Device"]);
    assert_eq!(mushak::gui::Section::Device.id(), "nav_device");
    let mut status = DeviceStatus::default();
    assert!(!mushak::gui::mouse_awake(&status));
    status.connected = true;
    assert!(mushak::gui::mouse_awake(&status));
}

#[test]
fn wheel_deltas_cross_the_helper_pipe_unchanged() {
    for d in [1, -1, 120, -120, 7680, -7680, i32::MAX, i32::MIN, 0] {
        assert_eq!(encode_delta(d), d.to_le_bytes());
        assert_eq!(decode_delta(encode_delta(d)), d);
    }
    assert!(valid_delta(120) && valid_delta(-7680) && valid_delta(7680));
    assert!(!valid_delta(0) && !valid_delta(7681) && !valid_delta(-7681));
}

#[test]
fn the_helper_takes_at_most_its_rate_per_second() {
    let mut w = RateWindow::new(0);
    for _ in 0..MAX_MESSAGES_PER_SECOND {
        assert!(w.accept(500));
    }
    assert!(!w.accept(999));
    // A new second starts a new window.
    let mut w = RateWindow::new(0);
    for _ in 0..MAX_MESSAGES_PER_SECOND {
        assert!(w.accept(10));
    }
    assert!(w.accept(1010));
    assert_eq!(w.messages, 1);
}

#[test]
fn a_failed_wheel_hand_off_restarts_the_helper() {
    assert!(mushak::uiaccess::restart_needed(false));
    assert!(!mushak::uiaccess::restart_needed(true));
    let reset = mushak::channel::Signal::new();
    assert!(!mushak::uiaccess::wheel(None, &reset, 120));
    assert!(reset.take());
    assert!(!reset.is_raised());
}

#[test]
fn the_resident_publishes_and_checks_on_its_own_periods() {
    let mut t = LoopTimers::new(0);
    let w = t.tick(499);
    assert!(!w.write_status && !w.check_config);
    let w = t.tick(500);
    assert!(!w.write_status && w.check_config);
    let w = t.tick(999);
    assert!(!w.write_status && !w.check_config);
    let w = t.tick(1000);
    assert!(w.write_status && w.check_config);
    assert_eq!((t.last_status_ms, t.last_config_check_ms), (1000, 1000));
}

#[test]
fn an_unparsed_config_edit_is_retried() {
    let mut known = Some((10, 0));
    let current = Some((11, 5));
    assert!(config_changed(known, current));
    after_reload(&mut known, current, false);
    assert!(config_changed(known, current));
    after_reload(&mut known, current, true);
    assert!(!config_changed(known, current));
    assert!(!config_changed(None, None));
    assert!(config_changed(None, current));
}
