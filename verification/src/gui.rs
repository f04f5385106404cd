//! The settings window's logic: the action vocabulary, the look-and-feel
//! preferences, and the text and decisions its widgets show. Drawing the
//! window is the program's job.

pub mod actions;
pub mod device_tab;
pub mod picker;
pub mod profiles_tab;
pub mod theme;
pub mod uiprefs;
pub mod widgets;

use crate::config::{
    eq_ignore_ascii_case, profiles_view, str_eq_ignore_ascii_case, strings_view, Config, ConfigView,
    ProfileView,
};
use vstd::prelude::*;

verus! {

/// The window's sections, in rail order.
#[derive(Debug, Clone, Copy, PartialEq, Eq, Structural)]
pub enum Section {
    Buttons,
    Scroll,
    Gestures,
    Profiles,
    Device,
}

pub open spec fn section_label(s: Section) -> Seq<char> {
    match s {
        Section::Buttons => "Buttons"@,
        Section::Scroll => "Scroll"@,
        Section::Gestures => "Gestures"@,
        Section::Profiles => "Profiles"@,
        Section::Device => "Device"@,
    }
}

pub open spec fn section_id(s: Section) -> Seq<char> {
    match s {
        Section::Buttons => "nav_buttons"@,
        Section::Scroll => "nav_scroll"@,
        Section::Gestures => "nav_gestures"@,
        Section::Profiles => "nav_profiles"@,
        Section::Device => "nav_device"@,
    }
}

impl Section {
    /// Every section, in rail order.
    pub fn all() -> (r: [Section; 5])
        ensures
            r@ == seq![Section::Buttons, Section::Scroll, Section::Gestures, Section::Profiles, Section::Device],
    {
        let r = [Section::Buttons, Section::Scroll, Section::Gestures, Section::Profiles, Section::Device];
        assert(r@ =~= seq![Section::Buttons, Section::Scroll, Section::Gestures, Section::Profiles, Section::Device]);
        r
    }

    pub fn label(self) -> (r: &'static str)
        ensures
            r@ == section_label(self),
    {
        match self {
            Section::Buttons => "Buttons",
            Section::Scroll => "Scroll",
            Section::Gestures => "Gestures",
            Section::Profiles => "Profiles",
            Section::Device => "Device",
        }
    }

    /// The element id of the section's rail entry.
    pub fn id(self) -> (r: &'static str)
        ensures
            r@ == section_id(self),
    {
        match self {
            Section::Buttons => "nav_buttons",
            Section::Scroll => "nav_scroll",
            Section::Gestures => "nav_gestures",
            Section::Profiles => "nav_profiles",
            Section::Device => "nav_device",
        }
    }
}

/// Scroll, Gestures and Device read live values, so they dim to an "asleep"
/// card while the mouse is not reachable.
pub fn mouse_awake(status: &crate::hidpp::device::DeviceStatus) -> (r: bool)
    ensures
        r == status.connected,
{
    status.connected
}

/// The conflict banner shows while conflicting drivers run and the user has
/// not dismissed it.
pub fn show_conflict(conflict_names: &Vec<String>, dismissed: bool) -> (r: bool)
    ensures
        r == (conflict_names@.len() > 0 && !dismissed),
{
    conflict_names.len() > 0 && !dismissed
}

/// The names the profile selector lists: the default profile first (index
/// 0), then the app profiles in order (index `n` is `profiles[n - 1]`).
pub open spec fn profile_names_of(cfg: ConfigView) -> Seq<Seq<char>> {
    seq![cfg.default_profile.name] + cfg.profiles.map_values(|p: ProfileView| p.name)
}

pub fn profile_names(cfg: &Config) -> (r: Vec<String>)
    ensures
        strings_view(r@) == profile_names_of(cfg@),
{
    let mut names: Vec<String> = Vec::new();
    names.push(cfg.default_profile.name.clone());
    let mut i: usize = 0;
    while i < cfg.profiles.len()
        invariant
            i <= cfg.profiles.len(),
            names@.len() == i + 1,
            names@[0]@ == cfg.default_profile.name@,
            forall|k: int| 0 <= k < i ==> #[trigger] names@[k + 1]@ == cfg.profiles@[k].name@,
        decreases cfg.profiles.len() - i,
    {
        names.push(cfg.profiles[i].name.clone());
        i = i + 1;
    }
    assert forall|k: int| 0 <= k < names@.len() implies #[trigger] strings_view(names@)[k]
        == profile_names_of(cfg@)[k] by {
        if k > 0 {
            assert(names@[(k - 1) + 1]@ == cfg.profiles@[k - 1].name@);
        }
    }
    assert(strings_view(names@) =~= profile_names_of(cfg@));
    names
}

/// The profile at selector index `idx`.
pub open spec fn profile_at(cfg: ConfigView, idx: int) -> Option<ProfileView> {
    if idx == 0 {
        Some(cfg.default_profile)
    } else if 1 <= idx <= cfg.profiles.len() {
        Some(cfg.profiles[idx - 1])
    } else {
        None
    }
}

pub open spec fn with_match(p: ProfileView, process: Seq<char>) -> ProfileView {
    ProfileView { name: p.name, match_processes: p.match_processes.push(process), buttons: p.buttons }
}

/// Whether picking the window of `process` adds it to profile `target`: not
/// our own executable, an existing profile, and not already listed (names
/// compare ignoring ASCII case).
pub open spec fn captures(cfg: ConfigView, target: int, process: Seq<char>, own_exe: Seq<char>) -> bool {
    &&& !eq_ignore_ascii_case(process, own_exe)
    &&& profile_at(cfg, target) matches Some(p)
    &&& !p.matches(process)
}

/// The configuration with `process` added to the matches of profile `target`.
pub open spec fn captured(cfg: ConfigView, target: int, process: Seq<char>) -> ConfigView {
    if target == 0 {
        ConfigView { default_profile: with_match(cfg.default_profile, process), ..cfg }
    } else {
        ConfigView {
            profiles: cfg.profiles.update(target - 1, with_match(cfg.profiles[target - 1], process)),
            ..cfg
        }
    }
}

/// Record the picked foreground window's process as a match of profile
/// `target`. Returns whether the configuration changed (and so must be
/// saved).
pub fn capture_process(cfg: &mut Config, target: usize, process: &str, own_exe: &str) -> (r: bool)
    ensures
        r == captures(old(cfg)@, target as int, process@, own_exe@),
        r ==> final(cfg)@ == captured(old(cfg)@, target as int, process@),
        !r ==> final(cfg)@ == old(cfg)@,
{
    if str_eq_ignore_ascii_case(process, own_exe) {
        return false;
    }
    if target == 0 {
        if cfg.default_profile.matches(process) {
            return false;
        }
        cfg.default_profile.match_processes.push(process.to_owned());
        assert(cfg@.default_profile.match_processes =~= old(cfg)@.default_profile.match_processes.push(
            process@,
        ));
        true
    } else if target - 1 < cfg.profiles.len() {
        let i = target - 1;
        if cfg.profiles[i].matches(process) {
            return false;
        }
        let mut p = cfg.profiles[i].clone();
        p.match_processes.push(process.to_owned());
        assert(p@.match_processes =~= old(cfg)@.profiles[i as int].match_processes.push(process@));
        cfg.profiles.set(i, p);
        assert(cfg@.profiles =~= old(cfg)@.profiles.update(
            i as int,
            with_match(old(cfg)@.profiles[i as int], process@),
        ));
        true
    } else {
        false
    }
}

} // verus!

verus! {

/// Picking the same window again adds nothing: once a process is captured
/// for a profile, capturing it for that profile again is refused.
pub proof fn lemma_capture_is_idempotent(cfg: ConfigView, target: int, process: Seq<char>, own_exe: Seq<char>)
    requires
        captures(cfg, target, process, own_exe),
    ensures
        !captures(captured(cfg, target, process), target, process, own_exe),
{
    let after = captured(cfg, target, process);
    let p = profile_at(after, target).unwrap();
    let k = p.match_processes.len() - 1;
    assert(p.match_processes[k] == process);
    assert(eq_ignore_ascii_case(p.match_processes[k], process));
}

} // verus!
