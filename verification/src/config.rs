//! Configuration model.
//!
//! The config is serialization-friendly: every enum uses either unit variants
//! or an internally-tagged `kind` field so the resulting `config.toml` stays
//! human-editable (the program around the library reads and writes the file).

pub mod vk;

use vstd::prelude::*;

verus! {

/// Keyboard modifier keys that can accompany a remapped action.
#[derive(Debug, Clone, Copy, PartialEq, Eq, Structural)]
pub enum Modifier {
    Ctrl,
    Alt,
    Shift,
    Win,
}

/// What a button / gesture outcome does when triggered.
///
/// Every concrete action reduces to a synthesized key chord, so a single `Key`
/// variant models plain shortcuts, media keys, volume keys, virtual-desktop
/// switches and task view. `mods` may be empty.
#[derive(Debug, PartialEq, Eq)]
pub enum Action {
    /// Let the native OS event through untouched.
    PassThrough,
    /// Swallow the event and do nothing.
    Disabled,
    /// Synthesize a key chord (`mods` held while `vk` is tapped).
    Key {
        mods: Vec<Modifier>,
        /// Windows virtual-key code (e.g. 0x57 == 'W').
        vk: u16,
    },
}

/// The value of an [`Action`].
pub enum ActionView {
    PassThrough,
    Disabled,
    Key { mods: Seq<Modifier>, vk: u16 },
}

impl View for Action {
    type V = ActionView;

    open spec fn view(&self) -> ActionView {
        match self {
            Action::PassThrough => ActionView::PassThrough,
            Action::Disabled => ActionView::Disabled,
            Action::Key { mods, vk } => ActionView::Key { mods: mods@, vk: *vk },
        }
    }
}

/// Copy a modifier list.
pub fn copy_mods(mods: &[Modifier]) -> (r: Vec<Modifier>)
    ensures
        r@ == mods@,
{
    let mut r: Vec<Modifier> = Vec::new();
    let mut i: usize = 0;
    while i < mods.len()
        invariant
            i <= mods.len(),
            r@ == mods@.take(i as int),
        decreases mods.len() - i,
    {
        r.push(mods[i]);
        i = i + 1;
        assert(r@ =~= mods@.take(i as int));
    }
    assert(mods@.take(mods.len() as int) =~= mods@);
    r
}

impl Clone for Action {
    fn clone(&self) -> (r: Self)
        ensures
            r@ == self@,
    {
        match self {
            Action::PassThrough => Action::PassThrough,
            Action::Disabled => Action::Disabled,
            Action::Key { mods, vk } => Action::Key { mods: copy_mods(mods.as_slice()), vk: *vk },
        }
    }
}

impl Action {
    /// A key chord action.
    pub fn key(mods: &[Modifier], vk: u16) -> (r: Self)
        ensures
            r@ == (ActionView::Key { mods: mods@, vk }),
    {
        Action::Key { mods: copy_mods(mods), vk }
    }

    /// True when this action replaces the native event (so the up-event of a
    /// physical button should also be swallowed).
    pub fn intercepts(&self) -> (r: bool)
        ensures
            r == !(self@ is PassThrough),
    {
        !matches!(self, Action::PassThrough)
    }

    /// Whether two actions are the same action.
    pub fn same_as(&self, other: &Action) -> (r: bool)
        ensures
            r == (self@ == other@),
    {
        match (self, other) {
            (Action::PassThrough, Action::PassThrough) => true,
            (Action::Disabled, Action::Disabled) => true,
            (Action::Key { mods: m1, vk: v1 }, Action::Key { mods: m2, vk: v2 }) => {
                if *v1 != *v2 || m1.len() != m2.len() {
                    return false;
                }
                let mut i: usize = 0;
                while i < m1.len()
                    invariant
                        self@ == (ActionView::Key { mods: m1@, vk: *v1 }),
                        other@ == (ActionView::Key { mods: m2@, vk: *v2 }),
                        *v1 == *v2,
                        m1@.len() == m2@.len(),
                        i <= m1.len(),
                        forall|k: int| 0 <= k < i ==> m1@[k] == m2@[k],
                    decreases m1.len() - i,
                {
                    let a = m1[i];
                    let b = m2[i];
                    if a != b {
                        assert(m1@[i as int] != m2@[i as int]);
                        return false;
                    }
                    i = i + 1;
                }
                assert(m1@ =~= m2@);
                true
            },
            _ => false,
        }
    }
}

impl Default for Action {
    fn default() -> (r: Self)
        ensures
            r@ == ActionView::PassThrough,
    {
        Action::PassThrough
    }
}

/// The three hook-remappable physical buttons on the MX Master 2S.
#[derive(Debug, Clone, Copy, PartialEq, Eq, Hash, Structural)]
pub enum MouseButton {
    /// Side "back" button (XBUTTON1).
    Back,
    /// Side "forward" button (XBUTTON2).
    Forward,
    /// Wheel / middle click.
    Middle,
}

/// Actions for the hook-remappable buttons within a single profile.
#[derive(Debug, PartialEq, Eq)]
pub struct ButtonMap {
    pub back: Action,
    pub forward: Action,
    pub middle: Action,
}

pub struct ButtonMapView {
    pub back: ActionView,
    pub forward: ActionView,
    pub middle: ActionView,
}

impl View for ButtonMap {
    type V = ButtonMapView;

    open spec fn view(&self) -> ButtonMapView {
        ButtonMapView { back: self.back@, forward: self.forward@, middle: self.middle@ }
    }
}

impl Clone for ButtonMap {
    fn clone(&self) -> (r: Self)
        ensures
            r@ == self@,
    {
        ButtonMap { back: self.back.clone(), forward: self.forward.clone(), middle: self.middle.clone() }
    }
}

impl Default for ButtonMap {
    fn default() -> (r: Self)
        ensures
            r@ == (ButtonMapView {
                back: ActionView::PassThrough,
                forward: ActionView::PassThrough,
                middle: ActionView::PassThrough,
            }),
    {
        ButtonMap { back: Action::PassThrough, forward: Action::PassThrough, middle: Action::PassThrough }
    }
}

impl ButtonMapView {
    /// The action mapped to `button`.
    pub open spec fn action(self, button: MouseButton) -> ActionView {
        match button {
            MouseButton::Back => self.back,
            MouseButton::Forward => self.forward,
            MouseButton::Middle => self.middle,
        }
    }
}

impl ButtonMap {
    pub fn get(&self, button: MouseButton) -> (r: &Action)
        ensures
            r@ == self@.action(button),
    {
        match button {
            MouseButton::Back => &self.back,
            MouseButton::Forward => &self.forward,
            MouseButton::Middle => &self.middle,
        }
    }
}

/// The character code `c` has once ASCII upper-case letters are lowered.
pub open spec fn lower_code(c: char) -> int {
    if 65 <= c as int <= 90 {
        c as int + 32
    } else {
        c as int
    }
}

/// Equal after ASCII lower-casing both, as comparing `to_ascii_lowercase`
/// copies does.
pub open spec fn eq_ignore_ascii_case(a: Seq<char>, b: Seq<char>) -> bool {
    &&& a.len() == b.len()
    &&& forall|i: int| 0 <= i < a.len() ==> lower_code(#[trigger] a[i]) == lower_code(b[i])
}

/// A character's code with ASCII upper-case lowered.
pub fn lower_char_code(c: char) -> (r: u32)
    ensures
        r == lower_code(c),
{
    let v = c as u32;
    if 65 <= v && v <= 90 {
        v + 32
    } else {
        v
    }
}

/// Compare two strings ignoring ASCII case.
pub fn str_eq_ignore_ascii_case(a: &str, b: &str) -> (r: bool)
    ensures
        r == eq_ignore_ascii_case(a@, b@),
{
    let n = a.unicode_len();
    if n != b.unicode_len() {
        return false;
    }
    let mut i: usize = 0;
    while i < n
        invariant
            n == a@.len(),
            n == b@.len(),
            i <= n,
            forall|k: int| 0 <= k < i ==> lower_code(#[trigger] a@[k]) == lower_code(b@[k]),
        decreases n - i,
    {
        if lower_char_code(a.get_char(i)) != lower_char_code(b.get_char(i)) {
            return false;
        }
        i = i + 1;
    }
    true
}

/// A named profile. The default profile has an empty `match_processes`; app
/// profiles list one or more executable basenames (case-insensitive, e.g.
/// `"chrome.exe"`).
#[derive(Debug, PartialEq, Eq)]
pub struct Profile {
    pub name: String,
    pub match_processes: Vec<String>,
    pub buttons: ButtonMap,
}

pub struct ProfileView {
    pub name: Seq<char>,
    pub match_processes: Seq<Seq<char>>,
    pub buttons: ButtonMapView,
}

pub open spec fn strings_view(v: Seq<String>) -> Seq<Seq<char>> {
    v.map_values(|s: String| s@)
}

impl View for Profile {
    type V = ProfileView;

    open spec fn view(&self) -> ProfileView {
        ProfileView {
            name: self.name@,
            match_processes: strings_view(self.match_processes@),
            buttons: self.buttons@,
        }
    }
}

/// Copy a list of strings.
pub fn copy_strings(v: &Vec<String>) -> (r: Vec<String>)
    ensures
        strings_view(r@) == strings_view(v@),
        r@.len() == v@.len(),
{
    let mut r: Vec<String> = Vec::new();
    let mut i: usize = 0;
    while i < v.len()
        invariant
            i <= v.len(),
            r@.len() == i,
            forall|k: int| 0 <= k < i ==> #[trigger] r@[k]@ == v@[k]@,
        decreases v.len() - i,
    {
        r.push(v[i].clone());
        i = i + 1;
    }
    assert(strings_view(r@) =~= strings_view(v@));
    r
}

impl Clone for Profile {
    fn clone(&self) -> (r: Self)
        ensures
            r@ == self@,
    {
        Profile {
            name: self.name.clone(),
            match_processes: copy_strings(&self.match_processes),
            buttons: self.buttons.clone(),
        }
    }
}

impl ProfileView {
    /// The profile lists `process` (compared ignoring ASCII case).
    pub open spec fn matches(self, process: Seq<char>) -> bool {
        exists|i: int|
            0 <= i < self.match_processes.len() && eq_ignore_ascii_case(
                #[trigger] self.match_processes[i],
                process,
            )
    }
}

impl Profile {
    pub fn matches(&self, process: &str) -> (r: bool)
        ensures
            r == self@.matches(process@),
            forall|i: int|
                0 <= i < self.match_processes@.len() && eq_ignore_ascii_case(
                    #[trigger] self.match_processes@[i]@,
                    process@,
                ) ==> r,
    {
        proof {
            assert forall|i: int|
                0 <= i < self.match_processes@.len() && eq_ignore_ascii_case(
                    #[trigger] self.match_processes@[i]@,
                    process@,
                ) implies self@.matches(process@) by {
                assert(self@.match_processes[i] == self.match_processes@[i]@);
                lemma_listed_entry_matches(self@, process@, i);
            }
        }
        let mut i: usize = 0;
        while i < self.match_processes.len()
            invariant
                i <= self.match_processes.len(),
                forall|k: int|
                    0 <= k < i ==> !eq_ignore_ascii_case(
                        #[trigger] strings_view(self.match_processes@)[k],
                        process@,
                    ),
            decreases self.match_processes.len() - i,
        {
            if str_eq_ignore_ascii_case(self.match_processes[i].as_str(), process) {
                assert(self@.match_processes[i as int] == self.match_processes@[i as int]@);
                assert(eq_ignore_ascii_case(self@.match_processes[i as int], process@));
                return true;
            }
            i = i + 1;
        }
        false
    }
}

/// SmartShift wheel behavior (HID++ feature 0x2110).
#[derive(Debug, Clone, Copy, PartialEq, Eq, Structural)]
pub enum SmartShiftMode {
    /// Permanent ratchet (`autoDisengage = 255`).
    AlwaysRatchet,
    /// Permanent freespin (`wheelMode = freespin`).
    AlwaysFreespin,
    /// Auto-disengage based on a sensitivity threshold.
    SmartShift,
}

impl Default for SmartShiftMode {
    fn default() -> (r: Self)
        ensures
            r == SmartShiftMode::SmartShift,
    {
        SmartShiftMode::SmartShift
    }
}

/// Device-side settings applied over HID++ on launch / reconnect.
#[derive(Debug, Clone, Copy, PartialEq, Eq, Structural)]
pub struct DeviceConfig {
    pub smartshift: SmartShiftMode,
    /// Auto-disengage threshold 1..=30 (only used in `SmartShift` mode).
    pub smartshift_threshold: u8,
    /// High-resolution (smooth) scrolling on/off.
    pub hires_scroll: bool,
    /// Invert vertical scroll direction.
    pub invert_scroll: bool,
    /// Resolution in DPI (validated against the device's supported list).
    pub dpi: u16,
    /// How far the wheel must move, in high-resolution increments, before a
    /// scroll counts as deliberate. 0 disables the deadzone. Only applies while
    /// `hires_scroll` is on.
    pub scroll_deadzone: u8,
}

impl Default for DeviceConfig {
    fn default() -> (r: Self)
        ensures
            r == (DeviceConfig {
                smartshift: SmartShiftMode::SmartShift,
                smartshift_threshold: 10,
                hires_scroll: true,
                invert_scroll: false,
                dpi: 1000,
                scroll_deadzone: 4,
            }),
    {
        DeviceConfig {
            smartshift: SmartShiftMode::SmartShift,
            smartshift_threshold: 10,
            hires_scroll: true,
            invert_scroll: false,
            dpi: 1000,
            // Half a detent: an accidental nudge is a unit or two, a deliberate
            // detent is a full 8 and so still scrolls on the very first click.
            scroll_deadzone: 4,
        }
    }
}

/// Software gesture configuration (thumb button, HID++ 0x1B04 divert).
#[derive(Debug, PartialEq, Eq)]
pub struct GestureConfig {
    /// Master enable for the gesture button divert.
    pub enabled: bool,
    /// Movement (in accumulated raw units) below which a press counts as a tap.
    pub tap_threshold: i32,
    pub tap: Action,
    pub up: Action,
    pub down: Action,
    pub left: Action,
    pub right: Action,
}

pub struct GestureConfigView {
    pub enabled: bool,
    pub tap_threshold: i32,
    pub tap: ActionView,
    pub up: ActionView,
    pub down: ActionView,
    pub left: ActionView,
    pub right: ActionView,
}

impl View for GestureConfig {
    type V = GestureConfigView;

    open spec fn view(&self) -> GestureConfigView {
        GestureConfigView {
            enabled: self.enabled,
            tap_threshold: self.tap_threshold,
            tap: self.tap@,
            up: self.up@,
            down: self.down@,
            left: self.left@,
            right: self.right@,
        }
    }
}

impl Clone for GestureConfig {
    fn clone(&self) -> (r: Self)
        ensures
            r@ == self@,
    {
        GestureConfig {
            enabled: self.enabled,
            tap_threshold: self.tap_threshold,
            tap: self.tap.clone(),
            up: self.up.clone(),
            down: self.down.clone(),
            left: self.left.clone(),
            right: self.right.clone(),
        }
    }
}

impl Default for GestureConfig {
    /// Options+-like defaults: tap = task view, left/right = switch desktop,
    /// up/down = volume.
    fn default() -> (r: Self)
        ensures
            r@ == (GestureConfigView {
                enabled: true,
                tap_threshold: 60,
                tap: ActionView::Key { mods: seq![Modifier::Win], vk: vk::TAB },
                up: ActionView::Key { mods: seq![], vk: vk::VOLUME_UP },
                down: ActionView::Key { mods: seq![], vk: vk::VOLUME_DOWN },
                left: ActionView::Key { mods: seq![Modifier::Win, Modifier::Ctrl], vk: vk::LEFT },
                right: ActionView::Key { mods: seq![Modifier::Win, Modifier::Ctrl], vk: vk::RIGHT },
            }),
    {
        let win = [Modifier::Win];
        let none: [Modifier; 0] = [];
        let win_ctrl = [Modifier::Win, Modifier::Ctrl];
        let r = GestureConfig {
            enabled: true,
            tap_threshold: 60,
            tap: Action::key(&win, vk::TAB),
            up: Action::key(&none, vk::VOLUME_UP),
            down: Action::key(&none, vk::VOLUME_DOWN),
            left: Action::key(&win_ctrl, vk::LEFT),
            right: Action::key(&win_ctrl, vk::RIGHT),
        };
        assert(win@ =~= seq![Modifier::Win]);
        assert(none@ =~= Seq::<Modifier>::empty());
        assert(win_ctrl@ =~= seq![Modifier::Win, Modifier::Ctrl]);
        r
    }
}

/// Top-level persisted configuration.
#[derive(Debug, PartialEq, Eq)]
pub struct Config {
    pub default_profile: Profile,
    pub profiles: Vec<Profile>,
    pub device: DeviceConfig,
    pub gestures: GestureConfig,
    pub start_with_windows: bool,
}

pub struct ConfigView {
    pub default_profile: ProfileView,
    pub profiles: Seq<ProfileView>,
    pub device: DeviceConfig,
    pub gestures: GestureConfigView,
    pub start_with_windows: bool,
}

pub open spec fn profiles_view(v: Seq<Profile>) -> Seq<ProfileView> {
    v.map_values(|p: Profile| p@)
}

impl View for Config {
    type V = ConfigView;

    open spec fn view(&self) -> ConfigView {
        ConfigView {
            default_profile: self.default_profile@,
            profiles: profiles_view(self.profiles@),
            device: self.device,
            gestures: self.gestures@,
            start_with_windows: self.start_with_windows,
        }
    }
}

/// Copy a list of profiles.
pub fn copy_profiles(v: &Vec<Profile>) -> (r: Vec<Profile>)
    ensures
        profiles_view(r@) == profiles_view(v@),
{
    let mut r: Vec<Profile> = Vec::new();
    let mut i: usize = 0;
    while i < v.len()
        invariant
            i <= v.len(),
            r@.len() == i,
            forall|k: int| 0 <= k < i ==> #[trigger] r@[k]@ == v@[k]@,
        decreases v.len() - i,
    {
        r.push(v[i].clone());
        i = i + 1;
    }
    assert(profiles_view(r@) =~= profiles_view(v@));
    r
}

impl Clone for Config {
    fn clone(&self) -> (r: Self)
        ensures
            r@ == self@,
    {
        Config {
            default_profile: self.default_profile.clone(),
            profiles: copy_profiles(&self.profiles),
            device: self.device,
            gestures: self.gestures.clone(),
            start_with_windows: self.start_with_windows,
        }
    }
}

impl Default for Config {
    fn default() -> (r: Self)
        ensures
            r@.default_profile.name == "Default"@,
            r@.default_profile.match_processes == Seq::<Seq<char>>::empty(),
            r@.default_profile.buttons == (ButtonMapView {
                back: ActionView::PassThrough,
                forward: ActionView::PassThrough,
                middle: ActionView::PassThrough,
            }),
            r@.profiles == Seq::<ProfileView>::empty(),
            r.device == DeviceConfig::default_spec(),
            r.gestures@ == GestureConfig::default_spec(),
            !r.start_with_windows,
            r@ == Config::default_view(),
    {
        let r = Config {
            default_profile: Profile {
                name: String::from_str("Default"),
                match_processes: Vec::new(),
                buttons: ButtonMap::default(),
            },
            profiles: Vec::new(),
            device: DeviceConfig::default(),
            gestures: GestureConfig::default(),
            start_with_windows: false,
        };
        assert(r@.default_profile.match_processes =~= Seq::<Seq<char>>::empty());
        assert(r@.profiles =~= Seq::<ProfileView>::empty());
        r
    }
}

impl DeviceConfig {
    /// The default device settings.
    pub open spec fn default_spec() -> DeviceConfig {
        DeviceConfig {
            smartshift: SmartShiftMode::SmartShift,
            smartshift_threshold: 10,
            hires_scroll: true,
            invert_scroll: false,
            dpi: 1000,
            scroll_deadzone: 4,
        }
    }
}

impl GestureConfig {
    /// The default gesture settings.
    pub open spec fn default_spec() -> GestureConfigView {
        GestureConfigView {
            enabled: true,
            tap_threshold: 60,
            tap: ActionView::Key { mods: seq![Modifier::Win], vk: vk::TAB },
            up: ActionView::Key { mods: seq![], vk: vk::VOLUME_UP },
            down: ActionView::Key { mods: seq![], vk: vk::VOLUME_DOWN },
            left: ActionView::Key { mods: seq![Modifier::Win, Modifier::Ctrl], vk: vk::LEFT },
            right: ActionView::Key { mods: seq![Modifier::Win, Modifier::Ctrl], vk: vk::RIGHT },
        }
    }
}

impl Config {
    /// The default configuration.
    pub open spec fn default_view() -> ConfigView {
        ConfigView {
            default_profile: ProfileView {
                name: "Default"@,
                match_processes: Seq::empty(),
                buttons: ButtonMapView {
                    back: ActionView::PassThrough,
                    forward: ActionView::PassThrough,
                    middle: ActionView::PassThrough,
                },
            },
            profiles: Seq::empty(),
            device: DeviceConfig::default_spec(),
            gestures: GestureConfig::default_spec(),
            start_with_windows: false,
        }
    }
}

/// The result of std's `Path::join`: `part` under the directory `base`.
pub uninterp spec fn path_join(base: Seq<char>, part: Seq<char>) -> Seq<char>;

/// `std::path::Path::join`, on paths held as strings.
///
/// Trusted: the contract claims only that the joined path is a function of
/// the two paths (named [`path_join`]); where a separator goes is std's.
#[verifier::external_body]
pub(crate) fn join_path(base: &str, part: &str) -> (r: String)
    ensures
        r@ == path_join(base@, part@),
{
    std::path::Path::new(base).join(part).to_string_lossy().into_owned()
}

/// Why the configuration's location is unknown.
#[derive(Debug, Clone, Copy, PartialEq, Eq, Structural)]
pub enum ConfigError {
    /// The `APPDATA` environment variable is not set.
    NoAppData,
}

/// `%APPDATA%\Mushak`.
pub open spec fn app_dir_of(appdata: Seq<char>) -> Seq<char> {
    path_join(appdata, "Mushak"@)
}

/// The program's data directory under `appdata` (the value of `APPDATA`,
/// when it is set).
pub fn app_dir(appdata: Option<&str>) -> (r: Result<String, ConfigError>)
    ensures
        match appdata {
            Some(a) => r matches Ok(d) && d@ == app_dir_of(a@),
            None => r == Err::<String, ConfigError>(ConfigError::NoAppData),
        },
{
    match appdata {
        Some(a) => Ok(join_path(a, "Mushak")),
        None => Err(ConfigError::NoAppData),
    }
}

impl Config {
    /// `%APPDATA%\Mushak\config.toml`.
    pub fn path(appdata: Option<&str>) -> (r: Result<String, ConfigError>)
        ensures
            match appdata {
                Some(a) => r matches Ok(p) && p@ == path_join(app_dir_of(a@), "config.toml"@),
                None => r == Err::<String, ConfigError>(ConfigError::NoAppData),
            },
    {
        match app_dir(appdata) {
            Ok(dir) => Ok(join_path(dir.as_str(), "config.toml")),
            Err(e) => Err(e),
        }
    }

    /// The configuration to run with: the file's, when it was there and
    /// parsed, else the defaults (a missing file gets the defaults written
    /// out; a broken one is left for the user to fix).
    pub fn load(parsed: Option<Config>) -> (r: Config)
        ensures
            r@ == match parsed {
                Some(c) => c@,
                None => Config::default_view(),
            },
    {
        match parsed {
            Some(c) => c,
            None => Config::default(),
        }
    }
}

/// A profile matches a process when any one of the executables it lists,
/// whatever its position, equals the process name ignoring ASCII case; and it
/// matches only through such an entry.
pub proof fn lemma_listed_entry_matches(p: ProfileView, process: Seq<char>, i: int)
    ensures
        0 <= i < p.match_processes.len() && eq_ignore_ascii_case(p.match_processes[i], process)
            ==> p.matches(process),
        p.matches(process) ==> exists|j: int|
            0 <= j < p.match_processes.len() && eq_ignore_ascii_case(#[trigger] p.match_processes[j], process),
{
}

} // verus!
