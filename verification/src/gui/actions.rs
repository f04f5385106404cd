//! The action vocabulary shared by the Buttons and Gestures sections and the
//! action picker: the preset list, how an action renders as keycaps, and the
//! grouping the picker shows.

use crate::config::vk;
use crate::config::{strings_view, Action, ActionView, Modifier};
use crate::text::{decimal, empty_string, hex_prefixed2, push_char, push_decimal, push_hex_prefixed2};
use vstd::prelude::*;

verus! {

/// Picker groups, in the order the design lists them.
#[derive(Debug, Clone, Copy, PartialEq, Eq, Structural)]
pub enum Category {
    Edit,
    Navigation,
    System,
    Media,
}

pub open spec fn category_label(c: Category) -> Seq<char> {
    match c {
        Category::Edit => "Edit"@,
        Category::Navigation => "Navigation"@,
        Category::System => "System"@,
        Category::Media => "Media"@,
    }
}

impl Category {
    /// The groups in display order.
    pub fn order() -> (r: [Category; 4])
        ensures
            r@ == seq![Category::Edit, Category::Navigation, Category::System, Category::Media],
    {
        let r = [Category::Edit, Category::Navigation, Category::System, Category::Media];
        assert(r@ =~= seq![Category::Edit, Category::Navigation, Category::System, Category::Media]);
        r
    }

    pub fn label(self) -> (r: &'static str)
        ensures
            r@ == category_label(self),
    {
        match self {
            Category::Edit => "Edit",
            Category::Navigation => "Navigation",
            Category::System => "System",
            Category::Media => "Media",
        }
    }
}

/// A named preset the picker offers.
pub struct Preset {
    pub label: &'static str,
    pub cat: Category,
    /// Keycaps as the design draws them.
    pub keys: Vec<&'static str>,
    pub action: Action,
}

pub struct PresetView {
    pub label: Seq<char>,
    pub cat: Category,
    pub keys: Seq<Seq<char>>,
    pub action: ActionView,
}

pub open spec fn strs_view(v: Seq<&str>) -> Seq<Seq<char>> {
    v.map_values(|s: &str| s@)
}

impl View for Preset {
    type V = PresetView;

    open spec fn view(&self) -> PresetView {
        PresetView { label: self.label@, cat: self.cat, keys: strs_view(self.keys@), action: self.action@ }
    }
}

/// The number of presets.
pub open spec fn preset_count() -> int {
    24
}

pub open spec fn chord(mods: Seq<Modifier>, vk: u16) -> ActionView {
    ActionView::Key { mods, vk }
}

pub open spec fn pv(label: Seq<char>, cat: Category, keys: Seq<Seq<char>>, action: ActionView) -> PresetView {
    PresetView { label, cat, keys, action }
}

/// The preset list, transcribed from the design.
pub open spec fn preset_table(i: int) -> PresetView {
    if i == 0 {
        pv("Copy"@, Category::Edit, seq!["Ctrl"@, "C"@], chord(seq![Modifier::Ctrl], 0x43))
    } else if i == 1 {
        pv("Paste"@, Category::Edit, seq!["Ctrl"@, "V"@], chord(seq![Modifier::Ctrl], 0x56))
    } else if i == 2 {
        pv("Cut"@, Category::Edit, seq!["Ctrl"@, "X"@], chord(seq![Modifier::Ctrl], 0x58))
    } else if i == 3 {
        pv("Undo"@, Category::Edit, seq!["Ctrl"@, "Z"@], chord(seq![Modifier::Ctrl], 0x5A))
    } else if i == 4 {
        pv("Redo"@, Category::Edit, seq!["Ctrl"@, "Y"@], chord(seq![Modifier::Ctrl], 0x59))
    } else if i == 5 {
        pv("Close tab"@, Category::Navigation, seq!["Ctrl"@, "W"@], chord(seq![Modifier::Ctrl], 0x57))
    } else if i == 6 {
        pv("New"@, Category::Navigation, seq!["Ctrl"@, "N"@], chord(seq![Modifier::Ctrl], 0x4E))
    } else if i == 7 {
        pv("New tab"@, Category::Navigation, seq!["Ctrl"@, "T"@], chord(seq![Modifier::Ctrl], 0x54))
    } else if i == 8 {
        pv(
            "Reopen tab"@,
            Category::Navigation,
            seq!["Ctrl"@, "Shift"@, "T"@],
            chord(seq![Modifier::Ctrl, Modifier::Shift], 0x54),
        )
    } else if i == 9 {
        pv("Find"@, Category::Navigation, seq!["Ctrl"@, "F"@], chord(seq![Modifier::Ctrl], 0x46))
    } else if i == 10 {
        pv("Back"@, Category::Navigation, seq!["Alt"@, "\u{2190}"@], chord(seq![Modifier::Alt], vk::LEFT))
    } else if i == 11 {
        pv("Forward"@, Category::Navigation, seq!["Alt"@, "\u{2192}"@], chord(seq![Modifier::Alt], vk::RIGHT))
    } else if i == 12 {
        pv("Browser back"@, Category::Navigation, seq!["\u{21E4}"@], chord(seq![], vk::BROWSER_BACK))
    } else if i == 13 {
        pv("Browser forward"@, Category::Navigation, seq!["\u{21E5}"@], chord(seq![], vk::BROWSER_FORWARD))
    } else if i == 14 {
        pv("Task View"@, Category::System, seq!["Win"@, "Tab"@], chord(seq![Modifier::Win], vk::TAB))
    } else if i == 15 {
        pv(
            "Desktop left"@,
            Category::System,
            seq!["Ctrl"@, "Win"@, "\u{2190}"@],
            chord(seq![Modifier::Win, Modifier::Ctrl], vk::LEFT),
        )
    } else if i == 16 {
        pv(
            "Desktop right"@,
            Category::System,
            seq!["Ctrl"@, "Win"@, "\u{2192}"@],
            chord(seq![Modifier::Win, Modifier::Ctrl], vk::RIGHT),
        )
    } else if i == 17 {
        pv("Show desktop"@, Category::System, seq!["Win"@, "D"@], chord(seq![Modifier::Win], 0x44))
    } else if i == 18 {
        pv("Volume up"@, Category::Media, seq!["Vol+"@], chord(seq![], vk::VOLUME_UP))
    } else if i == 19 {
        pv("Volume down"@, Category::Media, seq!["Vol\u{2212}"@], chord(seq![], vk::VOLUME_DOWN))
    } else if i == 20 {
        pv("Mute"@, Category::Media, seq!["Mute"@], chord(seq![], vk::VOLUME_MUTE))
    } else if i == 21 {
        pv("Play / pause"@, Category::Media, seq!["Play"@], chord(seq![], vk::MEDIA_PLAY_PAUSE))
    } else if i == 22 {
        pv("Next track"@, Category::Media, seq!["Next"@], chord(seq![], vk::MEDIA_NEXT))
    } else {
        pv("Previous track"@, Category::Media, seq!["Prev"@], chord(seq![], vk::MEDIA_PREV))
    }
}

fn keys1(a: &'static str) -> (r: Vec<&'static str>)
    ensures
        strs_view(r@) == seq![a@],
{
    let r = vec![a];
    assert(strs_view(r@) =~= seq![a@]);
    r
}

fn keys2(a: &'static str, b: &'static str) -> (r: Vec<&'static str>)
    ensures
        strs_view(r@) == seq![a@, b@],
{
    let r = vec![a, b];
    assert(strs_view(r@) =~= seq![a@, b@]);
    r
}

fn keys3(a: &'static str, b: &'static str, c: &'static str) -> (r: Vec<&'static str>)
    ensures
        strs_view(r@) == seq![a@, b@, c@],
{
    let r = vec![a, b, c];
    assert(strs_view(r@) =~= seq![a@, b@, c@]);
    r
}

fn chord0(vk: u16) -> (r: Action)
    ensures
        r@ == chord(seq![], vk),
{
    let r = Action::key(&[], vk);
    assert(r@ == chord(seq![], vk)) by {
        if let ActionView::Key { mods, .. } = r@ {
            assert(mods =~= seq![]);
        }
    }
    r
}

fn chord1(m: Modifier, vk: u16) -> (r: Action)
    ensures
        r@ == chord(seq![m], vk),
{
    let r = Action::key(&[m], vk);
    assert(r@ == chord(seq![m], vk)) by {
        if let ActionView::Key { mods, .. } = r@ {
            assert(mods =~= seq![m]);
        }
    }
    r
}

fn chord2(m1: Modifier, m2: Modifier, vk: u16) -> (r: Action)
    ensures
        r@ == chord(seq![m1, m2], vk),
{
    let r = Action::key(&[m1, m2], vk);
    assert(r@ == chord(seq![m1, m2], vk)) by {
        if let ActionView::Key { mods, .. } = r@ {
            assert(mods =~= seq![m1, m2]);
        }
    }
    r
}

/// Append the next entry of the table.
fn push_preset(r: &mut Vec<Preset>, label: &'static str, cat: Category, keys: Vec<&'static str>, action: Action)
    requires
        old(r)@.len() < preset_count(),
        forall|i: int| 0 <= i < old(r)@.len() ==> #[trigger] old(r)@[i]@ == preset_table(i),
        pv(label@, cat, strs_view(keys@), action@) == preset_table(old(r)@.len() as int),
    ensures
        final(r)@.len() == old(r)@.len() + 1,
        forall|i: int| 0 <= i < final(r)@.len() ==> #[trigger] final(r)@[i]@ == preset_table(i),
{
    r.push(Preset { label, cat, keys, action });
}

/// The preset list, in the design's order.
pub fn presets() -> (r: Vec<Preset>)
    ensures
        r@.len() == preset_count(),
        forall|i: int| 0 <= i < preset_count() ==> #[trigger] r@[i]@ == preset_table(i),
{
    let mut r: Vec<Preset> = Vec::new();
    push_preset(
        &mut r,
        "Copy",
        Category::Edit,
        keys2("Ctrl", "C"),
        chord1(Modifier::Ctrl, vk::letter(0x43)),
    );
    push_preset(
        &mut r,
        "Paste",
        Category::Edit,
        keys2("Ctrl", "V"),
        chord1(Modifier::Ctrl, vk::letter(0x56)),
    );
    push_preset(
        &mut r,
        "Cut",
        Category::Edit,
        keys2("Ctrl", "X"),
        chord1(Modifier::Ctrl, vk::letter(0x58)),
    );
    push_preset(
        &mut r,
        "Undo",
        Category::Edit,
        keys2("Ctrl", "Z"),
        chord1(Modifier::Ctrl, vk::letter(0x5A)),
    );
    push_preset(
        &mut r,
        "Redo",
        Category::Edit,
        keys2("Ctrl", "Y"),
        chord1(Modifier::Ctrl, vk::letter(0x59)),
    );
    push_preset(
        &mut r,
        "Close tab",
        Category::Navigation,
        keys2("Ctrl", "W"),
        chord1(Modifier::Ctrl, vk::letter(0x57)),
    );
    push_preset(
        &mut r,
        "New",
        Category::Navigation,
        keys2("Ctrl", "N"),
        chord1(Modifier::Ctrl, vk::letter(0x4E)),
    );
    push_preset(
        &mut r,
        "New tab",
        Category::Navigation,
        keys2("Ctrl", "T"),
        chord1(Modifier::Ctrl, vk::letter(0x54)),
    );
    push_preset(
        &mut r,
        "Reopen tab",
        Category::Navigation,
        keys3("Ctrl", "Shift", "T"),
        chord2(Modifier::Ctrl, Modifier::Shift, vk::letter(0x54)),
    );
    push_preset(
        &mut r,
        "Find",
        Category::Navigation,
        keys2("Ctrl", "F"),
        chord1(Modifier::Ctrl, vk::letter(0x46)),
    );
    push_preset(
        &mut r,
        "Back",
        Category::Navigation,
        keys2("Alt", "\u{2190}"),
        chord1(Modifier::Alt, vk::LEFT),
    );
    push_preset(
        &mut r,
        "Forward",
        Category::Navigation,
        keys2("Alt", "\u{2192}"),
        chord1(Modifier::Alt, vk::RIGHT),
    );
    push_preset(
        &mut r,
        "Browser back",
        Category::Navigation,
        keys1("\u{21E4}"),
        chord0(vk::BROWSER_BACK),
    );
    push_preset(
        &mut r,
        "Browser forward",
        Category::Navigation,
        keys1("\u{21E5}"),
        chord0(vk::BROWSER_FORWARD),
    );
    push_preset(
        &mut r,
        "Task View",
        Category::System,
        keys2("Win", "Tab"),
        chord1(Modifier::Win, vk::TAB),
    );
    push_preset(
        &mut r,
        "Desktop left",
        Category::System,
        keys3("Ctrl", "Win", "\u{2190}"),
        chord2(Modifier::Win, Modifier::Ctrl, vk::LEFT),
    );
    push_preset(
        &mut r,
        "Desktop right",
        Category::System,
        keys3("Ctrl", "Win", "\u{2192}"),
        chord2(Modifier::Win, Modifier::Ctrl, vk::RIGHT),
    );
    push_preset(
        &mut r,
        "Show desktop",
        Category::System,
        keys2("Win", "D"),
        chord1(Modifier::Win, vk::letter(0x44)),
    );
    push_preset(
        &mut r,
        "Volume up",
        Category::Media,
        keys1("Vol+"),
        chord0(vk::VOLUME_UP),
    );
    push_preset(
        &mut r,
        "Volume down",
        Category::Media,
        keys1("Vol\u{2212}"),
        chord0(vk::VOLUME_DOWN),
    );
    push_preset(
        &mut r,
        "Mute",
        Category::Media,
        keys1("Mute"),
        chord0(vk::VOLUME_MUTE),
    );
    push_preset(
        &mut r,
        "Play / pause",
        Category::Media,
        keys1("Play"),
        chord0(vk::MEDIA_PLAY_PAUSE),
    );
    push_preset(
        &mut r,
        "Next track",
        Category::Media,
        keys1("Next"),
        chord0(vk::MEDIA_NEXT),
    );
    push_preset(
        &mut r,
        "Previous track",
        Category::Media,
        keys1("Prev"),
        chord0(vk::MEDIA_PREV),
    );
    r
}

#[derive(Debug, Clone, Copy, PartialEq, Eq, Structural)]
pub enum Kind {
    PassThrough,
    Disabled,
    Preset,
    Custom,
}

/// How an action renders in a chip or picker row.
pub struct Display {
    pub label: String,
    pub keys: Vec<String>,
    pub kind: Kind,
}

pub struct DisplayView {
    pub label: Seq<char>,
    pub keys: Seq<Seq<char>>,
    pub kind: Kind,
}

impl View for Display {
    type V = DisplayView;

    open spec fn view(&self) -> DisplayView {
        DisplayView { label: self.label@, keys: strings_view(self.keys@), kind: self.kind }
    }
}

/// The keycap name of a virtual-key code, for custom combos.
pub open spec fn key_name_of(code: u16) -> Seq<char> {
    if code == vk::TAB {
        "Tab"@
    } else if code == vk::ENTER {
        "Enter"@
    } else if code == vk::ESCAPE {
        "Esc"@
    } else if code == vk::LEFT {
        "\u{2190}"@
    } else if code == vk::RIGHT {
        "\u{2192}"@
    } else if code == vk::UP {
        "\u{2191}"@
    } else if code == vk::DOWN {
        "\u{2193}"@
    } else if code == vk::VOLUME_UP {
        "Vol+"@
    } else if code == vk::VOLUME_DOWN {
        "Vol\u{2212}"@
    } else if code == vk::VOLUME_MUTE {
        "Mute"@
    } else if code == vk::MEDIA_PLAY_PAUSE {
        "Play"@
    } else if code == vk::MEDIA_NEXT {
        "Next"@
    } else if code == vk::MEDIA_PREV {
        "Prev"@
    } else if code == vk::MEDIA_STOP {
        "Stop"@
    } else if code == 0x20 {
        "Space"@
    } else if 0x41 <= code <= 0x5A {
        seq![code as char]
    } else if 0x70 <= code <= 0x7B {
        seq!['F'] + decimal((code - 0x70 + 1) as nat)
    } else {
        hex_prefixed2(code as nat)
    }
}

fn owned(s: &str) -> (r: String)
    ensures
        r@ == s@,
{
    s.to_owned()
}

/// Human name for a virtual-key code, for custom combos.
pub fn key_name(code: u16) -> (r: String)
    ensures
        r@ == key_name_of(code),
{
    if code == vk::TAB {
        owned("Tab")
    } else if code == vk::ENTER {
        owned("Enter")
    } else if code == vk::ESCAPE {
        owned("Esc")
    } else if code == vk::LEFT {
        owned("\u{2190}")
    } else if code == vk::RIGHT {
        owned("\u{2192}")
    } else if code == vk::UP {
        owned("\u{2191}")
    } else if code == vk::DOWN {
        owned("\u{2193}")
    } else if code == vk::VOLUME_UP {
        owned("Vol+")
    } else if code == vk::VOLUME_DOWN {
        owned("Vol\u{2212}")
    } else if code == vk::VOLUME_MUTE {
        owned("Mute")
    } else if code == vk::MEDIA_PLAY_PAUSE {
        owned("Play")
    } else if code == vk::MEDIA_NEXT {
        owned("Next")
    } else if code == vk::MEDIA_PREV {
        owned("Prev")
    } else if code == vk::MEDIA_STOP {
        owned("Stop")
    } else if code == 0x20 {
        owned("Space")
    } else if 0x41 <= code && code <= 0x5A {
        let mut s = empty_string();
        push_char(&mut s, (code as u8) as char);
        assert(s@ =~= seq![code as char]);
        s
    } else if 0x70 <= code && code <= 0x7B {
        let mut s = empty_string();
        push_char(&mut s, 'F');
        push_decimal(&mut s, (code - 0x70 + 1) as u32);
        assert(s@ =~= seq!['F'] + decimal((code - 0x70 + 1) as nat));
        s
    } else {
        let mut s = empty_string();
        push_hex_prefixed2(&mut s, code as u32);
        assert(s@ =~= hex_prefixed2(code as nat));
        s
    }
}

/// The first preset at or after `i` whose action is `a`.
pub open spec fn first_preset_from(a: ActionView, i: int) -> Option<int>
    decreases preset_count() - i,
{
    if i < 0 || i >= preset_count() {
        None
    } else if preset_table(i).action == a {
        Some(i)
    } else {
        first_preset_from(a, i + 1)
    }
}

/// The first preset whose action is `a`.
pub open spec fn first_preset(a: ActionView) -> Option<int> {
    first_preset_from(a, 0)
}

/// The modifier keycaps of a custom combo, in the design's order (Ctrl, Win,
/// Alt, Shift).
pub open spec fn modifier_caps(mods: Seq<Modifier>) -> Seq<Seq<char>> {
    (if mods.contains(Modifier::Ctrl) {
        seq!["Ctrl"@]
    } else {
        seq![]
    }) + (if mods.contains(Modifier::Win) {
        seq!["Win"@]
    } else {
        seq![]
    }) + (if mods.contains(Modifier::Alt) {
        seq!["Alt"@]
    } else {
        seq![]
    }) + (if mods.contains(Modifier::Shift) {
        seq!["Shift"@]
    } else {
        seq![]
    })
}

/// How an action renders: presets show their name plus keycaps (the first
/// matching preset wins); custom combos show only keycaps; pass-through and
/// disabled show only a word.
pub open spec fn display_of(a: ActionView) -> DisplayView {
    match a {
        ActionView::PassThrough => DisplayView { label: "Pass through"@, keys: seq![], kind: Kind::PassThrough },
        ActionView::Disabled => DisplayView { label: "Disabled"@, keys: seq![], kind: Kind::Disabled },
        ActionView::Key { mods, vk } => match first_preset(a) {
            Some(i) => DisplayView {
                label: preset_table(i).label,
                keys: preset_table(i).keys,
                kind: Kind::Preset,
            },
            None => DisplayView {
                label: seq![],
                keys: modifier_caps(mods).push(key_name_of(vk)),
                kind: Kind::Custom,
            },
        },
    }
}

proof fn lemma_first_preset_skips(a: ActionView, j: int, i: int)
    requires
        0 <= j <= i <= preset_count(),
        forall|k: int| j <= k < i ==> #[trigger] preset_table(k).action != a,
    ensures
        first_preset_from(a, j) == first_preset_from(a, i),
    decreases i - j,
{
    if j < i {
        lemma_first_preset_skips(a, j + 1, i);
    }
}

fn has_mod(mods: &Vec<Modifier>, m: Modifier) -> (r: bool)
    ensures
        r == mods@.contains(m),
{
    let mut i: usize = 0;
    while i < mods.len()
        invariant
            i <= mods.len(),
            forall|k: int| 0 <= k < i ==> mods@[k] != m,
        decreases mods.len() - i,
    {
        if mods[i] == m {
            assert(mods@[i as int] == m);
            return true;
        }
        i = i + 1;
    }
    false
}

fn to_strings(v: &Vec<&'static str>) -> (r: Vec<String>)
    ensures
        strings_view(r@) == strs_view(v@),
{
    let mut r: Vec<String> = Vec::new();
    let mut i: usize = 0;
    while i < v.len()
        invariant
            i <= v.len(),
            r@.len() == i,
            forall|k: int| 0 <= k < i ==> #[trigger] r@[k]@ == v@[k]@,
        decreases v.len() - i,
    {
        r.push(owned(v[i]));
        i = i + 1;
    }
    assert(strings_view(r@) =~= strs_view(v@));
    r
}

fn push_cap(keys: &mut Vec<String>, cap: &str)
    ensures
        strings_view(final(keys)@) == strings_view(old(keys)@).push(cap@),
{
    keys.push(owned(cap));
    assert(strings_view(keys@) =~= strings_view(old(keys)@).push(cap@));
}

/// Render an action the way the design does.
pub fn display(action: &Action) -> (r: Display)
    ensures
        r@ == display_of(action@),
{
    match action {
        Action::PassThrough => {
            let r = Display { label: owned("Pass through"), keys: Vec::new(), kind: Kind::PassThrough };
            assert(r@.keys =~= seq![]);
            r
        },
        Action::Disabled => {
            let r = Display { label: owned("Disabled"), keys: Vec::new(), kind: Kind::Disabled };
            assert(r@.keys =~= seq![]);
            r
        },
        Action::Key { mods, vk: code } => {
            let ps = presets();
            let mut i: usize = 0;
            while i < ps.len()
                invariant
                    ps@.len() == preset_count(),
                    forall|k: int| 0 <= k < preset_count() ==> #[trigger] ps@[k]@ == preset_table(k),
                    i <= ps.len(),
                    forall|k: int| 0 <= k < i ==> #[trigger] preset_table(k).action != action@,
                decreases ps.len() - i,
            {
                let p = &ps[i];
                assert(ps@[i as int]@ == preset_table(i as int));
                if p.action.same_as(action) {
                    proof {
                        lemma_first_preset_skips(action@, 0, i as int);
                    }
                    return Display { label: owned(p.label), keys: to_strings(&p.keys), kind: Kind::Preset };
                }
                i = i + 1;
            }
            proof {
                lemma_first_preset_skips(action@, 0, preset_count());
            }
            let mut keys: Vec<String> = Vec::new();
            let ghost m = mods@;
            if has_mod(mods, Modifier::Ctrl) {
                push_cap(&mut keys, "Ctrl");
            }
            if has_mod(mods, Modifier::Win) {
                push_cap(&mut keys, "Win");
            }
            if has_mod(mods, Modifier::Alt) {
                push_cap(&mut keys, "Alt");
            }
            if has_mod(mods, Modifier::Shift) {
                push_cap(&mut keys, "Shift");
            }
            let name = key_name(*code);
            let ghost before = strings_view(keys@);
            keys.push(name);
            assert(strings_view(keys@) =~= before.push(key_name_of(*code)));
            assert(before =~= modifier_caps(m));
            Display { label: empty_string(), keys, kind: Kind::Custom }
        },
    }
}

} // verus!
