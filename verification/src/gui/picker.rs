//! The action picker: what it is picking for, how its search filters the
//! presets, and the custom combo's modifier toggles.
//!
//! Search text is lower-cased by the window before it gets here. The preset
//! labels, keycaps and group names are ASCII apart from arrows and the minus
//! sign, which have no case, so lowering them ASCII-wise lowers them fully.

use super::actions::{category_label, preset_count, preset_table, strs_view, Category, Preset, PresetView};
use super::widgets::joined;
use crate::config::Modifier;
use crate::conflicts::{ascii_lowercase, ascii_lowercase_of, contains_text, str_contains};
use crate::text::{empty_string, push_str, str_equal};
use vstd::prelude::*;

verus! {

/// The slot whose action the picker chooses.
#[derive(Debug, Clone, PartialEq, Eq)]
pub enum PickerTarget {
    /// A remappable button: `"back"`, `"forward"` or `"middle"`.
    Button(String),
    /// A gesture slot: `"tap"`, `"up"`, `"down"`, `"left"` or `"right"`.
    Gesture(String),
}

pub open spec fn picker_label_of(t: PickerTarget) -> Seq<char> {
    match t {
        PickerTarget::Button(s) => if s@ == "back"@ {
            "Back button"@
        } else if s@ == "forward"@ {
            "Forward button"@
        } else {
            "Middle click"@
        },
        PickerTarget::Gesture(s) => if s@ == "tap"@ {
            "Tap"@
        } else if s@ == "up"@ {
            "Swipe up"@
        } else if s@ == "down"@ {
            "Swipe down"@
        } else if s@ == "left"@ {
            "Swipe left"@
        } else {
            "Swipe right"@
        },
    }
}

impl PickerTarget {
    /// The picker's heading.
    pub fn label(&self) -> (r: &'static str)
        ensures
            r@ == picker_label_of(*self),
    {
        match self {
            PickerTarget::Button(s) => if str_equal(s.as_str(), "back") {
                "Back button"
            } else if str_equal(s.as_str(), "forward") {
                "Forward button"
            } else {
                "Middle click"
            },
            PickerTarget::Gesture(s) => if str_equal(s.as_str(), "tap") {
                "Tap"
            } else if str_equal(s.as_str(), "up") {
                "Swipe up"
            } else if str_equal(s.as_str(), "down") {
                "Swipe down"
            } else if str_equal(s.as_str(), "left") {
                "Swipe left"
            } else {
                "Swipe right"
            },
        }
    }
}

/// Whether a search matches a text: an empty search matches everything.
pub open spec fn hit(text: Seq<char>, query: Seq<char>) -> bool {
    contains_text(ascii_lowercase_of(text), query)
}

/// The "Quick" entries (pass-through, disabled) with the extra words each is
/// found by.
pub open spec fn quick_label(i: int) -> Seq<char> {
    if i == 0 {
        "Pass through"@
    } else {
        "Disabled"@
    }
}

pub open spec fn quick_words(i: int) -> Seq<char> {
    if i == 0 {
        "pass through leave normal default"@
    } else {
        "disabled off nothing block"@
    }
}

pub open spec fn quick_hit(i: int, query: Seq<char>) -> bool {
    query.len() == 0 || hit(quick_label(i), query) || contains_text(quick_words(i), query)
}

/// Whether quick entry `i` (0 pass-through, 1 disabled) shows for `query`.
pub fn quick_matches(i: usize, query: &str) -> (r: bool)
    requires
        i < 2,
    ensures
        r == quick_hit(i as int, query@),
{
    let (label, words) = if i == 0 {
        ("Pass through", "pass through leave normal default")
    } else {
        ("Disabled", "disabled off nothing block")
    };
    if query.unicode_len() == 0 {
        return true;
    }
    let lower = ascii_lowercase(label);
    str_contains(lower.as_str(), query) || str_contains(words, query)
}

/// A preset shows for `query` when its name, its keycaps (space-separated)
/// or its group's name contains it.
pub open spec fn preset_hit(p: PresetView, query: Seq<char>) -> bool {
    ||| query.len() == 0
    ||| hit(p.label, query)
    ||| hit(joined(p.keys, " "@), query)
    ||| hit(category_label(p.cat), query)
}

fn join_keys(keys: &Vec<&'static str>) -> (r: String)
    ensures
        r@ == joined(strs_view(keys@), " "@),
{
    let mut s = empty_string();
    let mut i: usize = 0;
    while i < keys.len()
        invariant
            i <= keys.len(),
            s@ == joined(strs_view(keys@.take(i as int)), " "@),
        decreases keys.len() - i,
    {
        let ghost before = strs_view(keys@.take(i as int));
        if i > 0 {
            push_str(&mut s, " ");
        }
        push_str(&mut s, keys[i]);
        i = i + 1;
        assert(strs_view(keys@.take(i as int)).drop_last() =~= before);
        assert(strs_view(keys@.take(i as int)).last() == keys@[i - 1]@);
        if i == 1 {
            assert(s@ =~= strs_view(keys@.take(i as int))[0]);
        }
    }
    assert(keys@.take(keys.len() as int) =~= keys@);
    s
}

pub fn preset_matches(p: &Preset, query: &str) -> (r: bool)
    ensures
        r == preset_hit(p@, query@),
{
    if query.unicode_len() == 0 {
        return true;
    }
    let label = ascii_lowercase(p.label);
    if str_contains(label.as_str(), query) {
        return true;
    }
    let keys = join_keys(&p.keys);
    let keys = ascii_lowercase(keys.as_str());
    if str_contains(keys.as_str(), query) {
        return true;
    }
    let group = ascii_lowercase(p.cat.label());
    str_contains(group.as_str(), query)
}

/// The presets of group `cat` that show for `query`, as positions in the
/// preset list, in list order.
pub fn group_hits(cat: Category, query: &str) -> (r: Vec<usize>)
    ensures
        forall|k: int| 0 <= k < r@.len() ==> 0 <= #[trigger] r@[k] < preset_count(),
        forall|a: int, b: int| 0 <= a < b < r@.len() ==> r@[a] < r@[b],
        forall|i: int|
            0 <= i < preset_count() ==> (r@.contains(i as usize) <==> (preset_table(i).cat == cat
                && preset_hit(preset_table(i), query@))),
{
    let list = super::actions::presets();
    let mut out: Vec<usize> = Vec::new();
    let mut i: usize = 0;
    while i < list.len()
        invariant
            list@.len() == preset_count(),
            forall|k: int| 0 <= k < preset_count() ==> #[trigger] list@[k]@ == preset_table(k),
            i <= list.len(),
            forall|k: int| 0 <= k < out@.len() ==> 0 <= #[trigger] out@[k] < i,
            forall|a: int, b: int| 0 <= a < b < out@.len() ==> out@[a] < out@[b],
            forall|j: int|
                0 <= j < i ==> (out@.contains(j as usize) <==> (preset_table(j).cat == cat
                    && preset_hit(preset_table(j), query@))),
        decreases list.len() - i,
    {
        assert(list@[i as int]@ == preset_table(i as int));
        let ghost before = out@;
        if list[i].cat == cat && preset_matches(&list[i], query) {
            out.push(i);
            assert forall|j: int| 0 <= j < i + 1 implies (out@.contains(j as usize) <==> (
            preset_table(j).cat == cat && preset_hit(preset_table(j), query@))) by {
                if j < i {
                    if out@.contains(j as usize) {
                        let k = choose|k: int| 0 <= k < out@.len() && out@[k] == j as usize;
                        if k == before.len() {
                            assert(out@[k] == i);
                        } else {
                            assert(before[k] == j as usize);
                        }
                    }
                    if before.contains(j as usize) {
                        let k = choose|k: int| 0 <= k < before.len() && before[k] == j as usize;
                        assert(out@[k] == j as usize);
                    }
                } else {
                    assert(out@[before.len() as int] == i);
                }
            }
        } else {
            assert forall|j: int| 0 <= j < i + 1 implies (out@.contains(j as usize) <==> (
            preset_table(j).cat == cat && preset_hit(preset_table(j), query@))) by {
                if j == i {
                    if out@.contains(j as usize) {
                        let k = choose|k: int| 0 <= k < out@.len() && out@[k] == j as usize;
                        assert(out@[k] < i);
                    }
                }
            }
        }
        i = i + 1;
    }
    out
}

/// Every modifier but `m`.
pub open spec fn other_than(m: Modifier) -> spec_fn(Modifier) -> bool {
    |x: Modifier| x != m
}

pub open spec fn toggled_mods(mods: Seq<Modifier>, m: Modifier) -> Seq<Modifier> {
    if mods.contains(m) {
        mods.filter(other_than(m))
    } else {
        mods.push(m)
    }
}

/// Switch modifier `m` of the custom combo on or off.
pub fn toggle_mod(mods: &mut Vec<Modifier>, m: Modifier)
    ensures
        final(mods)@ == toggled_mods(old(mods)@, m),
        final(mods)@.contains(m) == !old(mods)@.contains(m),
        forall|x: Modifier| x != m ==> (final(mods)@.contains(x) == old(mods)@.contains(x)),
{
    let mut present = false;
    let mut kept: Vec<Modifier> = Vec::new();
    let mut i: usize = 0;
    while i < mods.len()
        invariant
            i <= mods.len(),
            present == mods@.take(i as int).contains(m),
            kept@ == mods@.take(i as int).filter(other_than(m)),
        decreases mods.len() - i,
    {
        let x = mods[i];
        proof {
            let t = mods@.take(i + 1);
            assert(t.drop_last() =~= mods@.take(i as int));
            assert(t.last() == x);
            vstd::seq_lib::lemma_seq_contains_after_push(mods@.take(i as int), x, m);
            assert(t =~= mods@.take(i as int).push(x));
            mods@.take(i as int).lemma_filter_push(x, other_than(m));
        }
        if x == m {
            present = true;
        } else {
            kept.push(x);
        }
        i = i + 1;
    }
    assert(mods@.take(mods@.len() as int) =~= mods@);
    let ghost before_toggle = mods@;
    if present {
        *mods = kept;
        proof {
            assert forall|x: Modifier| x != m implies (mods@.contains(x) == before_toggle.contains(x)) by {
                if before_toggle.contains(x) {
                    let k = choose|k: int| 0 <= k < before_toggle.len() && before_toggle[k] == x;
                    before_toggle.lemma_filter_contains(other_than(m), k);
                }
                if mods@.contains(x) {
                    before_toggle.lemma_filter_contains_rev(other_than(m), x);
                }
            }
            if mods@.contains(m) {
                let k = choose|k: int| 0 <= k < mods@.len() && mods@[k] == m;
                before_toggle.lemma_filter_pred(other_than(m), k);
            }
        }
    } else {
        mods.push(m);
        proof {
            assert forall|x: Modifier| x != m implies (mods@.contains(x) == before_toggle.contains(x)) by {
                vstd::seq_lib::lemma_seq_contains_after_push(before_toggle, m, x);
            }
            vstd::seq_lib::lemma_seq_contains_after_push(before_toggle, m, m);
        }
    }
}

proof fn lemma_filter_other_than(s: Seq<Modifier>, m: Modifier, x: Modifier)
    ensures
        !s.filter(other_than(m)).contains(m),
        x != m ==> (s.filter(other_than(m)).contains(x) == s.contains(x)),
{
    if s.filter(other_than(m)).contains(m) {
        let k = choose|k: int| 0 <= k < s.filter(other_than(m)).len() && s.filter(other_than(m))[k] == m;
        s.lemma_filter_pred(other_than(m), k);
    }
    if x != m {
        if s.contains(x) {
            let k = choose|k: int| 0 <= k < s.len() && s[k] == x;
            s.lemma_filter_contains(other_than(m), k);
        }
        if s.filter(other_than(m)).contains(x) {
            s.lemma_filter_contains_rev(other_than(m), x);
        }
    }
}

/// Toggling a modifier twice leaves the same modifiers switched on.
pub proof fn lemma_toggle_mod_twice(mods: Seq<Modifier>, m: Modifier, x: Modifier)
    ensures
        toggled_mods(toggled_mods(mods, m), m).contains(x) == mods.contains(x),
{
    let once = toggled_mods(mods, m);
    if mods.contains(m) {
        lemma_filter_other_than(mods, m, x);
        vstd::seq_lib::lemma_seq_contains_after_push(once, m, x);
    } else {
        vstd::seq_lib::lemma_seq_contains_after_push(mods, m, m);
        vstd::seq_lib::lemma_seq_contains_after_push(mods, m, x);
        lemma_filter_other_than(once, m, x);
    }
}

} // verus!
