//! What the window's status card and conflict banner say.

use crate::conflicts::KillOutcome;
use crate::config::strings_view;
use crate::text::{decimal, empty_string, push_char, push_decimal, push_str};
use vstd::prelude::*;

verus! {

pub open spec fn status_label_of(paused: bool, connected: bool) -> Seq<char> {
    if paused {
        "Paused"@
    } else if !connected {
        "Asleep"@
    } else {
        "Connected"@
    }
}

/// The status card's headline: remapping paused wins over the connection.
pub fn status_label(paused: bool, connected: bool) -> (r: &'static str)
    ensures
        r@ == status_label_of(paused, connected),
{
    if paused {
        "Paused"
    } else if !connected {
        "Asleep"
    } else {
        "Connected"
    }
}

/// How alarming the battery reading is (it picks the gauge's colour).
#[derive(Debug, Clone, Copy, PartialEq, Eq, Structural)]
pub enum BatteryLevel {
    Low,
    Medium,
    Good,
}

pub open spec fn battery_level_of(percent: Option<u8>) -> BatteryLevel {
    match percent {
        Some(p) => if p <= 20 {
            BatteryLevel::Low
        } else if p <= 45 {
            BatteryLevel::Medium
        } else {
            BatteryLevel::Good
        },
        None => BatteryLevel::Good,
    }
}

pub fn battery_level(percent: Option<u8>) -> (r: BatteryLevel)
    ensures
        r == battery_level_of(percent),
{
    match percent {
        Some(p) if p <= 20 => BatteryLevel::Low,
        Some(p) if p <= 45 => BatteryLevel::Medium,
        _ => BatteryLevel::Good,
    }
}

pub open spec fn battery_text_of(percent: Option<u8>, awake: bool) -> Seq<char> {
    match percent {
        Some(p) => if awake {
            decimal(p as nat).push('%')
        } else {
            "\u{2014}"@
        },
        None => "\u{2014}"@,
    }
}

/// The percentage next to the gauge, or a dash while it is unknown or the
/// mouse is asleep.
pub fn battery_text(percent: Option<u8>, awake: bool) -> (r: String)
    ensures
        r@ == battery_text_of(percent, awake),
{
    match percent {
        Some(p) if awake => {
            let mut s = empty_string();
            push_decimal(&mut s, p as u32);
            push_char(&mut s, '%');
            s
        },
        _ => "\u{2014}".to_owned(),
    }
}

/// The items of `names` separated by `sep`.
pub open spec fn joined(names: Seq<Seq<char>>, sep: Seq<char>) -> Seq<char>
    decreases names.len(),
{
    if names.len() == 0 {
        seq![]
    } else if names.len() == 1 {
        names[0]
    } else {
        joined(names.drop_last(), sep) + sep + names.last()
    }
}

/// `names.join(sep)`.
pub fn join(names: &Vec<String>, sep: &str) -> (r: String)
    ensures
        r@ == joined(strings_view(names@), sep@),
{
    let mut s = empty_string();
    let mut i: usize = 0;
    while i < names.len()
        invariant
            i <= names.len(),
            s@ == joined(strings_view(names@.take(i as int)), sep@),
        decreases names.len() - i,
    {
        let ghost before = strings_view(names@.take(i as int));
        if i > 0 {
            push_str(&mut s, sep);
        }
        push_str(&mut s, names[i].as_str());
        i = i + 1;
        assert(strings_view(names@.take(i as int)).drop_last() =~= before);
        assert(strings_view(names@.take(i as int)).last() == names@[i - 1]@);
        if i == 1 {
            assert(s@ =~= strings_view(names@.take(i as int))[0]);
        }
    }
    assert(names@.take(names.len() as int) =~= names@);
    s
}

pub open spec fn banner_title_of(names: Seq<Seq<char>>) -> Seq<char> {
    joined(names, ", "@) + " is running"@
}

/// The banner's headline: the conflicting drivers by name.
pub fn banner_title(names: &Vec<String>) -> (r: String)
    ensures
        r@ == banner_title_of(strings_view(names@)),
{
    let mut s = join(names, ", ");
    push_str(&mut s, " is running");
    s
}

pub open spec fn generic_advice() -> Seq<char> {
    "It fights Mushak for control of the mouse. Quit it so your mappings take effect reliably."@
}

pub open spec fn banner_subtitle_of(failed: Option<Seq<(Seq<char>, Seq<char>)>>) -> Seq<char> {
    match failed {
        Some(f) => if f.len() > 0 {
            "Could not quit "@ + f[0].0 + ": "@ + f[0].1
        } else {
            generic_advice()
        },
        None => generic_advice(),
    }
}

pub open spec fn failures_view(o: Option<&KillOutcome>) -> Option<Seq<(Seq<char>, Seq<char>)>> {
    match o {
        Some(k) => Some(k.failed@.map_values(|f: (String, String)| (f.0@, f.1@))),
        None => None,
    }
}

/// The banner's second line: after a failed quit, what actually happened;
/// otherwise the generic advice.
pub fn banner_subtitle(outcome: Option<&KillOutcome>) -> (r: String)
    ensures
        r@ == banner_subtitle_of(failures_view(outcome)),
{
    match outcome {
        Some(o) if !o.all_gone() => {
            let (name, why) = &o.failed[0];
            let mut s = "Could not quit ".to_owned();
            push_str(&mut s, name.as_str());
            push_str(&mut s, ": ");
            push_str(&mut s, why.as_str());
            s
        },
        _ => "It fights Mushak for control of the mouse. Quit it so your mappings take effect reliably.".to_owned(),
    }
}

} // verus!
