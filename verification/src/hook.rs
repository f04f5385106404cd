//! The low-level mouse hook's decision for each mouse message: pass it on,
//! swallow it, or swallow it and inject the mapped action. Installing the hook
//! and injecting input are the program's job.

use crate::config::{Action, ActionView, ButtonMap, ButtonMapView, MouseButton};
use crate::injector::INJECT_SIGNATURE;
use vstd::prelude::*;

verus! {

pub const WM_MBUTTONDOWN: u32 = 0x0207;

pub const WM_MBUTTONUP: u32 = 0x0208;

pub const WM_XBUTTONDOWN: u32 = 0x020B;

pub const WM_XBUTTONUP: u32 = 0x020C;

/// The button and direction of a mouse message, or `None` if it is not one of
/// the buttons remapped. For X buttons the high word of `mouseData` says
/// which: 1 == XBUTTON1 (back), 2 == XBUTTON2 (forward).
pub open spec fn classify_spec(msg: u32, mouse_data: u32) -> Option<(MouseButton, bool)> {
    if msg == WM_MBUTTONDOWN {
        Some((MouseButton::Middle, true))
    } else if msg == WM_MBUTTONUP {
        Some((MouseButton::Middle, false))
    } else if msg == WM_XBUTTONDOWN || msg == WM_XBUTTONUP {
        let x = mouse_data / 0x10000;
        if x == 1 {
            Some((MouseButton::Back, msg == WM_XBUTTONDOWN))
        } else if x == 2 {
            Some((MouseButton::Forward, msg == WM_XBUTTONDOWN))
        } else {
            None
        }
    } else {
        None
    }
}

/// Classify a mouse message into (button, is_down).
pub fn classify(msg: u32, mouse_data: u32) -> (r: Option<(MouseButton, bool)>)
    ensures
        r == classify_spec(msg, mouse_data),
{
    if msg == WM_MBUTTONDOWN {
        Some((MouseButton::Middle, true))
    } else if msg == WM_MBUTTONUP {
        Some((MouseButton::Middle, false))
    } else if msg == WM_XBUTTONDOWN || msg == WM_XBUTTONUP {
        let x = (mouse_data >> 16u32) as u16;
        assert(mouse_data >> 16u32 == mouse_data / 0x10000) by (bit_vector);
        if x == 1 {
            Some((MouseButton::Back, msg == WM_XBUTTONDOWN))
        } else if x == 2 {
            Some((MouseButton::Forward, msg == WM_XBUTTONDOWN))
        } else {
            None
        }
    } else {
        None
    }
}

/// What the hook does with a mouse message.
#[derive(Debug, Clone, PartialEq, Eq)]
pub enum HookVerdict {
    /// Hand the message to the next hook.
    CallNext,
    /// Swallow it: the native event never reaches applications.
    Swallow,
    /// Swallow it and queue this action for injection.
    SwallowAndInject(Action),
}

/// The hook's verdict on `(button, is_down)` under the mapping `map`, when it
/// is active (a real action code, not paused, not one of our own events).
pub open spec fn verdict_for(map: ButtonMapView, button: MouseButton, is_down: bool) -> (bool, Option<ActionView>) {
    match map.action(button) {
        ActionView::PassThrough => (false, None),
        ActionView::Disabled => (true, None),
        a => (true, if is_down { Some(a) } else { None }),
    }
}

/// Whether the verdict swallows and what it injects.
pub open spec fn verdict_view(v: HookVerdict) -> (bool, Option<ActionView>) {
    match v {
        HookVerdict::CallNext => (false, None),
        HookVerdict::Swallow => (true, None),
        HookVerdict::SwallowAndInject(a) => (true, Some(a@)),
    }
}

/// Decide what happens to a low-level mouse message.
///
/// Only real actions (`is_action`, i.e. `HC_ACTION`) while not paused are
/// considered, and events we synthesized ourselves (tagged with
/// [`INJECT_SIGNATURE`]) are never remapped. A pass-through mapping lets the
/// event through; any other swallows both the down and the matching up, and
/// a key action is injected on the down only.
pub fn hook_decision(
    is_action: bool,
    paused: bool,
    extra_info: usize,
    msg: u32,
    mouse_data: u32,
    map: &ButtonMap,
) -> (r: HookVerdict)
    ensures
        verdict_view(r) == (if is_action && !paused && extra_info != INJECT_SIGNATURE {
            match classify_spec(msg, mouse_data) {
                Some((button, is_down)) => verdict_for(map@, button, is_down),
                None => (false, None),
            }
        } else {
            (false, None)
        }),
{
    if is_action && !paused && extra_info != INJECT_SIGNATURE {
        if let Some((button, is_down)) = classify(msg, mouse_data) {
            let action = map.get(button);
            match action {
                Action::PassThrough => {},
                Action::Disabled => return HookVerdict::Swallow,
                _ => {
                    if is_down {
                        return HookVerdict::SwallowAndInject(action.clone());
                    }
                    // Swallow both the down and the matching up so the native
                    // button event never reaches applications.
                    return HookVerdict::Swallow;
                },
            }
        }
    }
    HookVerdict::CallNext
}

/// A remapped button is swallowed on both edges: when the mapping is not
/// pass-through, the press and the release are both kept from applications,
/// and the mapped action is injected once, on the press.
pub proof fn lemma_remapped_button_swallowed_both_ways(map: ButtonMapView, button: MouseButton)
    requires
        !(map.action(button) is PassThrough),
    ensures
        verdict_for(map, button, true).0,
        verdict_for(map, button, false).0,
        verdict_for(map, button, false).1 is None,
        !(map.action(button) is Disabled) ==> verdict_for(map, button, true).1 == Some(map.action(button)),
{
}

} // verus!
