//! The key events that perform an action. Injecting them is the program's job;
//! they are tagged with [`INJECT_SIGNATURE`] so the hook ignores them.

use crate::config::{Action, ActionView, Modifier};
use vstd::prelude::*;

verus! {

/// Marker written to `dwExtraInfo` on every event we synthesize, so our own
/// hook does not re-process them. ASCII "MUSH".
pub const INJECT_SIGNATURE: usize = 0x4D55_5348;

pub const VK_SHIFT: u16 = 0x10;

pub const VK_CONTROL: u16 = 0x11;

pub const VK_MENU: u16 = 0x12;

pub const VK_LWIN: u16 = 0x5B;

pub open spec fn modifier_code(m: Modifier) -> u16 {
    match m {
        Modifier::Ctrl => VK_CONTROL,
        Modifier::Alt => VK_MENU,
        Modifier::Shift => VK_SHIFT,
        Modifier::Win => VK_LWIN,
    }
}

/// The virtual-key code of a modifier.
pub fn modifier_vk(m: Modifier) -> (r: u16)
    ensures
        r == modifier_code(m),
{
    match m {
        Modifier::Ctrl => VK_CONTROL,
        Modifier::Alt => VK_MENU,
        Modifier::Shift => VK_SHIFT,
        Modifier::Win => VK_LWIN,
    }
}

/// One synthesized key event.
#[derive(Debug, Clone, Copy, PartialEq, Eq, Structural)]
pub struct KeyEvent {
    pub vk: u16,
    pub up: bool,
}

pub open spec fn presses(mods: Seq<Modifier>) -> Seq<KeyEvent> {
    mods.map_values(|m: Modifier| KeyEvent { vk: modifier_code(m), up: false })
}

pub open spec fn releases(mods: Seq<Modifier>) -> Seq<KeyEvent> {
    mods.reverse().map_values(|m: Modifier| KeyEvent { vk: modifier_code(m), up: true })
}

/// The chord for an action: modifiers down (in order), key down, key up,
/// modifiers up (in reverse). Pass-through and disabled inject nothing.
pub open spec fn chord(action: ActionView) -> Seq<KeyEvent> {
    match action {
        ActionView::Key { mods, vk } => presses(mods) + seq![
            KeyEvent { vk, up: false },
            KeyEvent { vk, up: true },
        ] + releases(mods),
        _ => Seq::empty(),
    }
}

/// The key events that perform an action.
pub fn chord_events(action: &Action) -> (r: Vec<KeyEvent>)
    ensures
        r@ == chord(action@),
{
    match action {
        Action::Key { mods, vk } => {
            let mut out: Vec<KeyEvent> = Vec::new();
            let mut i: usize = 0;
            while i < mods.len()
                invariant
                    i <= mods.len(),
                    out@ == presses(mods@.take(i as int)),
                decreases mods.len() - i,
            {
                out.push(KeyEvent { vk: modifier_vk(mods[i]), up: false });
                i = i + 1;
                assert(out@ =~= presses(mods@.take(i as int)));
            }
            assert(mods@.take(mods.len() as int) =~= mods@);
            out.push(KeyEvent { vk: *vk, up: false });
            out.push(KeyEvent { vk: *vk, up: true });
            let ghost head = out@;
            let mut j: usize = mods.len();
            while j > 0
                invariant
                    j <= mods.len(),
                    out@ == head + releases(mods@.subrange(j as int, mods@.len() as int)),
                decreases j,
            {
                j = j - 1;
                out.push(KeyEvent { vk: modifier_vk(mods[j]), up: true });
                assert(releases(mods@.subrange(j as int, mods@.len() as int)) =~= releases(
                    mods@.subrange(j + 1, mods@.len() as int),
                ).push(KeyEvent { vk: modifier_code(mods@[j as int]), up: true }));
            }
            assert(mods@.subrange(0, mods@.len() as int) =~= mods@);
            assert(out@ =~= chord(action@));
            out
        },
        _ => Vec::new(),
    }
}

/// A chord leaves no key held: every key it presses it also releases, after
/// the press, and the modifiers are released in the reverse of the order they
/// were pressed.
pub proof fn lemma_chord_is_balanced(mods: Seq<Modifier>, vk: u16)
    ensures
        ({
            let c = chord(ActionView::Key { mods, vk });
            let n = mods.len() as int;
            &&& c.len() == 2 * n + 2
            &&& forall|i: int|
                0 <= i < n ==> c[i] == (KeyEvent { vk: modifier_code(mods[i]), up: false }) && c[2 * n + 1 - i]
                    == (KeyEvent { vk: modifier_code(mods[i]), up: true })
            &&& c[n] == (KeyEvent { vk, up: false })
            &&& c[n + 1] == (KeyEvent { vk, up: true })
        }),
{
    let c = chord(ActionView::Key { mods, vk });
    let n = mods.len() as int;
    assert forall|i: int| 0 <= i < n implies c[i] == (KeyEvent { vk: modifier_code(mods[i]), up: false })
        && c[2 * n + 1 - i] == (KeyEvent { vk: modifier_code(mods[i]), up: true }) by {
        assert(presses(mods)[i] == (KeyEvent { vk: modifier_code(mods[i]), up: false }));
        let k = 2 * n + 1 - i;
        assert(c[k] == releases(mods)[k - n - 2]);
        assert(mods.reverse()[n - 1 - i] == mods[i]);
    }
}

} // verus!
