//! Feature 0x1B04 REPROG_CONTROLS_V4: control enumeration and divert.
//!
//! function 0 getControlCount
//! function 1 getControlInfo(index) -> cid, tid, flags, pos, group, gmask, addl
//! function 3 setControlReporting(cid, flags, remap)
//!
//! setControlReporting flags (logiops semantics): each divert has a value bit
//! and a "change" bit that must be set for the value to take effect.

use crate::hidpp::protocol::{be16, be16_of, param_of, Report};
use vstd::prelude::*;

verus! {

/// CID of the MX Master 2S thumb "gesture" button.
pub const CID_GESTURE: u16 = 0x00C3;

/// getControlInfo `flags`: temporarily divertable.
pub const KEY_DIVERTABLE: u8 = 0x20;

/// getControlInfo `flags`: persistently divertable.
pub const KEY_PERSISTENTLY_DIVERTABLE: u8 = 0x40;

/// getControlInfo `flags`: not a physical button.
pub const KEY_VIRTUAL: u8 = 0x80;

/// getControlInfo `additional_flags`: can report raw XY.
pub const KEY_RAW_XY: u8 = 0x01;

/// setControlReporting: temporary divert value.
pub const RC_TEMP_DIVERT: u8 = 0x01;

/// setControlReporting: change the temporary divert.
pub const RC_CHANGE_TEMP_DIVERT: u8 = 0x02;

/// setControlReporting: persistent divert value. Never set: only a temporary
/// divert is ever taken.
pub const RC_PERSIST_DIVERT: u8 = 0x04;

/// setControlReporting: change the persistent divert.
pub const RC_CHANGE_PERSIST_DIVERT: u8 = 0x08;

/// setControlReporting: raw XY divert value.
pub const RC_RAWXY_DIVERT: u8 = 0x10;

/// setControlReporting: change the raw XY divert.
pub const RC_CHANGE_RAWXY_DIVERT: u8 = 0x20;

/// One control as reported by getControlInfo.
#[derive(Debug, Clone, Copy, PartialEq, Eq, Structural)]
pub struct ControlInfo {
    pub cid: u16,
    pub tid: u16,
    pub flags: u8,
    pub additional_flags: u8,
}

impl ControlInfo {
    pub open spec fn is_divertable(self) -> bool {
        self.flags & KEY_DIVERTABLE != 0
    }

    pub open spec fn is_persistently_divertable(self) -> bool {
        self.flags & KEY_PERSISTENTLY_DIVERTABLE != 0
    }

    pub open spec fn has_raw_xy(self) -> bool {
        self.additional_flags & KEY_RAW_XY != 0
    }

    pub open spec fn is_virtual(self) -> bool {
        self.flags & KEY_VIRTUAL != 0
    }

    /// The control can be temporarily diverted to HID++ reporting.
    pub fn divertable(&self) -> (r: bool)
        ensures
            r == self.is_divertable(),
    {
        self.flags & KEY_DIVERTABLE != 0
    }

    /// The control supports a divert that survives a power cycle.
    pub fn persistently_divertable(&self) -> (r: bool)
        ensures
            r == self.is_persistently_divertable(),
    {
        self.flags & KEY_PERSISTENTLY_DIVERTABLE != 0
    }

    /// The control can report raw sensor movement while held.
    pub fn raw_xy(&self) -> (r: bool)
        ensures
            r == self.has_raw_xy(),
    {
        self.additional_flags & KEY_RAW_XY != 0
    }

    /// Not a physical button: nothing to restore, so these are left alone.
    pub fn virtual_control(&self) -> (r: bool)
        ensures
            r == self.is_virtual(),
    {
        self.flags & KEY_VIRTUAL != 0
    }
}

/// A getControlCount reply.
pub fn parse_control_count(rep: &Report) -> (r: u8)
    ensures
        r == param_of(rep@, 0),
{
    rep.param(0)
}

/// A getControlInfo reply.
pub fn parse_control_info(rep: &Report) -> (r: ControlInfo)
    ensures
        r == (ControlInfo {
            cid: be16_of(rep@, 0),
            tid: be16_of(rep@, 2),
            flags: param_of(rep@, 4),
            additional_flags: param_of(rep@, 8),
        }),
{
    ControlInfo {
        cid: be16(rep.param(0), rep.param(1)),
        tid: be16(rep.param(2), rep.param(3)),
        flags: rep.param(4),
        additional_flags: rep.param(8),
    }
}

/// The setControlReporting parameters: cid (big-endian), flags, remap 0.
pub fn control_reporting_params(cid: u16, flags: u8) -> (r: [u8; 5])
    ensures
        r@ == seq![(cid / 256) as u8, (cid % 256) as u8, flags, 0u8, 0u8],
{
    let hi = (cid >> 8u16) as u8;
    let lo = (cid & 0xFFu16) as u8;
    assert(cid >> 8u16 == cid / 256) by (bit_vector);
    assert(cid & 0xFFu16 == cid % 256) by (bit_vector);
    let r = [hi, lo, flags, 0u8, 0u8];
    assert(r@ =~= seq![(cid / 256) as u8, (cid % 256) as u8, flags, 0u8, 0u8]);
    r
}

/// The setControlReporting flags that divert `ci` (or restore it): the
/// temporary divert change bit with its value, the raw XY pair when the
/// control has raw XY, and the persistent change bit (clearing any persistent
/// divert) when it supports one.
pub open spec fn divert_flags_of(ci: ControlInfo, divert: bool) -> u8 {
    (RC_CHANGE_TEMP_DIVERT + (if divert { RC_TEMP_DIVERT } else { 0 }) + (if ci.has_raw_xy() {
        RC_CHANGE_RAWXY_DIVERT + (if divert { RC_RAWXY_DIVERT } else { 0 })
    } else {
        0
    }) + (if ci.is_persistently_divertable() { RC_CHANGE_PERSIST_DIVERT } else { 0 })) as u8
}

/// Divert one control to HID++ reporting, or restore its native behavior:
/// the flags to send, or `None` for a control that cannot be diverted.
///
/// Only the change bits a control actually supports are sent; a change bit for
/// an unsupported divert is rejected by the firmware.
pub fn divert_flags(ci: &ControlInfo, divert: bool) -> (r: Option<u8>)
    ensures
        r == (if ci.is_divertable() {
            Some(divert_flags_of(*ci, divert))
        } else {
            None
        }),
        r matches Some(f) ==> (f & RC_TEMP_DIVERT != 0) == divert && (f & RC_RAWXY_DIVERT != 0) == (
        ci.has_raw_xy() && divert),
{
    proof {
        lemma_divert_flag_bits(*ci, divert);
    }
    if !ci.divertable() {
        return None;
    }
    let mut flags = RC_CHANGE_TEMP_DIVERT;
    if divert {
        flags = flags + RC_TEMP_DIVERT;
    }
    if ci.raw_xy() {
        flags = flags + RC_CHANGE_RAWXY_DIVERT;
        if divert {
            flags = flags + RC_RAWXY_DIVERT;
        }
    }
    if ci.persistently_divertable() {
        // Clear any persistent divert; never set one.
        flags = flags + RC_CHANGE_PERSIST_DIVERT;
    }
    Some(flags)
}

/// One setControlReporting to send.
#[derive(Debug, Clone, Copy, PartialEq, Eq, Structural)]
pub struct DivertAction {
    pub cid: u16,
    pub flags: u8,
    /// Whether this diverts the control (else it restores it).
    pub divert: bool,
}

/// Whether a control takes part in the divert assertion: physical and
/// divertable.
pub open spec fn is_managed(ci: ControlInfo) -> bool {
    !ci.is_virtual() && ci.is_divertable()
}

/// The divert action for a managed control: the gesture button diverted when
/// gestures are enabled, every other control restored.
pub open spec fn action_for_control(ci: ControlInfo, gestures_enabled: bool) -> DivertAction {
    let want = ci.cid == CID_GESTURE && gestures_enabled;
    DivertAction { cid: ci.cid, flags: divert_flags_of(ci, want), divert: want }
}

/// The divert actions for `controls` in order: one per managed control.
pub open spec fn plan_of(controls: Seq<ControlInfo>, gestures_enabled: bool) -> Seq<DivertAction>
    decreases controls.len(),
{
    if controls.len() == 0 {
        Seq::empty()
    } else {
        let rest = plan_of(controls.drop_last(), gestures_enabled);
        if is_managed(controls.last()) {
            rest.push(action_for_control(controls.last(), gestures_enabled))
        } else {
            rest
        }
    }
}

/// Assert the divert state of every control: the thumb button diverted when
/// gestures are enabled, everything else reporting natively. Returns the
/// setControlReporting calls to make, in control order.
///
/// Restoring the others is required: Options+ diverts the side buttons and
/// those diverts live in the mouse until it power-cycles, leaving the buttons
/// dead for the low-level hook.
pub fn plan_control_diverts(controls: &[ControlInfo], gestures_enabled: bool) -> (r: Vec<DivertAction>)
    ensures
        r@ == plan_of(controls@, gestures_enabled),
{
    let mut out: Vec<DivertAction> = Vec::new();
    let mut i: usize = 0;
    while i < controls.len()
        invariant
            i <= controls.len(),
            out@ == plan_of(controls@.take(i as int), gestures_enabled),
        decreases controls.len() - i,
    {
        let ci = controls[i];
        assert(controls@.take(i + 1).drop_last() =~= controls@.take(i as int));
        if !ci.virtual_control() && ci.divertable() {
            let want = ci.cid == CID_GESTURE && gestures_enabled;
            match divert_flags(&ci, want) {
                Some(flags) => out.push(DivertAction { cid: ci.cid, flags, divert: want }),
                None => {},
            }
        }
        i = i + 1;
    }
    assert(controls@.take(controls.len() as int) =~= controls@);
    out
}

/// Only a temporary divert is ever taken: no flags sent for any control set
/// the persistent divert value bit.
pub proof fn lemma_never_persistently_diverts(ci: ControlInfo, divert: bool)
    ensures
        divert_flags_of(ci, divert) & RC_PERSIST_DIVERT == 0,
{
    let d = divert;
    let x = ci.has_raw_xy();
    let p = ci.is_persistently_divertable();
    let f = divert_flags_of(ci, divert);
    assert(f & 4u8 == 0u8) by (bit_vector)
        requires
            f == (2int + (if d { 1int } else { 0int }) + (if x { 32int + (if d { 16int } else { 0int }) } else { 0int }) + (if p { 8int } else { 0int })) as u8,
    ;
}

/// The divert plan diverts only the gesture button, and only with gestures
/// enabled; every other control in it is restored, with the temporary divert
/// change bit set and its value clear. Every action in the plan belongs to a
/// managed control (physical and divertable): the others are left alone.
pub proof fn lemma_plan_diverts_only_the_gesture_button(controls: Seq<ControlInfo>, gestures_enabled: bool)
    ensures
        forall|k: int|
            0 <= k < plan_of(controls, gestures_enabled).len() ==> {
                let a = #[trigger] plan_of(controls, gestures_enabled)[k];
                &&& a.divert ==> a.cid == CID_GESTURE && gestures_enabled
                &&& !a.divert ==> a.flags & RC_CHANGE_TEMP_DIVERT != 0 && a.flags & RC_TEMP_DIVERT == 0
                &&& a.divert ==> a.flags & RC_TEMP_DIVERT != 0
                &&& exists|j: int|
                    0 <= j < controls.len() && is_managed(#[trigger] controls[j]) && a
                        == action_for_control(controls[j], gestures_enabled)
            },
    decreases controls.len(),
{
    if controls.len() > 0 {
        let init = controls.drop_last();
        lemma_plan_diverts_only_the_gesture_button(init, gestures_enabled);
        let c = controls.last();
        let want = c.cid == CID_GESTURE && gestures_enabled;
        let f = divert_flags_of(c, want);
        let d = want;
        let x = c.has_raw_xy();
        let p = c.is_persistently_divertable();
        assert(f & 2u8 != 0u8 && ((f & 1u8 != 0u8) == d)) by (bit_vector)
            requires
                f == (2int + (if d { 1int } else { 0int }) + (if x { 32int + (if d { 16int } else { 0int }) } else { 0int }) + (if p { 8int } else { 0int })) as u8,
        ;
        let plan = plan_of(controls, gestures_enabled);
        let rest = plan_of(init, gestures_enabled);
        assert forall|k: int| 0 <= k < plan.len() implies {
            let a = #[trigger] plan[k];
            &&& a.divert ==> a.cid == CID_GESTURE && gestures_enabled
            &&& !a.divert ==> a.flags & RC_CHANGE_TEMP_DIVERT != 0 && a.flags & RC_TEMP_DIVERT == 0
            &&& a.divert ==> a.flags & RC_TEMP_DIVERT != 0
            &&& exists|j: int|
                0 <= j < controls.len() && is_managed(#[trigger] controls[j]) && a
                    == action_for_control(controls[j], gestures_enabled)
        } by {
            if k < rest.len() {
                assert(plan[k] == rest[k]);
                let a = rest[k];
                let j = choose|j: int|
                    0 <= j < init.len() && is_managed(#[trigger] init[j]) && a == action_for_control(
                        init[j],
                        gestures_enabled,
                    );
                assert(controls[j] == init[j]);
            } else {
                assert(plan[k] == action_for_control(c, gestures_enabled));
                assert(controls[controls.len() - 1] == c);
            }
        }
    }
}

/// What setControlReporting is told for a control: the temporary-divert
/// change bit always, with its value set exactly when diverting; for a control
/// that reports raw XY, the raw-XY change bit, with its value set exactly when
/// diverting (so a held gesture button streams its motion); for a persistently
/// divertable control, the persistent change bit with the value clear; and no
/// other bit.
pub proof fn lemma_divert_flag_bits(ci: ControlInfo, divert: bool)
    ensures
        ({
            let f = divert_flags_of(ci, divert);
            &&& f & RC_CHANGE_TEMP_DIVERT != 0
            &&& (f & RC_TEMP_DIVERT != 0) == divert
            &&& (f & RC_CHANGE_RAWXY_DIVERT != 0) == ci.has_raw_xy()
            &&& (f & RC_RAWXY_DIVERT != 0) == (ci.has_raw_xy() && divert)
            &&& (f & RC_CHANGE_PERSIST_DIVERT != 0) == ci.is_persistently_divertable()
            &&& f & RC_PERSIST_DIVERT == 0
            &&& f & 0xC0 == 0
        }),
{
    let d = divert;
    let x = ci.has_raw_xy();
    let p = ci.is_persistently_divertable();
    let f = divert_flags_of(ci, divert);
    assert({
        &&& f & 2u8 != 0u8
        &&& (f & 1u8 != 0u8) == d
        &&& (f & 32u8 != 0u8) == x
        &&& (f & 16u8 != 0u8) == (x && d)
        &&& (f & 8u8 != 0u8) == p
        &&& f & 4u8 == 0u8
        &&& f & 0xC0u8 == 0u8
    }) by (bit_vector)
        requires
            f == (2int + (if d { 1int } else { 0int }) + (if x { 32int + (if d { 16int } else { 0int }) } else { 0int }) + (if p { 8int } else { 0int })) as u8,
    ;
}

} // verus!
