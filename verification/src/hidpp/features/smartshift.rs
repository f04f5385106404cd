//! Feature 0x2110 SMART_SHIFT (the first variant, which the MX Master 2S uses).
//!
//! function 0 getStatus  -> { wheelMode, autoDisengage, autoDisengageDefault }
//! function 1 setStatus  <- { wheelMode, autoDisengage, autoDisengageDefault }
//!
//! wheelMode: 1 = freespin, 2 = ratchet.
//! autoDisengage: 1..=30 threshold, or 255 = never auto-disengage.

use crate::config::SmartShiftMode;
use crate::hidpp::protocol::{param_of, Report};
use vstd::prelude::*;

verus! {

pub const WHEEL_FREESPIN: u8 = 1;

pub const WHEEL_RATCHET: u8 = 2;

/// `threshold.clamp(1, 30)`.
pub open spec fn clamp_threshold(threshold: u8) -> u8 {
    if threshold < 1 {
        1
    } else if threshold > 30 {
        30
    } else {
        threshold
    }
}

/// `(wheelMode, autoDisengage)` for a configured mode: permanent ratchet never
/// disengages, permanent freespin, or ratchet that disengages past the
/// threshold (kept to 1..=30).
pub open spec fn status_for(mode: SmartShiftMode, threshold: u8) -> (u8, u8) {
    match mode {
        SmartShiftMode::AlwaysRatchet => (WHEEL_RATCHET, 255),
        SmartShiftMode::AlwaysFreespin => (WHEEL_FREESPIN, 1),
        SmartShiftMode::SmartShift => (WHEEL_RATCHET, clamp_threshold(threshold)),
    }
}

/// A getStatus reply: `(wheelMode, autoDisengage, autoDisengageDefault)`.
pub fn parse_status(rep: &Report) -> (r: (u8, u8, u8))
    ensures
        r == (param_of(rep@, 0), param_of(rep@, 1), param_of(rep@, 2)),
{
    (rep.param(0), rep.param(1), rep.param(2))
}

/// The setStatus parameters that apply a [`SmartShiftMode`] + threshold from
/// config, preserving the firmware's default auto-disengage value (0 when
/// the current status could not be read).
pub fn smartshift_params(mode: SmartShiftMode, threshold: u8, current: Option<(u8, u8, u8)>) -> (r: [u8; 3])
    ensures
        r@ == seq![
            status_for(mode, threshold).0,
            status_for(mode, threshold).1,
            match current {
                Some(s) => s.2,
                None => 0u8,
            },
        ],
{
    let default = match current {
        Some(s) => s.2,
        None => 0,
    };
    let (wheel_mode, auto_disengage) = match mode {
        SmartShiftMode::AlwaysRatchet => (WHEEL_RATCHET, 255u8),
        SmartShiftMode::AlwaysFreespin => (WHEEL_FREESPIN, 1u8),
        SmartShiftMode::SmartShift => {
            let t = if threshold < 1 {
                1
            } else if threshold > 30 {
                30
            } else {
                threshold
            };
            (WHEEL_RATCHET, t)
        },
    };
    let r = [wheel_mode, auto_disengage, default];
    assert(r@ =~= seq![wheel_mode, auto_disengage, default]);
    r
}

} // verus!
