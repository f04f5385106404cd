//! Feature 0x1000 BATTERY_STATUS (the 2S predates 0x1004 UNIFIED_BATTERY).

use vstd::prelude::*;

verus! {

/// Whether a battery status code means the battery is charging:
/// 1 recharging, 2 almost-full (charging), 3 charge-complete.
pub open spec fn is_charging_status(status: u8) -> bool {
    status == 1 || status == 2 || status == 3
}

/// Map a `getBatteryLevelStatus` reply / broadcast into `(percent, charging)`.
///
/// `status`: 0 discharging, 1 recharging, 2 almost-full (charging),
/// 3 charge-complete, 4 charging-error, 5 invalid battery, 6 thermal-error.
pub fn interpret(level: u8, status: u8) -> (r: (u8, bool))
    ensures
        r == (level, is_charging_status(status)),
{
    let charging = matches!(status, 1 | 2 | 3);
    (level, charging)
}

} // verus!
