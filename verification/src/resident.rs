//! Decisions of the always-resident process (tray, hook, HID thread and the
//! message pump live in the program around the library).

use crate::hidpp::device::DeviceStatus;
use crate::text::{decimal, push_decimal, push_str};
use vstd::prelude::*;

verus! {

pub open spec fn tray_battery_text_of(connected: bool, percent: Option<u8>, charging: bool) -> Seq<char> {
    if !connected {
        "Device: disconnected"@
    } else {
        match percent {
            Some(p) => "Battery: "@ + decimal(p as nat) + "%"@ + if charging {
                " (charging)"@
            } else {
                Seq::empty()
            },
            None => "Battery: unknown"@,
        }
    }
}

/// The tray menu's battery line.
pub fn tray_battery_text(status: &DeviceStatus) -> (r: String)
    ensures
        r@ == tray_battery_text_of(status.connected, status.battery_percent, status.charging),
{
    if !status.connected {
        return "Device: disconnected".to_owned();
    }
    match status.battery_percent {
        Some(p) => {
            let mut s = "Battery: ".to_owned();
            push_decimal(&mut s, p as u32);
            push_str(&mut s, "%");
            if status.charging {
                push_str(&mut s, " (charging)");
            }
            assert(s@ =~= tray_battery_text_of(status.connected, status.battery_percent, status.charging));
            s
        },
        None => "Battery: unknown".to_owned(),
    }
}

/// How often the live status is published for the settings process.
pub const STATUS_WRITE_MS: u64 = 1000;

/// How often `config.toml` is checked for an outside edit.
pub const CONFIG_CHECK_MS: u64 = 500;

/// When the resident loop last did its periodic work, in milliseconds of a
/// monotonic clock.
pub struct LoopTimers {
    pub last_status_ms: u64,
    pub last_config_check_ms: u64,
}

/// Whether `period` has passed since `last` at `now` (a clock reading before
/// `last` counts as no time passed).
pub open spec fn elapsed(last: u64, now: u64, period: u64) -> bool {
    now >= last && now - last >= period
}

/// The periodic work due in one turn of the resident loop.
pub struct LoopWork {
    /// Publish the device status for the settings process.
    pub write_status: bool,
    /// Look at `config.toml`'s modification time.
    pub check_config: bool,
}

impl LoopTimers {
    /// Both periods start at `now_ms`.
    pub fn new(now_ms: u64) -> (r: LoopTimers)
        ensures
            r.last_status_ms == now_ms,
            r.last_config_check_ms == now_ms,
    {
        LoopTimers { last_status_ms: now_ms, last_config_check_ms: now_ms }
    }

    /// The work due at `now_ms`; each period restarts when its work is due.
    pub fn tick(&mut self, now_ms: u64) -> (r: LoopWork)
        ensures
            r.write_status == elapsed(old(self).last_status_ms, now_ms, STATUS_WRITE_MS),
            r.check_config == elapsed(old(self).last_config_check_ms, now_ms, CONFIG_CHECK_MS),
            final(self).last_status_ms == (if r.write_status {
                now_ms
            } else {
                old(self).last_status_ms
            }),
            final(self).last_config_check_ms == (if r.check_config {
                now_ms
            } else {
                old(self).last_config_check_ms
            }),
    {
        let write_status = now_ms >= self.last_status_ms && now_ms - self.last_status_ms >= STATUS_WRITE_MS;
        let check_config = now_ms >= self.last_config_check_ms && now_ms - self.last_config_check_ms
            >= CONFIG_CHECK_MS;
        if write_status {
            self.last_status_ms = now_ms;
        }
        if check_config {
            self.last_config_check_ms = now_ms;
        }
        LoopWork { write_status, check_config }
    }
}

/// A file's modification time: seconds and nanoseconds since the Unix epoch.
pub type FileStamp = (u64, u32);

/// Whether the configuration file changed since the last reload that parsed.
pub fn config_changed(known: Option<FileStamp>, current: Option<FileStamp>) -> (r: bool)
    ensures
        r == (known != current),
{
    match (known, current) {
        (None, None) => false,
        (Some(a), Some(b)) => a.0 != b.0 || a.1 != b.1,
        _ => true,
    }
}

/// The time kept after trying to reload a changed file: it moves to the
/// file's time only once the file parsed.
pub open spec fn stamp_after_reload(known: Option<FileStamp>, current: Option<FileStamp>, parsed: bool) -> Option<FileStamp> {
    if parsed {
        current
    } else {
        known
    }
}

/// After trying to reload a changed file, record the file's time if (and
/// only if) it parsed, so a partial write from the settings process is
/// retried on the next check rather than skipped.
pub fn after_reload(known: &mut Option<FileStamp>, current: Option<FileStamp>, parsed: bool)
    ensures
        *final(known) == stamp_after_reload(*old(known), current, parsed),
{
    if parsed {
        *known = current;
    }
}

/// An edit that does not parse is looked at again at the next check, and an
/// edit that parsed is not reloaded twice.
pub proof fn lemma_unparsed_edit_is_retried(known: Option<FileStamp>, current: Option<FileStamp>)
    requires
        known != current,
    ensures
        stamp_after_reload(known, current, false) != current,
        stamp_after_reload(known, current, true) == current,
{
}

} // verus!
