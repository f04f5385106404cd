//! The HID++ device engine's decisions: which incoming report answers a
//! request, where a device-initiated event goes, and what the published
//! device status becomes. The program runs the request/response loop over the
//! HID handle and acts on these answers.

use crate::hidpp::features::battery::{interpret, is_charging_status};
use crate::hidpp::features::reprog::CID_GESTURE;
use crate::hidpp::protocol::{
    address, address_of, be16, be16_of, byte_at, function_of, is_error_10_of, is_error_20_of,
    is_event_of, param_of, Report, FEAT_ADJUSTABLE_DPI, FEAT_BATTERY_STATUS, FEAT_DEVICE_INFO,
    FEAT_FEATURE_SET, FEAT_HIRES_WHEEL, FEAT_REPROG_CONTROLS_V4, FEAT_SMART_SHIFT,
    REPORT_ID_SHORT,
};
use crate::hidpp::features::hires_wheel::signed16;
use crate::channel::Signal;
use vstd::prelude::*;

verus! {

/// Ask the device thread to stop at its next check.
pub fn request_stop(shutdown: &Signal) {
    shutdown.raise();
}

/// Resolved feature id -> feature index map (indices vary by firmware).
#[derive(Debug, Clone)]
pub struct FeatureMap {
    pub feature_set: Option<u8>,
    pub device_info: Option<u8>,
    pub battery: Option<u8>,
    pub reprog: Option<u8>,
    pub smartshift: Option<u8>,
    pub hires_wheel: Option<u8>,
    pub dpi: Option<u8>,
    /// Full (id, index) list for the Device tab / logs.
    pub all: Vec<(u16, u8)>,
}

impl FeatureMap {
    /// No features resolved yet.
    pub fn new() -> (r: FeatureMap)
        ensures
            r.feature_set is None,
            r.device_info is None,
            r.battery is None,
            r.reprog is None,
            r.smartshift is None,
            r.hires_wheel is None,
            r.dpi is None,
            r.all@ == Seq::<(u16, u8)>::empty(),
    {
        FeatureMap {
            feature_set: None,
            device_info: None,
            battery: None,
            reprog: None,
            smartshift: None,
            hires_wheel: None,
            dpi: None,
            all: Vec::new(),
        }
    }

    /// The (id, index) pairs of the features resolved through IRoot, in the
    /// fixed order feature set, device info, battery, reprog, SmartShift,
    /// hi-res wheel, DPI.
    pub open spec fn resolved_spec(&self) -> Seq<(u16, u8)> {
        pair_of(FEAT_FEATURE_SET, self.feature_set) + pair_of(FEAT_DEVICE_INFO, self.device_info)
            + pair_of(FEAT_BATTERY_STATUS, self.battery) + pair_of(FEAT_REPROG_CONTROLS_V4, self.reprog)
            + pair_of(FEAT_SMART_SHIFT, self.smartshift) + pair_of(FEAT_HIRES_WHEEL, self.hires_wheel)
            + pair_of(FEAT_ADJUSTABLE_DPI, self.dpi)
    }

    /// The subset resolved through IRoot, used when IFeatureSet gives nothing.
    pub fn resolved_pairs(&self) -> (r: Vec<(u16, u8)>)
        ensures
            r@ == self.resolved_spec(),
    {
        let mut v: Vec<(u16, u8)> = Vec::new();
        push_pair(&mut v, FEAT_FEATURE_SET, self.feature_set);
        push_pair(&mut v, FEAT_DEVICE_INFO, self.device_info);
        push_pair(&mut v, FEAT_BATTERY_STATUS, self.battery);
        push_pair(&mut v, FEAT_REPROG_CONTROLS_V4, self.reprog);
        push_pair(&mut v, FEAT_SMART_SHIFT, self.smartshift);
        push_pair(&mut v, FEAT_HIRES_WHEEL, self.hires_wheel);
        push_pair(&mut v, FEAT_ADJUSTABLE_DPI, self.dpi);
        assert(v@ =~= self.resolved_spec());
        v
    }

    /// Settle `all`: the full IFeatureSet table when it produced anything,
    /// else the subset resolved through IRoot.
    pub fn set_all(&mut self, enumerated: Vec<(u16, u8)>)
        ensures
            final(self).all@ == (if enumerated@.len() > 0 {
                enumerated@
            } else {
                old(self).resolved_spec()
            }),
            final(self).feature_set == old(self).feature_set,
            final(self).device_info == old(self).device_info,
            final(self).battery == old(self).battery,
            final(self).reprog == old(self).reprog,
            final(self).smartshift == old(self).smartshift,
            final(self).hires_wheel == old(self).hires_wheel,
            final(self).dpi == old(self).dpi,
    {
        if enumerated.len() > 0 {
            self.all = enumerated;
        } else {
            self.all = self.resolved_pairs();
        }
    }
}

pub open spec fn pair_of(id: u16, idx: Option<u8>) -> Seq<(u16, u8)> {
    match idx {
        Some(i) => seq![(id, i)],
        None => Seq::empty(),
    }
}

fn push_pair(v: &mut Vec<(u16, u8)>, id: u16, idx: Option<u8>)
    ensures
        final(v)@ == old(v)@ + pair_of(id, idx),
{
    if let Some(i) = idx {
        v.push((id, i));
    }
    assert(v@ =~= old(v)@ + pair_of(id, idx));
}

/// Snapshot of device state published to the GUI/tray and to the settings
/// process (via the status file).
#[derive(Debug, Clone)]
pub struct DeviceStatus {
    pub connected: bool,
    pub connection: Option<String>,
    pub battery_percent: Option<u8>,
    pub charging: bool,
    pub firmware: Option<String>,
    pub features: Vec<(u16, u8)>,
    pub dpi_current: Option<u16>,
    pub dpi_list: Vec<u16>,
    pub smartshift_freespin: Option<bool>,
    pub smartshift_threshold: Option<u8>,
    pub hires_on: Option<bool>,
}

impl DeviceStatus {
    /// Nothing known: disconnected, every reading absent.
    pub open spec fn is_blank(&self) -> bool {
        &&& !self.connected
        &&& self.connection is None
        &&& self.battery_percent is None
        &&& !self.charging
        &&& self.firmware is None
        &&& self.features@.len() == 0
        &&& self.dpi_current is None
        &&& self.dpi_list@.len() == 0
        &&& self.smartshift_freespin is None
        &&& self.smartshift_threshold is None
        &&& self.hires_on is None
    }
}

impl Default for DeviceStatus {
    fn default() -> (r: Self)
        ensures
            r.is_blank(),
    {
        DeviceStatus {
            connected: false,
            connection: None,
            battery_percent: None,
            charging: false,
            firmware: None,
            features: Vec::new(),
            dpi_current: None,
            dpi_list: Vec::new(),
            smartshift_freespin: None,
            smartshift_threshold: None,
            hires_on: None,
        }
    }
}

/// The status published once discovery succeeds: connected, with what
/// discovery read; the live settings come separately.
pub fn connected_status(
    connection: String,
    battery: Option<(u8, bool)>,
    firmware: Option<String>,
    features: Vec<(u16, u8)>,
) -> (r: DeviceStatus)
    ensures
        r.connected,
        r.connection == Some(connection),
        r.battery_percent == (match battery {
            Some(b) => Some(b.0),
            None => None,
        }),
        r.charging == (match battery {
            Some(b) => b.1,
            None => false,
        }),
        r.firmware == firmware,
        r.features@ == features@,
        r.dpi_current is None,
        r.dpi_list@.len() == 0,
        r.smartshift_freespin is None,
        r.smartshift_threshold is None,
        r.hires_on is None,
{
    DeviceStatus {
        connected: true,
        connection: Some(connection),
        battery_percent: match battery {
            Some(b) => Some(b.0),
            None => None,
        },
        charging: match battery {
            Some(b) => b.1,
            None => false,
        },
        firmware,
        features,
        dpi_current: None,
        dpi_list: Vec::new(),
        smartshift_freespin: None,
        smartshift_threshold: None,
        hires_on: None,
    }
}

/// A change to the published device status.
pub enum StatusUpdate {
    /// The device went away (its last readings are kept).
    Disconnected,
    /// A battery reading.
    Battery { percent: u8, charging: bool },
    /// The live settings read back from the device.
    Settings {
        dpi_list: Vec<u16>,
        dpi_current: Option<u16>,
        smartshift_freespin: Option<bool>,
        smartshift_threshold: Option<u8>,
        hires_on: Option<bool>,
    },
}

/// The settings snapshot from what the device reported: the DPI list and
/// current DPI, SmartShift `(wheelMode, autoDisengage, default)` (freespin is
/// wheel mode 1) and the wheel mode byte (hi-res is bit 0x02).
pub fn settings_update(
    dpi_list: Vec<u16>,
    dpi_current: Option<u16>,
    smartshift: Option<(u8, u8, u8)>,
    wheel_mode: Option<u8>,
) -> (r: StatusUpdate)
    ensures
        r matches StatusUpdate::Settings {
            dpi_list: l,
            dpi_current: c,
            smartshift_freespin: f,
            smartshift_threshold: t,
            hires_on: h,
        } && l@ == dpi_list@ && c == dpi_current && f == (match smartshift {
            Some(s) => Some(s.0 == 1),
            None => None,
        }) && t == (match smartshift {
            Some(s) => Some(s.1),
            None => None,
        }) && h == (match wheel_mode {
            Some(m) => Some(m & 0x02 != 0),
            None => None,
        }),
{
    let (f, t) = match smartshift {
        Some((wheel_mode, auto, _)) => (Some(wheel_mode == 1), Some(auto)),
        None => (None, None),
    };
    let h = match wheel_mode {
        Some(m) => Some(m & 0x02 != 0),
        None => None,
    };
    StatusUpdate::Settings {
        dpi_list,
        dpi_current,
        smartshift_freespin: f,
        smartshift_threshold: t,
        hires_on: h,
    }
}

/// Commands sent to the device thread.
#[derive(Debug, Clone, Copy, PartialEq, Eq, Structural)]
pub enum DeviceCommand {
    /// Apply the current `config.device` (SmartShift, DPI, hi-res).
    ApplyDeviceConfig,
    /// Re-assert every control's divert state per `config.gestures`.
    ApplyControlDiverts,
    /// Re-apply the wheel mode: native reports while the foreground window
    /// cannot take injected wheel input, the configured mode otherwise.
    ApplyWheelMode,
    /// Stop the thread.
    Shutdown,
}

/// What an incoming report means while a request is outstanding.
#[derive(Debug, Clone, Copy, PartialEq, Eq, Structural)]
pub enum ReplyKind {
    /// The reply to the request.
    Reply,
    /// A HID++ 2.0 error for the request, with its code.
    Failed(u8),
    /// An error report for something else; skip it.
    Ignore,
    /// A device-initiated event (or a report for another device); route it.
    Event,
}

/// The meaning of a report while waiting for the answer to
/// `(device_index, feature_index, function)`.
pub open spec fn reply_kind_of(raw: Seq<u8>, device_index: u8, feature_index: u8, function: u8) -> ReplyKind {
    if byte_at(raw, 1) != device_index {
        ReplyKind::Event
    } else if is_error_20_of(raw) {
        if byte_at(raw, 3) == feature_index && byte_at(raw, 4) == address_of(function) {
            ReplyKind::Failed(byte_at(raw, 5))
        } else {
            ReplyKind::Ignore
        }
    } else if is_error_10_of(raw) {
        ReplyKind::Ignore
    } else if byte_at(raw, 2) == feature_index && byte_at(raw, 3) == address_of(function) {
        ReplyKind::Reply
    } else {
        ReplyKind::Event
    }
}

/// Classify a report read while a request is outstanding.
///
/// A reply must come from the addressed device and echo the feature index and
/// the address byte (function and our software id). A 2.0 error counts only
/// when it names that feature index and address; a 1.0 error (e.g. an empty
/// receiver slot) is skipped; anything else is an event to route.
pub fn classify_reply(rep: &Report, device_index: u8, feature_index: u8, function: u8) -> (r: ReplyKind)
    ensures
        r == reply_kind_of(rep@, device_index, feature_index, function),
{
    let addr = address(function);
    if rep.device_index() != device_index {
        return ReplyKind::Event;
    }
    if rep.is_error_20() {
        let (fidx, faddr, code) = rep.error_20();
        if fidx == feature_index && faddr == addr {
            return ReplyKind::Failed(code);
        }
        return ReplyKind::Ignore;
    }
    if rep.is_error_10() {
        // A 1.0 error not for us (e.g. an empty receiver slot ping).
        return ReplyKind::Ignore;
    }
    if rep.feature_index() == feature_index && rep.address_byte() == addr {
        return ReplyKind::Reply;
    }
    ReplyKind::Event
}

/// A diverted REPROG_CONTROLS_V4 event.
#[derive(Debug, Clone, PartialEq, Eq)]
pub enum ReprogEvent {
    /// divertedButtonsEvent: the non-zero control ids currently held, and
    /// whether the gesture button is among them.
    Buttons { cids: Vec<u16>, gesture_held: bool },
    /// divertedRawMouseXYEvent: signed big-endian dx, dy.
    RawXY { dx: i32, dy: i32 },
}

/// The non-zero control ids among the first `n` slots of a
/// divertedButtonsEvent.
pub open spec fn held_cids(raw: Seq<u8>, n: nat) -> Seq<u16>
    decreases n,
{
    if n == 0 {
        Seq::empty()
    } else {
        let rest = held_cids(raw, (n - 1) as nat);
        let cid = be16_of(raw, 2 * (n - 1));
        if cid != 0 {
            rest.push(cid)
        } else {
            rest
        }
    }
}

/// Whether `ev` is the decoding of the REPROG_CONTROLS_V4 event `raw`.
pub open spec fn decodes_reprog(raw: Seq<u8>, ev: ReprogEvent) -> bool {
    if function_of(raw) == 0 {
        ev matches ReprogEvent::Buttons { cids, gesture_held } && cids@ == held_cids(raw, 4)
            && gesture_held == held_cids(raw, 4).contains(CID_GESTURE)
    } else {
        ev == (ReprogEvent::RawXY {
            dx: signed16(be16_of(raw, 0)) as i32,
            dy: signed16(be16_of(raw, 2)) as i32,
        })
    }
}

/// Decode a diverted REPROG_CONTROLS_V4 event: function 0 carries up to four
/// held control ids, any other function raw XY.
pub fn decode_reprog_event(rep: &Report) -> (r: ReprogEvent)
    ensures
        decodes_reprog(rep@, r),
{
    if rep.function() == 0 {
        let mut cids: Vec<u16> = Vec::new();
        let mut gesture_held = false;
        let mut i: usize = 0;
        while i < 4
            invariant
                i <= 4,
                cids@ == held_cids(rep@, i as nat),
                gesture_held == cids@.contains(CID_GESTURE),
            decreases 4 - i,
        {
            let cid = be16(rep.param(i * 2), rep.param(i * 2 + 1));
            let ghost before = cids@;
            if cid != 0 {
                cids.push(cid);
                if cid == CID_GESTURE {
                    gesture_held = true;
                }
                proof {
                    assert(cids@.last() == cid);
                    if gesture_held && cid != CID_GESTURE {
                        let k = choose|k: int| 0 <= k < before.len() && before[k] == CID_GESTURE;
                        assert(cids@[k] == CID_GESTURE);
                    }
                    if cids@.contains(CID_GESTURE) && cid != CID_GESTURE {
                        let k = choose|k: int| 0 <= k < cids@.len() && cids@[k] == CID_GESTURE;
                        assert(before[k] == CID_GESTURE);
                    }
                    if cid == CID_GESTURE {
                        assert(cids@[cids@.len() - 1] == CID_GESTURE);
                    }
                }
            }
            i = i + 1;
        }
        ReprogEvent::Buttons { cids, gesture_held }
    } else {
        let x = be16(rep.param(0), rep.param(1));
        let y = be16(rep.param(2), rep.param(3));
        assert(x as i16 as i32 == (if x >= 0x8000 { x - 0x10000 } else { x as int })) by (bit_vector);
        assert(y as i16 as i32 == (if y >= 0x8000 { y - 0x10000 } else { y as int })) by (bit_vector);
        ReprogEvent::RawXY { dx: x as i16 as i32, dy: y as i16 as i32 }
    }
}

/// Where a device-initiated report goes.
#[derive(Debug, Clone, PartialEq, Eq)]
pub enum Route {
    /// The receiver's device-connection notification (short report, sub-id
    /// 0x41): the mouse woke or reconnected, so everything is re-applied.
    Reconnected,
    /// A battery broadcast.
    Battery { percent: u8, charging: bool },
    /// A diverted control event.
    Reprog(ReprogEvent),
    /// Wheel movement, diverted because high-resolution scrolling is on.
    Wheel,
    /// Nothing handles it (it is logged).
    Unhandled,
}

pub open spec fn is_feature_event(raw: Seq<u8>, idx: Option<u8>) -> bool {
    idx == Some(byte_at(raw, 2)) && is_event_of(raw)
}

/// Route a device-initiated report by the feature it comes from.
pub fn route_event(rep: &Report, features: &FeatureMap) -> (r: Route)
    ensures
        byte_at(rep@, 0) == REPORT_ID_SHORT && byte_at(rep@, 2) == 0x41 ==> r == Route::Reconnected,
        !(byte_at(rep@, 0) == REPORT_ID_SHORT && byte_at(rep@, 2) == 0x41) ==> {
            if is_feature_event(rep@, features.battery) {
                r == (Route::Battery {
                    percent: param_of(rep@, 0),
                    charging: is_charging_status(param_of(rep@, 2)),
                })
            } else if is_feature_event(rep@, features.reprog) {
                r matches Route::Reprog(ev) && decodes_reprog(rep@, ev)
            } else if is_feature_event(rep@, features.hires_wheel) {
                r == Route::Wheel
            } else {
                r == Route::Unhandled
            }
        },
{
    if rep.report_id() == REPORT_ID_SHORT && rep.feature_index() == 0x41 {
        return Route::Reconnected;
    }
    let fi = rep.feature_index();
    let event = rep.is_event();
    if features.battery == Some(fi) && event {
        let (pct, charging) = interpret(rep.param(0), rep.param(2));
        return Route::Battery { percent: pct, charging };
    }
    if features.reprog == Some(fi) && event {
        return Route::Reprog(decode_reprog_event(rep));
    }
    if features.hires_wheel == Some(fi) && event {
        return Route::Wheel;
    }
    Route::Unhandled
}

} // verus!
