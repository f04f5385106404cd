//! The process's shared state and its transitions.
//!
//! The program keeps one [`SharedState`] behind a lock for the hook callback,
//! the device thread and the message loop. Operations that can change whether
//! the wheel must fall back to native reports return the command to send the
//! device thread when (and only when) that changes; sending it is the
//! program's job.

use crate::channel::try_send;
use crate::config::{Action, ButtonMap, ButtonMapView, Config, ConfigView};
use crossbeam_channel::Sender;
use crate::hidpp::device::{DeviceCommand, DeviceStatus, StatusUpdate};
use crate::profiles::{resolve_button_map, resolve_in};
use vstd::prelude::*;

verus! {

/// Whether wheel input must go back to native device reports: after a failed
/// injection, or while a higher-integrity window has focus and no UIAccess
/// helper can reach it.
pub open spec fn fallback_needed(higher_integrity: bool, helper_available: bool, injection_failed: bool) -> bool {
    injection_failed || (higher_integrity && !helper_available)
}

pub fn needs_native_wheel_fallback(higher_integrity: bool, helper_available: bool, injection_failed: bool) -> (r: bool)
    ensures
        r == fallback_needed(higher_integrity, helper_available, injection_failed),
{
    injection_failed || (higher_integrity && !helper_available)
}

/// The button map in force for the foreground process `process`.
pub open spec fn map_for(cfg: ConfigView, process: Option<Seq<char>>) -> ButtonMapView {
    match process {
        Some(p) => resolve_in(cfg.profiles, p, cfg.default_profile.buttons),
        None => cfg.default_profile.buttons,
    }
}

pub open spec fn opt_view(p: Option<&str>) -> Option<Seq<char>> {
    match p {
        Some(s) => Some(s@),
        None => None,
    }
}

/// Everything the resident shares between its threads.
pub struct SharedState {
    pub config: Config,
    /// The mapping the hook is currently enforcing.
    pub active_map: ButtonMap,
    pub paused: bool,
    /// The foreground window is at a higher integrity level than ours (or
    /// could not be inspected).
    pub foreground_requires_native_wheel: bool,
    /// A verified UIAccess helper is ready to carry wheel input across UIPI.
    pub uiaccess_helper_available: bool,
    /// Injecting wheel input into the current foreground window failed.
    pub wheel_injection_failed: bool,
    /// The wheel is being handed back to native device reports.
    pub wheel_native_fallback: bool,
    pub device_status: DeviceStatus,
}

/// The command a fallback change calls for: re-apply the wheel mode.
pub open spec fn command_for_change(before: bool, after: bool) -> Option<DeviceCommand> {
    if before != after {
        Some(DeviceCommand::ApplyWheelMode)
    } else {
        None
    }
}

impl SharedState {
    /// The fallback flag always agrees with the three conditions it is derived
    /// from.
    pub open spec fn wf(&self) -> bool {
        self.wheel_native_fallback == fallback_needed(
            self.foreground_requires_native_wheel,
            self.uiaccess_helper_available,
            self.wheel_injection_failed,
        )
    }

    /// Recompute the fallback flag; the command to send when it changed.
    fn refresh_wheel_fallback(&mut self) -> (r: Option<DeviceCommand>)
        ensures
            final(self).wf(),
            final(self).wheel_native_fallback == fallback_needed(
                old(self).foreground_requires_native_wheel,
                old(self).uiaccess_helper_available,
                old(self).wheel_injection_failed,
            ),
            r == command_for_change(old(self).wheel_native_fallback, final(self).wheel_native_fallback),
            final(self).config == old(self).config,
            final(self).active_map == old(self).active_map,
            final(self).paused == old(self).paused,
            final(self).foreground_requires_native_wheel == old(self).foreground_requires_native_wheel,
            final(self).uiaccess_helper_available == old(self).uiaccess_helper_available,
            final(self).wheel_injection_failed == old(self).wheel_injection_failed,
            final(self).device_status == old(self).device_status,
    {
        let fallback = needs_native_wheel_fallback(
            self.foreground_requires_native_wheel,
            self.uiaccess_helper_available,
            self.wheel_injection_failed,
        );
        let before = self.wheel_native_fallback;
        self.wheel_native_fallback = fallback;
        if before != fallback {
            Some(DeviceCommand::ApplyWheelMode)
        } else {
            None
        }
    }
}

/// Recompute the active mapping from the current config + foreground process
/// `process`, and the wheel fallback for a foreground window that does
/// (`foreground_requires_native_wheel`) or does not need native input. A
/// prior injection failure belonged to the old foreground window, so the new
/// one gets to try the configured path again.
pub fn reevaluate_active_profile(
    st: &mut SharedState,
    process: Option<&str>,
    foreground_requires_native_wheel: bool,
) -> (r: Option<DeviceCommand>)
    requires
        old(st).wf(),
    ensures
        final(st).wf(),
        final(st).active_map@ == map_for(old(st).config@, opt_view(process)),
        final(st).foreground_requires_native_wheel == foreground_requires_native_wheel,
        !final(st).wheel_injection_failed,
        final(st).uiaccess_helper_available == old(st).uiaccess_helper_available,
        r == command_for_change(old(st).wheel_native_fallback, final(st).wheel_native_fallback),
        final(st).config == old(st).config,
        final(st).paused == old(st).paused,
        final(st).device_status == old(st).device_status,
{
    let map = resolve_button_map(&st.config, process);
    st.active_map = map;
    st.foreground_requires_native_wheel = foreground_requires_native_wheel;
    st.wheel_injection_failed = false;
    st.refresh_wheel_fallback()
}

/// Install the initial config and derive the active mapping for the
/// foreground window. Nothing else is known yet: not paused, no helper, no
/// injection failure, a blank device status.
pub fn init(config: Config, process: Option<&str>, foreground_requires_native_wheel: bool) -> (r: (
    SharedState,
    Option<DeviceCommand>,
))
    ensures
        r.0.wf(),
        r.0.config@ == config@,
        r.0.active_map@ == map_for(config@, opt_view(process)),
        !r.0.paused,
        r.0.foreground_requires_native_wheel == foreground_requires_native_wheel,
        !r.0.uiaccess_helper_available,
        !r.0.wheel_injection_failed,
        r.0.wheel_native_fallback == foreground_requires_native_wheel,
        r.0.device_status.is_blank(),
        r.1 == command_for_change(false, foreground_requires_native_wheel),
{
    let mut st = SharedState {
        config,
        active_map: ButtonMap::default(),
        paused: false,
        foreground_requires_native_wheel: false,
        uiaccess_helper_available: false,
        wheel_injection_failed: false,
        wheel_native_fallback: false,
        device_status: DeviceStatus::default(),
    };
    let cmd = reevaluate_active_profile(&mut st, process, foreground_requires_native_wheel);
    (st, cmd)
}

/// The current config.
pub fn config(st: &SharedState) -> (r: &Config)
    ensures
        r == st.config,
{
    &st.config
}

/// Replace the whole config (from the GUI or a reload), then recompute the
/// active mapping for the foreground window. Persisting it and notifying the
/// device thread of device settings is the caller's job.
pub fn set_config(
    st: &mut SharedState,
    config: Config,
    process: Option<&str>,
    foreground_requires_native_wheel: bool,
) -> (r: Option<DeviceCommand>)
    requires
        old(st).wf(),
    ensures
        final(st).wf(),
        final(st).config@ == config@,
        final(st).active_map@ == map_for(config@, opt_view(process)),
        final(st).foreground_requires_native_wheel == foreground_requires_native_wheel,
        !final(st).wheel_injection_failed,
        final(st).uiaccess_helper_available == old(st).uiaccess_helper_available,
        r == command_for_change(old(st).wheel_native_fallback, final(st).wheel_native_fallback),
        final(st).paused == old(st).paused,
        final(st).device_status == old(st).device_status,
{
    st.config = config;
    reevaluate_active_profile(st, process, foreground_requires_native_wheel)
}

/// The mapping the hook is currently enforcing.
pub fn active_map(st: &SharedState) -> (r: &ButtonMap)
    ensures
        r == st.active_map,
{
    &st.active_map
}

pub fn set_active_map(st: &mut SharedState, map: ButtonMap)
    requires
        old(st).wf(),
    ensures
        final(st).wf(),
        final(st).active_map == map,
        final(st).config == old(st).config,
        final(st).paused == old(st).paused,
        final(st).foreground_requires_native_wheel == old(st).foreground_requires_native_wheel,
        final(st).uiaccess_helper_available == old(st).uiaccess_helper_available,
        final(st).wheel_injection_failed == old(st).wheel_injection_failed,
        final(st).wheel_native_fallback == old(st).wheel_native_fallback,
        final(st).device_status == old(st).device_status,
{
    st.active_map = map;
}

pub fn wheel_native_fallback(st: &SharedState) -> (r: bool)
    ensures
        r == st.wheel_native_fallback,
{
    st.wheel_native_fallback
}

/// Record whether the UIAccess helper is available (set only after the broker
/// verified that its child token really has UIAccess). Losing the helper
/// immediately re-enables the native fallback for an elevated foreground.
pub fn set_uiaccess_helper_available(st: &mut SharedState, available: bool) -> (r: Option<DeviceCommand>)
    requires
        old(st).wf(),
    ensures
        final(st).wf(),
        final(st).uiaccess_helper_available == available,
        r == command_for_change(old(st).wheel_native_fallback, final(st).wheel_native_fallback),
        final(st).config == old(st).config,
        final(st).active_map == old(st).active_map,
        final(st).paused == old(st).paused,
        final(st).foreground_requires_native_wheel == old(st).foreground_requires_native_wheel,
        final(st).wheel_injection_failed == old(st).wheel_injection_failed,
        final(st).device_status == old(st).device_status,
{
    if st.uiaccess_helper_available != available {
        st.uiaccess_helper_available = available;
        st.refresh_wheel_fallback()
    } else {
        None
    }
}

/// Whether the next wheel event must cross UIPI through the helper.
pub fn wheel_needs_uiaccess_helper(st: &SharedState) -> (r: bool)
    ensures
        r == (st.foreground_requires_native_wheel && st.uiaccess_helper_available),
{
    st.foreground_requires_native_wheel && st.uiaccess_helper_available
}

/// Direct injection can be blocked even when inspecting the foreground token
/// was inconclusive: fail closed to native reports until focus changes.
pub fn report_wheel_injection_failure(st: &mut SharedState) -> (r: Option<DeviceCommand>)
    requires
        old(st).wf(),
    ensures
        final(st).wf(),
        final(st).wheel_injection_failed,
        final(st).wheel_native_fallback,
        r == command_for_change(old(st).wheel_native_fallback, true),
        final(st).config == old(st).config,
        final(st).active_map == old(st).active_map,
        final(st).paused == old(st).paused,
        final(st).foreground_requires_native_wheel == old(st).foreground_requires_native_wheel,
        final(st).uiaccess_helper_available == old(st).uiaccess_helper_available,
        final(st).device_status == old(st).device_status,
{
    if !st.wheel_injection_failed {
        st.wheel_injection_failed = true;
        st.refresh_wheel_fallback()
    } else {
        None
    }
}

pub fn is_paused(st: &SharedState) -> (r: bool)
    ensures
        r == st.paused,
{
    st.paused
}

pub fn set_paused(st: &mut SharedState, paused: bool)
    requires
        old(st).wf(),
    ensures
        final(st).wf(),
        *final(st) == (SharedState { paused, ..*old(st) }),
{
    st.paused = paused;
}

pub fn device_status(st: &SharedState) -> (r: &DeviceStatus)
    ensures
        r == st.device_status,
{
    &st.device_status
}

pub fn set_device_status(st: &mut SharedState, status: DeviceStatus)
    requires
        old(st).wf(),
    ensures
        final(st).wf(),
        *final(st) == (SharedState { device_status: status, ..*old(st) }),
{
    st.device_status = status;
}

/// Apply one change to the published device status; every other field of the
/// status (and of the state) is kept.
pub fn update_device_status(st: &mut SharedState, update: StatusUpdate)
    requires
        old(st).wf(),
    ensures
        final(st).wf(),
        final(st).config == old(st).config,
        final(st).active_map == old(st).active_map,
        final(st).paused == old(st).paused,
        final(st).wheel_native_fallback == old(st).wheel_native_fallback,
        match update {
            StatusUpdate::Disconnected => final(st).device_status == (DeviceStatus {
                connected: false,
                ..old(st).device_status
            }),
            StatusUpdate::Battery { percent, charging } => final(st).device_status == (DeviceStatus {
                battery_percent: Some(percent),
                charging,
                ..old(st).device_status
            }),
            StatusUpdate::Settings {
                dpi_list,
                dpi_current,
                smartshift_freespin,
                smartshift_threshold,
                hires_on,
            } => final(st).device_status == (DeviceStatus {
                dpi_list,
                dpi_current,
                smartshift_freespin,
                smartshift_threshold,
                hires_on,
                ..old(st).device_status
            }),
        },
{
    match update {
        StatusUpdate::Disconnected => {
            st.device_status.connected = false;
        },
        StatusUpdate::Battery { percent, charging } => {
            st.device_status.battery_percent = Some(percent);
            st.device_status.charging = charging;
        },
        StatusUpdate::Settings {
            dpi_list,
            dpi_current,
            smartshift_freespin,
            smartshift_threshold,
            hires_on,
        } => {
            st.device_status.dpi_list = dpi_list;
            st.device_status.dpi_current = dpi_current;
            st.device_status.smartshift_freespin = smartshift_freespin;
            st.device_status.smartshift_threshold = smartshift_threshold;
            st.device_status.hires_on = hires_on;
        },
    }
}

/// The queues to the injector and device threads, once they run.
pub struct Channels {
    pub inject_tx: Option<Sender<Action>>,
    pub device_tx: Option<Sender<DeviceCommand>>,
}

impl Channels {
    /// No worker running yet.
    pub fn new() -> (r: Self)
        ensures
            r.inject_tx is None,
            r.device_tx is None,
    {
        Channels { inject_tx: None, device_tx: None }
    }
}

pub fn set_inject_tx(ch: &mut Channels, tx: Sender<Action>)
    ensures
        final(ch).inject_tx == Some(tx),
        final(ch).device_tx == old(ch).device_tx,
{
    ch.inject_tx = Some(tx);
}

/// Queue an action for the injector thread without blocking (the hook
/// callback must never wait). Returns whether it was queued; with no injector
/// running it is not.
pub fn inject(ch: &Channels, action: Action) -> (queued: bool)
    ensures
        queued ==> ch.inject_tx is Some,
{
    match &ch.inject_tx {
        Some(tx) => try_send(tx, action),
        None => false,
    }
}

pub fn set_device_tx(ch: &mut Channels, tx: Sender<DeviceCommand>)
    ensures
        final(ch).device_tx == Some(tx),
        final(ch).inject_tx == old(ch).inject_tx,
{
    ch.device_tx = Some(tx);
}

/// Send a command to the device thread without blocking (nothing happens
/// when it is not running). Returns whether it was queued.
pub fn device_command(ch: &Channels, cmd: DeviceCommand) -> (queued: bool)
    ensures
        queued ==> ch.device_tx is Some,
{
    match &ch.device_tx {
        Some(tx) => try_send(tx, cmd),
        None => false,
    }
}

/// An elevated foreground window fails closed without the helper: with no
/// injection failure, native wheel reports are used exactly when the window is
/// at a higher integrity level and no helper is available; an injection
/// failure forces them regardless.
pub proof fn lemma_elevated_foreground_fails_closed(higher: bool, helper: bool, failed: bool)
    ensures
        fallback_needed(higher, helper, false) == (higher && !helper),
        fallback_needed(higher, helper, true),
        !fallback_needed(false, helper, false),
{
}

} // verus!
