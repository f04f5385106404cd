//! Feature 0x2121 HIRES_WHEEL (smooth/high-resolution scrolling + invert).
//!
//! function 0 getWheelCapability -> multiplier, flags
//! function 1 getMode -> mode byte
//! function 2 setMode <- mode byte
//! event 0    wheelMovement: periods byte, then int16 BE delta
//!
//! mode bits: 0x01 target (divert to HID++), 0x02 high-resolution, 0x04 invert.
//!
//! High resolution also sets the target bit: the wheel then reports to us as
//! HID++ events, which are scaled back to Windows' wheel units and re-injected.
//! Windows is never told the resolution changed, so without the divert it would
//! read every increment as a whole notch.

use crate::hidpp::protocol::{be16, function_of, param_of, Report};
use vstd::prelude::*;

verus! {

/// Mode bit: route wheel movement to HID++ instead of the OS.
pub const MODE_TARGET: u8 = 0x01;
/// Mode bit: report `multiplier` increments per detent.
pub const MODE_HIRES: u8 = 0x02;
/// Mode bit: invert the scroll direction.
pub const MODE_INVERT: u8 = 0x04;

/// One wheel notch, in Windows' wheel units.
pub const WHEEL_DELTA: i32 = 120;

/// After this many milliseconds with no wheel report, the next movement has to
/// clear the deadzone again.
pub const IDLE_MS: u64 = 300;

/// The multiplier assumed when the device will not report one.
pub const DEFAULT_MULTIPLIER: i32 = 8;

/// The sign of `x`: -1, 0 or 1.
pub open spec fn sgn(x: int) -> int {
    if x > 0 {
        1
    } else if x < 0 {
        -1
    } else {
        0
    }
}

pub open spec fn abs(x: int) -> int {
    if x < 0 {
        -x
    } else {
        x
    }
}

/// Rust's `/` on integers: the quotient rounded toward zero (`b > 0`).
pub open spec fn trunc_div(a: int, b: int) -> int {
    if a >= 0 {
        a / b
    } else {
        -((-a) / b)
    }
}

/// Rust's `%` on integers: the remainder that goes with [`trunc_div`], carrying
/// the sign of `a`.
pub open spec fn trunc_rem(a: int, b: int) -> int {
    a - b * trunc_div(a, b)
}

/// `x.signum()` for an `i32`.
pub fn signum(x: i32) -> (r: i32)
    ensures
        r == sgn(x as int),
{
    if x > 0 {
        1
    } else if x < 0 {
        -1
    } else {
        0
    }
}

/// Whether the movement `delta` continues a scroll already running in `dir`.
pub open spec fn continues(delta: int, dir: int) -> bool {
    dir != 0 && sgn(delta) == dir
}

/// The outcome of one deadzone step: `(movement to emit, new pending, new
/// direction)`.
///
/// With the filter off (`deadzone <= 0`) everything passes and the direction
/// follows the movement. Movement continuing the established direction passes
/// unchanged and drops whatever was held against it. Otherwise the movement is
/// added to what is held; once the total reaches the deadzone it all comes
/// out and the direction becomes its sign, else it stays held.
pub open spec fn deadzone_result(delta: int, deadzone: int, pending: int, dir: int) -> (
    Option<int>,
    int,
    int,
) {
    if deadzone <= 0 {
        (Some(delta), 0, if delta != 0 { sgn(delta) } else { dir })
    } else if continues(delta, dir) {
        (Some(delta), 0, dir)
    } else if abs(pending + delta) >= deadzone {
        (Some(pending + delta), 0, sgn(pending + delta))
    } else {
        (None, pending + delta, dir)
    }
}

/// Whether the deadzone step adds `delta` to what is held (and so computes
/// `pending + delta`).
pub open spec fn accumulates(delta: int, deadzone: int, dir: int) -> bool {
    deadzone > 0 && !continues(delta, dir)
}

pub open spec fn opt_int(o: Option<i32>) -> Option<int> {
    match o {
        Some(v) => Some(v as int),
        None => None,
    }
}

/// One step of the scroll deadzone: `(movement to emit, new pending, new
/// direction)`.
///
/// `dir` is the direction the current gesture is already scrolling in: `0`
/// before it has cleared the deadzone, then `-1` or `+1`. The deadzone guards
/// the start of a scroll and a reversal partway through; movement continuing
/// the established direction is never clipped.
pub fn deadzone_step(delta: i32, deadzone: i32, pending: i32, dir: i32) -> (r: (Option<i32>, i32, i32))
    requires
        accumulates(delta as int, deadzone as int, dir as int) ==> i32::MIN < pending + delta
            <= i32::MAX,
    ensures
        (opt_int(r.0), r.1 as int, r.2 as int) == deadzone_result(
            delta as int,
            deadzone as int,
            pending as int,
            dir as int,
        ),
{
    if deadzone <= 0 {
        // Filter off: forward everything, still tracking direction so turning
        // the deadzone back on mid-scroll behaves.
        return (Some(delta), 0, if delta != 0 { signum(delta) } else { dir });
    }
    if dir != 0 && signum(delta) == dir {
        // Continuing the current scroll: never clipped, and any half-built
        // reversal is abandoned.
        return (Some(delta), 0, dir);
    }
    // Starting a scroll or pushing against it: accumulate until the threshold
    // is crossed. Summing means a rocking finger cancels itself out.
    let pending = pending + delta;
    let magnitude = if pending < 0 { -pending } else { pending };
    if magnitude >= deadzone {
        (Some(pending), 0, signum(pending))
    } else {
        (None, pending, dir)
    }
}

/// The remainder that a scale step actually carries: dropped when the wheel
/// reverses, since it was accumulating toward a unit the other way.
pub open spec fn carried(delta: int, remainder: int) -> int {
    if (remainder > 0 && delta < 0) || (remainder < 0 && delta > 0) {
        0
    } else {
        remainder
    }
}

/// Convert a hi-res `delta` to Windows wheel units, carrying the sub-unit
/// remainder so a slow scroll is not quantised away. Returns `(out, new
/// remainder)`: the quotient and remainder of `delta * 120 + carry` by `mult`,
/// rounded toward zero.
pub fn scale_step(delta: i32, mult: i32, remainder: i32) -> (r: (i32, i32))
    requires
        mult > 0,
        i32::MIN <= delta * WHEEL_DELTA + carried(delta as int, remainder as int) <= i32::MAX,
    ensures
        r.0 == trunc_div(delta * WHEEL_DELTA + carried(delta as int, remainder as int), mult as int),
        r.1 == trunc_rem(delta * WHEEL_DELTA + carried(delta as int, remainder as int), mult as int),
{
    // Opposite signs mean the wheel just changed direction.
    let sr = signum(remainder);
    let sd = signum(delta);
    let carry = if (sr == 1 && sd == -1) || (sr == -1 && sd == 1) {
        0
    } else {
        remainder
    };
    assert(carry == carried(delta as int, remainder as int));
    let scaled = delta * WHEEL_DELTA + carry;
    let q = scaled / mult;
    let m = scaled % mult;
    assert(q == trunc_div(scaled as int, mult as int));
    proof {
        let a = scaled as int;
        let b = mult as int;
        assert(m == (if a >= 0 { a % b } else { -((-a) % b) }));
        assert(m == trunc_rem(a, b)) by (nonlinear_arith)
            requires
                b > 0,
                q == trunc_div(a, b),
                m == (if a >= 0 { a % b } else { -((-a) % b) }),
        ;
    }
    (q, m)
}

/// A 16-bit two's-complement value read as a signed integer.
pub open spec fn signed16(v: u16) -> int {
    if v >= 0x8000 {
        v - 0x10000
    } else {
        v as int
    }
}

/// The signed wheel movement of a wheelMovement event: int16 big-endian in
/// parameters 1 and 2.
pub open spec fn wheel_delta_of(raw: Seq<u8>) -> int {
    signed16((param_of(raw, 1) as int * 256 + param_of(raw, 2) as int) as u16)
}

/// Read the signed movement of a wheelMovement event.
pub fn wheel_delta(rep: &Report) -> (r: i32)
    ensures
        r == wheel_delta_of(rep@),
        -0x8000 <= r < 0x8000,
{
    let v = be16(rep.param(1), rep.param(2));
    let r = v as i16 as i32;
    assert(v as i16 as i32 == (if v >= 0x8000 { v - 0x10000 } else { v as int })) by (bit_vector);
    r
}

/// The hi-res multiplier to scale by: what getWheelCapability reported when it
/// answered with a non-zero multiplier, else 8.
pub fn wheel_multiplier(capability: Option<(u8, u8)>) -> (r: i32)
    ensures
        r == (match capability {
            Some((m, _)) if m > 0 => m as i32,
            _ => DEFAULT_MULTIPLIER,
        }),
        0 < r <= 255,
{
    match capability {
        Some((m, _)) if m > 0 => m as i32,
        _ => DEFAULT_MULTIPLIER,
    }
}

/// The setMode byte for the configured high-resolution and invert settings.
/// High resolution implies the target bit.
pub fn hires_mode(hires: bool, invert: bool) -> (r: u8)
    ensures
        r == (if hires { MODE_HIRES + MODE_TARGET } else { 0 }) + (if invert { MODE_INVERT } else { 0 }),
        hires ==> r & MODE_TARGET != 0,
{
    let mut mode = 0u8;
    if hires {
        mode = mode | MODE_HIRES | MODE_TARGET;
    }
    if invert {
        mode = mode | MODE_INVERT;
    }
    assert(0u8 | 2u8 | 1u8 == 3u8) by (bit_vector);
    assert(3u8 | 4u8 == 7u8) by (bit_vector);
    assert(0u8 | 4u8 == 4u8) by (bit_vector);
    assert(3u8 & 1u8 != 0u8) by (bit_vector);
    assert(7u8 & 1u8 != 0u8) by (bit_vector);
    mode
}

/// The mode that hands the wheel back to the OS: the current invert bit kept,
/// hi-res and the divert dropped. An unreadable mode counts as 0.
pub fn restored_mode(current: Option<u8>) -> (r: u8)
    ensures
        r == (match current {
            Some(m) => m & MODE_INVERT,
            None => 0,
        }),
        r & MODE_TARGET == 0,
        r & MODE_HIRES == 0,
{
    let m = match current {
        Some(m) => m,
        None => 0,
    };
    let r = m & MODE_INVERT;
    assert((m & 4u8) & 1u8 == 0u8) by (bit_vector);
    assert((m & 4u8) & 2u8 == 0u8) by (bit_vector);
    assert(0u8 & 4u8 == 0u8) by (bit_vector);
    r
}

/// The state the wheel filter keeps between diverted wheel reports.
pub struct WheelFilter {
    /// Left-over hi-res units not yet worth a whole Windows unit.
    pub remainder: i32,
    /// Movement held back so far, waiting to clear the deadzone.
    pub pending: i32,
    /// The direction the current gesture is scrolling in: 0, -1 or 1.
    pub direction: i32,
    /// When the last wheel report arrived, in milliseconds of a monotonic
    /// clock.
    pub last_event_ms: Option<u64>,
}

/// Whether a report at `now_ms` starts a fresh gesture.
pub open spec fn is_idle(last: Option<u64>, now_ms: u64) -> bool {
    match last {
        None => true,
        Some(t) => now_ms < t || now_ms - t >= IDLE_MS,
    }
}

impl WheelFilter {
    /// The filter's state stays within what any report can produce: held
    /// movement and the carry are under one byte's worth, the direction is a
    /// sign.
    pub open spec fn wf(&self) -> bool {
        &&& -256 < self.pending < 256
        &&& -256 < self.remainder < 256
        &&& -1 <= self.direction <= 1
    }

    /// A filter that has seen nothing yet.
    pub fn new() -> (r: WheelFilter)
        ensures
            r.wf(),
            r == (WheelFilter { remainder: 0, pending: 0, direction: 0, last_event_ms: None }),
    {
        WheelFilter { remainder: 0, pending: 0, direction: 0, last_event_ms: None }
    }

    /// Drop the carried remainder (the wheel mode was just set).
    pub fn reset_remainder(&mut self)
        requires
            old(self).wf(),
        ensures
            *final(self) == (WheelFilter { remainder: 0, ..*old(self) }),
            final(self).wf(),
    {
        self.remainder = 0;
    }

    /// The filter after the idle check at `now_ms`: a fresh gesture forgets
    /// the direction, what was held and the carry.
    pub open spec fn after_idle_check(self, now_ms: u64) -> WheelFilter {
        if is_idle(self.last_event_ms, now_ms) {
            WheelFilter { remainder: 0, pending: 0, direction: 0, last_event_ms: Some(now_ms) }
        } else {
            WheelFilter { last_event_ms: Some(now_ms), ..self }
        }
    }

    /// `(movement to scroll with, filter after)` for a report of `delta`.
    pub open spec fn deadzone_outcome(self, delta: int, deadzone: u8, now_ms: u64) -> (
        Option<int>,
        WheelFilter,
    ) {
        let base = self.after_idle_check(now_ms);
        let r = deadzone_result(delta, deadzone as int, base.pending as int, base.direction as int);
        (r.0, WheelFilter { pending: r.1 as i32, direction: r.2 as i32, ..base })
    }

    /// Filter out the wheel twitching under a resting finger. Returns the
    /// movement to scroll with, or `None` to swallow it.
    pub fn pass_deadzone(&mut self, delta: i32, deadzone: u8, now_ms: u64) -> (r: Option<i32>)
        requires
            old(self).wf(),
            -0x8000 <= delta < 0x8000,
        ensures
            (opt_int(r), *final(self)) == old(self).deadzone_outcome(delta as int, deadzone, now_ms),
            final(self).wf(),
            r matches Some(e) ==> -0x8100 < e < 0x8100,
    {
        let idle = match self.last_event_ms {
            None => true,
            Some(t) => now_ms < t || now_ms - t >= IDLE_MS,
        };
        self.last_event_ms = Some(now_ms);
        if idle {
            // A fresh gesture: make it prove itself again.
            self.direction = 0;
            self.pending = 0;
            self.remainder = 0;
        }
        let (emit, pending, dir) = deadzone_step(delta, deadzone as i32, self.pending, self.direction);
        self.pending = pending;
        self.direction = dir;
        emit
    }

    /// `(units to inject, filter after)` for a diverted wheel report.
    pub open spec fn wheel_outcome(self, raw: Seq<u8>, mult: int, deadzone: u8, now_ms: u64) -> (
        Option<int>,
        WheelFilter,
    ) {
        if function_of(raw) != 0 || wheel_delta_of(raw) == 0 {
            (None, self)
        } else {
            let (emit, after) = self.deadzone_outcome(wheel_delta_of(raw), deadzone, now_ms);
            match emit {
                None => (None, after),
                Some(e) => {
                    let scaled = e * WHEEL_DELTA + carried(e, after.remainder as int);
                    (
                        Some(trunc_div(scaled, mult)),
                        WheelFilter { remainder: trunc_rem(scaled, mult) as i32, ..after },
                    )
                },
            }
        }
    }

    /// Handle a diverted wheelMovement event: returns the Windows wheel units
    /// to inject, or `None` when nothing is to be scrolled (a ratchet event, no
    /// movement, or movement held by the deadzone).
    pub fn on_wheel_event(&mut self, rep: &Report, mult: i32, deadzone: u8, now_ms: u64) -> (r:
        Option<i32>)
        requires
            old(self).wf(),
            0 < mult <= 255,
        ensures
            (opt_int(r), *final(self)) == old(self).wheel_outcome(rep@, mult as int, deadzone, now_ms),
            final(self).wf(),
            r matches Some(out) ==> ({
                let mid = old(self).deadzone_outcome(wheel_delta_of(rep@), deadzone, now_ms);
                &&& mid.0 matches Some(e) && out * mult + final(self).remainder == e * 120 + carried(
                    e,
                    mid.1.remainder as int,
                )
                &&& abs(final(self).remainder as int) < mult
            }),
    {
        proof {
            lemma_wheel_units_add_up(*old(self), rep@, mult as int, deadzone, now_ms);
        }
        // 0x2121 also raises event 1 (ratchetSwitch); only event 0 carries
        // movement.
        if rep.function() != 0 {
            return None;
        }
        let delta = wheel_delta(rep);
        if delta == 0 {
            return None;
        }
        let delta = match self.pass_deadzone(delta, deadzone, now_ms) {
            Some(d) => d,
            None => return None,
        };
        proof {
            lemma_scale_conserves(delta as int, mult as int, self.remainder as int);
        }
        let (out, remainder) = scale_step(delta, mult, self.remainder);
        self.remainder = remainder;
        Some(out)
    }
}

/// The held total after feeding `deltas` through the deadzone in turn, starting
/// from nothing held and no direction: `(anything emitted?, pending, direction)`.
pub open spec fn deadzone_run(deltas: Seq<int>, deadzone: int) -> (bool, int, int)
    decreases deltas.len(),
{
    if deltas.len() == 0 {
        (false, 0, 0)
    } else {
        let (emitted, pending, dir) = deadzone_run(deltas.drop_last(), deadzone);
        let r = deadzone_result(deltas.last(), deadzone, pending, dir);
        (emitted || r.0 is Some, r.1, r.2)
    }
}

pub open spec fn sum(deltas: Seq<int>) -> int
    decreases deltas.len(),
{
    if deltas.len() == 0 {
        0
    } else {
        sum(deltas.drop_last()) + deltas.last()
    }
}

/// Held-back movement is never discarded: when a step adds `delta` to what is
/// held, what it emits plus what it still holds is exactly the old hold plus
/// `delta`. Held movement always stays under the deadzone, and anything
/// released from the hold has reached it.
pub proof fn lemma_deadzone_keeps_held_movement(delta: int, deadzone: int, pending: int, dir: int)
    requires
        accumulates(delta, deadzone, dir),
    ensures
        ({
            let r = deadzone_result(delta, deadzone, pending, dir);
            &&& match r.0 {
                Some(e) => e + r.1 == pending + delta && abs(e) >= deadzone && r.1 == 0,
                None => r.1 == pending + delta && abs(r.1) < deadzone,
            }
        }),
{
}

/// A scroll in progress is never clipped: with the filter on, movement in the
/// established direction comes out unchanged and the direction holds.
pub proof fn lemma_deadzone_never_clips_a_scroll(delta: int, deadzone: int, pending: int, dir: int)
    requires
        deadzone > 0,
        dir == 1 || dir == -1,
        sgn(delta) == dir,
    ensures
        deadzone_result(delta, deadzone, pending, dir) == (Some(delta), 0int, dir),
{
}

/// A finger rocking the wheel never scrolls: starting a gesture with nothing
/// held, if the running total of the movement stays under the deadzone at
/// every step, nothing is emitted, the whole total is held, and no direction
/// is established.
pub proof fn lemma_rocking_never_scrolls(deltas: Seq<int>, deadzone: int)
    requires
        deadzone > 0,
        forall|k: int| 0 <= k <= deltas.len() ==> abs(#[trigger] sum(deltas.take(k))) < deadzone,
    ensures
        deadzone_run(deltas, deadzone) == (false, sum(deltas), 0int),
    decreases deltas.len(),
{
    if deltas.len() > 0 {
        let init = deltas.drop_last();
        assert forall|k: int| 0 <= k <= init.len() implies abs(#[trigger] sum(init.take(k)))
            < deadzone by {
            assert(init.take(k) =~= deltas.take(k));
        }
        lemma_rocking_never_scrolls(init, deadzone);
        assert(deltas.take(deltas.len() as int) =~= deltas);
    }
}

/// The scale step conserves movement: `out * mult + remainder` is exactly the
/// scaled movement plus the carry. The new remainder is smaller than one unit
/// and never points against the movement it came from.
pub proof fn lemma_scale_conserves(delta: int, mult: int, remainder: int)
    requires
        mult > 0,
    ensures
        ({
            let scaled = delta * 120 + carried(delta, remainder);
            let out = trunc_div(scaled, mult);
            let rem = trunc_rem(scaled, mult);
            &&& out * mult + rem == scaled
            &&& abs(rem) < mult
            &&& scaled >= 0 ==> 0 <= rem
            &&& scaled <= 0 ==> rem <= 0
        }),
{
    let scaled = delta * 120 + carried(delta, remainder);
    lemma_trunc_bounds(scaled, mult);
}

proof fn lemma_trunc_bounds(a: int, b: int)
    requires
        b > 0,
    ensures
        trunc_div(a, b) * b + trunc_rem(a, b) == a,
        a >= 0 ==> 0 <= trunc_rem(a, b) < b,
        a <= 0 ==> -b < trunc_rem(a, b) <= 0,
{
    if a >= 0 {
        assert(0 <= a % b < b) by (nonlinear_arith)
            requires
                b > 0,
        ;
        assert(a == b * (a / b) + a % b) by (nonlinear_arith)
            requires
                b > 0,
        ;
    } else {
        let na = -a;
        assert(0 <= na % b < b) by (nonlinear_arith)
            requires
                b > 0,
        ;
        assert(na == b * (na / b) + na % b) by (nonlinear_arith)
            requires
                b > 0,
        ;
        assert(trunc_rem(a, b) == -(na % b)) by (nonlinear_arith)
            requires
                b > 0,
                na == -a,
                trunc_div(a, b) == -(na / b),
                trunc_rem(a, b) == a - b * trunc_div(a, b),
                na == b * (na / b) + na % b,
        ;
    }
    assert(trunc_div(a, b) * b == b * trunc_div(a, b)) by (nonlinear_arith);
}

/// A multiplier that divides a whole notch never leaves a remainder behind:
/// from a clean start every report scales to a whole number of units.
pub proof fn lemma_dividing_multiplier_is_exact(delta: int, mult: int)
    requires
        mult > 0,
        120int % mult == 0,
    ensures
        trunc_rem(delta * 120 + carried(delta, 0), mult) == 0,
        trunc_div(delta * 120 + carried(delta, 0), mult) * mult == delta * 120,
{
    let k = 120int / mult;
    assert(120 == mult * k) by (nonlinear_arith)
        requires
            mult > 0,
            120int % mult == 0,
            k == 120int / mult,
    ;
    assert(carried(delta, 0) == 0);
    let a = delta * 120;
    assert(a == mult * (delta * k)) by (nonlinear_arith)
        requires
            120 == mult * k,
            a == delta * 120,
    ;
    if a >= 0 {
        assert(delta * k >= 0) by (nonlinear_arith)
            requires
                mult > 0,
                a >= 0,
                a == mult * (delta * k),
        ;
        vstd::arithmetic::div_mod::lemma_div_multiples_vanish(delta * k, mult);
        assert(a / mult == delta * k);
    } else {
        assert(-a == mult * (-(delta * k))) by (nonlinear_arith)
            requires
                a == mult * (delta * k),
        ;
        assert(-(delta * k) >= 0) by (nonlinear_arith)
            requires
                mult > 0,
                -a > 0,
                -a == mult * (-(delta * k)),
        ;
        vstd::arithmetic::div_mod::lemma_div_multiples_vanish(-(delta * k), mult);
        assert((-a) / mult == -(delta * k));
    }
    assert(trunc_div(a, mult) == delta * k);
    vstd::arithmetic::mul::lemma_mul_is_associative(delta, k, mult);
    vstd::arithmetic::mul::lemma_mul_is_commutative(k, mult);
}

/// `(total emitted, remainder)` after feeding same-direction `deltas` through
/// the scale step from remainder `rem0`.
pub open spec fn scale_run(deltas: Seq<int>, mult: int, rem0: int) -> (int, int)
    decreases deltas.len(),
{
    if deltas.len() == 0 {
        (0, rem0)
    } else {
        let (total, rem) = scale_run(deltas.drop_last(), mult, rem0);
        let scaled = deltas.last() * 120 + carried(deltas.last(), rem);
        (total + trunc_div(scaled, mult), trunc_rem(scaled, mult))
    }
}

/// A slow scroll is not quantised away: over a run of movement in one
/// direction (downward here), the units emitted add up to exactly the whole
/// scaled movement divided by the multiplier, with what is left carried.
pub proof fn lemma_slow_scroll_adds_up(deltas: Seq<int>, mult: int, rem0: int)
    requires
        mult > 0,
        0 <= rem0 < mult,
        forall|k: int| 0 <= k < deltas.len() ==> #[trigger] deltas[k] > 0,
    ensures
        scale_run(deltas, mult, rem0).0 * mult + scale_run(deltas, mult, rem0).1 == 120 * sum(
            deltas,
        ) + rem0,
        0 <= scale_run(deltas, mult, rem0).1 < mult,
        scale_run(deltas, mult, rem0).0 == (120 * sum(deltas) + rem0) / mult,
    decreases deltas.len(),
{
    if deltas.len() > 0 {
        let init = deltas.drop_last();
        assert forall|k: int| 0 <= k < init.len() implies #[trigger] init[k] > 0 by {
            assert(init[k] == deltas[k]);
        }
        lemma_slow_scroll_adds_up(init, mult, rem0);
        let (total, rem) = scale_run(init, mult, rem0);
        let d = deltas.last();
        assert(d > 0);
        assert(carried(d, rem) == rem);
        let scaled = d * 120 + rem;
        lemma_trunc_bounds(scaled, mult);
        let q = trunc_div(scaled, mult);
        assert((total + q) * mult == total * mult + q * mult) by (nonlinear_arith);
        assert(sum(deltas) == sum(init) + d);
        assert(120 * sum(deltas) == 120 * sum(init) + 120 * d) by (nonlinear_arith)
            requires
                sum(deltas) == sum(init) + d,
        ;
    }
    let (t, r) = scale_run(deltas, mult, rem0);
    let n = 120 * sum(deltas) + rem0;
    vstd::arithmetic::div_mod::lemma_fundamental_div_mod_converse(n, mult, t, r);
}

/// A diverted wheel report is scaled, not passed through: when the deadzone
/// lets movement `e` through and `c` is the remainder it carries, the units
/// emitted times the multiplier plus the new remainder are exactly
/// `e * 120 + c`, with the remainder under one unit. So a whole detent of
/// `mult` increments with nothing carried comes out as exactly one notch of
/// 120 units.
pub proof fn lemma_wheel_units_add_up(f: WheelFilter, raw: Seq<u8>, mult: int, deadzone: u8, now_ms: u64)
    requires
        f.wf(),
        0 < mult <= 255,
    ensures
        ({
            let (out, after) = f.wheel_outcome(raw, mult, deadzone, now_ms);
            let mid = f.deadzone_outcome(wheel_delta_of(raw), deadzone, now_ms);
            out matches Some(o) ==> {
                &&& mid.0 matches Some(e) && o * mult + after.remainder == e * 120 + carried(
                    e,
                    mid.1.remainder as int,
                )
                &&& abs(after.remainder as int) < mult
                &&& (mid.0 == Some(mult) && carried(mult, mid.1.remainder as int) == 0) ==> o == 120
                    && after.remainder == 0
            }
        }),
{
    let (out, after) = f.wheel_outcome(raw, mult, deadzone, now_ms);
    let mid = f.deadzone_outcome(wheel_delta_of(raw), deadzone, now_ms);
    if function_of(raw) == 0 && wheel_delta_of(raw) != 0 {
        if let Some(e) = mid.0 {
            let c = carried(e, mid.1.remainder as int);
            lemma_scale_conserves(e, mult, mid.1.remainder as int);
            let scaled = e * 120 + c;
            let o = trunc_div(scaled, mult);
            let rem = trunc_rem(scaled, mult);
            if e == mult && c == 0 {
                assert(o == 120 && rem == 0) by (nonlinear_arith)
                    requires
                        o * mult + rem == mult * 120,
                        0 <= rem < mult,
                        mult > 0,
                ;
            }
        }
    }
}

} // verus!
