//! The helper's side of the pipe: how a wheel delta travels (four bytes,
//! little-endian two's complement), which deltas it accepts, and its rate
//! limit. Any violation makes the helper exit rather than widen what it does.

use vstd::prelude::*;

verus! {

/// 64 standard notches in one report is already far beyond physical use while
/// still allowing a fast free-spin burst. Anything larger is malformed.
pub const MAX_ABS_DELTA: i32 = 7680;

/// At most this many deltas are accepted in any one-second window.
pub const MAX_MESSAGES_PER_SECOND: u32 = 2000;

/// The rate limit's window, in milliseconds.
pub const RATE_WINDOW_MS: u64 = 1000;

/// The 32-bit two's-complement pattern of `v`.
pub open spec fn bits_of(v: int) -> int {
    if v >= 0 {
        v
    } else {
        v + 0x1_0000_0000
    }
}

/// The signed value of a 32-bit pattern.
pub open spec fn signed_of(u: int) -> int {
    if u >= 0x8000_0000 {
        u - 0x1_0000_0000
    } else {
        u
    }
}

/// The four little-endian bytes of a 32-bit pattern.
pub open spec fn le_bytes_of(u: int) -> Seq<u8> {
    seq![(u % 256) as u8, ((u / 256) % 256) as u8, ((u / 65536) % 256) as u8, (u / 16777216) as u8]
}

/// The 32-bit pattern four little-endian bytes spell.
pub open spec fn le_value(b: Seq<u8>) -> int {
    b[0] + b[1] * 256 + b[2] * 65536 + b[3] * 16777216
}

/// The bytes the resident writes for one delta (`i32::to_le_bytes`).
pub fn encode_delta(delta: i32) -> (r: [u8; 4])
    ensures
        r@ == le_bytes_of(bits_of(delta as int)),
{
    let u: u32 = if delta >= 0 {
        delta as u32
    } else {
        ((delta as i64) + 0x1_0000_0000i64) as u32
    };
    let r = [(u % 256) as u8, ((u / 256) % 256) as u8, ((u / 65536) % 256) as u8, (u / 16777216) as u8];
    assert(r@ =~= le_bytes_of(bits_of(delta as int)));
    r
}

/// The delta the helper reads from four bytes (`i32::from_le_bytes`).
pub fn decode_delta(bytes: [u8; 4]) -> (r: i32)
    ensures
        r as int == signed_of(le_value(bytes@)),
{
    let u: u64 = bytes[0] as u64 + bytes[1] as u64 * 256 + bytes[2] as u64 * 65536 + bytes[3] as u64 * 16777216;
    if u >= 0x8000_0000 {
        (u as i64 - 0x1_0000_0000i64) as i32
    } else {
        u as i32
    }
}

/// What the resident writes is what the helper reads: decoding the encoded
/// bytes gives the delta back.
pub proof fn lemma_delta_round_trip(delta: i32)
    ensures
        signed_of(le_value(le_bytes_of(bits_of(delta as int)))) == delta,
{
    let u = bits_of(delta as int);
    assert(0 <= u < 0x1_0000_0000);
    let b = le_bytes_of(u);
    assert(le_value(b) == u) by (nonlinear_arith)
        requires
            0 <= u < 0x1_0000_0000,
            b[0] == u % 256,
            b[1] == (u / 256) % 256,
            b[2] == (u / 65536) % 256,
            b[3] == u / 16777216,
    ;
}

pub open spec fn acceptable(delta: int) -> bool {
    delta != 0 && -7680 <= delta <= 7680
}

/// A delta the helper forwards: non-zero and at most 64 notches either way.
pub fn valid_delta(delta: i32) -> (r: bool)
    ensures
        r == acceptable(delta as int),
{
    delta != 0 && -MAX_ABS_DELTA <= delta && delta <= MAX_ABS_DELTA
}

/// The helper's rate-limit window: when it started and how many deltas it
/// has taken.
pub struct RateWindow {
    pub start_ms: u64,
    pub messages: u32,
}

impl RateWindow {
    pub open spec fn wf(&self) -> bool {
        self.messages <= MAX_MESSAGES_PER_SECOND
    }

    /// A window starting at `now_ms` with nothing taken.
    pub fn new(now_ms: u64) -> (r: RateWindow)
        ensures
            r.wf(),
            r.start_ms == now_ms,
            r.messages == 0,
    {
        RateWindow { start_ms: now_ms, messages: 0 }
    }

    /// Count one delta arriving at `now_ms`, starting a new window once a
    /// second has passed. Returns whether it is within the limit; the helper
    /// exits at the first delta that is not.
    pub fn accept(&mut self, now_ms: u64) -> (r: bool)
        requires
            old(self).wf(),
        ensures
            ({
                let fresh = now_ms >= old(self).start_ms && now_ms - old(self).start_ms >= RATE_WINDOW_MS;
                let start = if fresh {
                    now_ms
                } else {
                    old(self).start_ms
                };
                let taken = if fresh {
                    0
                } else {
                    old(self).messages as int
                } + 1;
                &&& r == (taken <= MAX_MESSAGES_PER_SECOND)
                &&& final(self).start_ms == start
                &&& r ==> final(self).messages == taken
                &&& !r ==> final(self).messages == MAX_MESSAGES_PER_SECOND
            }),
            final(self).wf(),
    {
        if now_ms >= self.start_ms && now_ms - self.start_ms >= RATE_WINDOW_MS {
            self.start_ms = now_ms;
            self.messages = 0;
        }
        if self.messages < MAX_MESSAGES_PER_SECOND {
            self.messages = self.messages + 1;
            true
        } else {
            false
        }
    }
}

} // verus!
