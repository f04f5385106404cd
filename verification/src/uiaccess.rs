//! The optional wheel-only UIAccess helper: its handshake and the queue that
//! feeds it.
//!
//! The helper is a separate executable with no config parser, HID access,
//! keyboard injection or user-facing UI. It announces readiness with one line
//! only after Windows granted it UIAccess; the resident trusts it only then.
//! Starting it, reading its handshake and writing deltas to its pipe are the
//! program's job.

pub mod wire;

use crate::channel::{try_send, Signal};
use crossbeam_channel::Sender;
use vstd::prelude::*;

verus! {

/// The helper's executable, next to the resident's.
pub const HELPER_EXE: &'static str = "mushak-uiaccess-helper.exe";

/// The line the helper writes once it holds UIAccess.
pub const READY_LINE: &'static str = "MUSHAK_UIACCESS_WHEEL_V1";

/// How many wheel deltas may wait for the helper.
pub const QUEUE_CAPACITY: usize = 256;

/// Unicode `White_Space`, as `char::is_whitespace` documents it.
pub open spec fn is_white_space(c: char) -> bool {
    let v = c as u32;
    (0x09 <= v <= 0x0D) || v == 0x20 || v == 0x85 || v == 0xA0 || v == 0x1680 || (0x2000 <= v
        <= 0x200A) || v == 0x2028 || v == 0x2029 || v == 0x202F || v == 0x205F || v == 0x3000
}

/// `s` without trailing white space (`str::trim_end`).
pub open spec fn trim_end_of(s: Seq<char>) -> Seq<char>
    decreases s.len(),
{
    if s.len() > 0 && is_white_space(s.last()) {
        trim_end_of(s.drop_last())
    } else {
        s
    }
}

fn white_space(c: char) -> (r: bool)
    ensures
        r == is_white_space(c),
{
    let v = c as u32;
    (0x09 <= v && v <= 0x0D) || v == 0x20 || v == 0x85 || v == 0xA0 || v == 0x1680 || (0x2000 <= v
        && v <= 0x200A) || v == 0x2028 || v == 0x2029 || v == 0x202F || v == 0x205F || v == 0x3000
}

/// Whether the helper's first line is the readiness announcement (trailing
/// white space, such as the line break, aside).
pub fn handshake_ok(line: &str) -> (r: bool)
    ensures
        r == (trim_end_of(line@) == READY_LINE@),
{
    let mut end = line.unicode_len();
    assert(line@.take(line@.len() as int) =~= line@);
    while end > 0 && white_space(line.get_char(end - 1))
        invariant
            end <= line@.len(),
            trim_end_of(line@) == trim_end_of(line@.take(end as int)),
        decreases end,
    {
        assert(line@.take(end as int).drop_last() =~= line@.take(end - 1));
        end = end - 1;
    }
    let ghost kept = line@.take(end as int);
    assert(trim_end_of(kept) == kept);
    let ready = READY_LINE;
    let n = ready.unicode_len();
    if end != n {
        assert(kept.len() != ready@.len());
        return false;
    }
    let mut i: usize = 0;
    while i < n
        invariant
            n == ready@.len(),
            ready@ == READY_LINE@,
            end == n,
            end <= line@.len(),
            kept == line@.take(end as int),
            trim_end_of(line@) == kept,
            i <= n,
            forall|k: int| 0 <= k < i ==> kept[k] == ready@[k],
        decreases n - i,
    {
        if line.get_char(i) != ready.get_char(i) {
            assert(kept[i as int] != ready@[i as int]);
            return false;
        }
        i = i + 1;
    }
    assert(kept =~= ready@);
    true
}

/// Whether the broker must drop the current helper session after a hand-off:
/// exactly when the delta could not be queued, so a stuck or gone helper is
/// restarted rather than trusted further.
pub fn restart_needed(queued: bool) -> (r: bool)
    ensures
        r == !queued,
{
    !queued
}

/// Queue one already-scaled Windows wheel delta for the helper without
/// blocking the HID thread. `false` means the caller must fail closed to
/// native device input; the helper is then also asked to restart.
pub fn wheel(tx: Option<&Sender<i32>>, reset_helper: &Signal, delta: i32) -> (queued: bool)
    ensures
        queued ==> tx is Some,
{
    let queued = match tx {
        Some(t) => try_send(t, delta),
        None => false,
    };
    if restart_needed(queued) {
        reset_helper.raise();
    }
    queued
}

/// Ask the broker thread to stop at its next check.
pub fn request_stop(shutdown: &Signal) {
    shutdown.raise();
}

} // verus!
