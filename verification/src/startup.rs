//! "Start with Windows".
//!
//! There are two mechanisms, picked at runtime. The unpackaged executable
//! writes the per-user Run registry value; a packaged (MSIX) build toggles the
//! manifest-declared `StartupTask` instead, because inside a package the
//! executable must be launched through package activation and Run-key
//! autostart is rejected. The two are mutually exclusive, so [`set`] picks by
//! whether the process has package identity. Touching the registry and the
//! WinRT API is the program's job.

use crate::text::{empty_string, push_char, push_str};
use vstd::prelude::*;

verus! {

/// The per-user Run key.
pub const RUN_KEY: &'static str = "Software\\Microsoft\\Windows\\CurrentVersion\\Run";

/// The value written under the Run key.
pub const VALUE_NAME: &'static str = "Mushak";

/// Must match the `TaskId` of the `windows.startupTask` extension in the
/// package manifest; if they drift, enabling start-with-Windows silently does
/// nothing in the packaged build.
pub const STARTUP_TASK_ID: &'static str = "MushakStartup";

/// How launching at logon is switched.
#[derive(Debug, Clone, Copy, PartialEq, Eq, Structural)]
pub enum Mechanism {
    /// The manifest-declared WinRT `StartupTask` (packaged builds).
    StartupTask,
    /// The per-user Run registry value (unpackaged builds).
    RunKey,
}

/// What to do to enable or disable launching at logon.
#[derive(Debug, Clone, Copy, PartialEq, Eq, Structural)]
pub struct StartupChange {
    pub mechanism: Mechanism,
    pub enabled: bool,
}

/// Enable or disable launching this app at user logon: the change to make,
/// by the mechanism that fits how the program was installed.
pub fn set(enabled: bool, packaged: bool) -> (r: StartupChange)
    ensures
        r.enabled == enabled,
        r.mechanism == (if packaged {
            Mechanism::StartupTask
        } else {
            Mechanism::RunKey
        }),
{
    let mechanism = if packaged {
        Mechanism::StartupTask
    } else {
        Mechanism::RunKey
    };
    StartupChange { mechanism, enabled }
}

/// The Run value's data: the executable's path in double quotes.
pub fn run_value(exe: &str) -> (r: String)
    ensures
        r@ == seq!['"'] + exe@ + seq!['"'],
{
    let mut s = empty_string();
    push_char(&mut s, '"');
    push_str(&mut s, exe);
    push_char(&mut s, '"');
    assert(s@ =~= seq!['"'] + exe@ + seq!['"']);
    s
}

/// The UTF-16 code units of one character.
pub open spec fn utf16_units(c: char) -> Seq<u16> {
    let v = c as int;
    if v < 0x10000 {
        seq![v as u16]
    } else {
        seq![(0xD800 + (v - 0x10000) / 0x400) as u16, (0xDC00 + (v - 0x10000) % 0x400) as u16]
    }
}

/// The UTF-16 encoding of a string.
pub open spec fn utf16_of(s: Seq<char>) -> Seq<u16>
    decreases s.len(),
{
    if s.len() == 0 {
        Seq::empty()
    } else {
        utf16_of(s.drop_last()) + utf16_units(s.last())
    }
}

/// Code units as little-endian bytes.
pub open spec fn le_bytes(units: Seq<u16>) -> Seq<u8>
    decreases units.len(),
{
    if units.len() == 0 {
        Seq::empty()
    } else {
        le_bytes(units.drop_last()) + seq![(units.last() % 256) as u8, (units.last() / 256) as u8]
    }
}

proof fn lemma_le_bytes_append(a: Seq<u16>, b: Seq<u16>)
    ensures
        le_bytes(a + b) == le_bytes(a) + le_bytes(b),
    decreases b.len(),
{
    if b.len() == 0 {
        assert(a + b =~= a);
        assert(le_bytes(b) =~= Seq::<u8>::empty());
        assert(le_bytes(a) + le_bytes(b) =~= le_bytes(a));
    } else {
        lemma_le_bytes_append(a, b.drop_last());
        assert((a + b).drop_last() =~= a + b.drop_last());
        assert((a + b).last() == b.last());
        assert(le_bytes(a + b) =~= le_bytes(a) + le_bytes(b));
    }
}

proof fn lemma_le_bytes_one(u: u16)
    ensures
        le_bytes(seq![u]) == seq![(u % 256) as u8, (u / 256) as u8],
{
    assert(seq![u].drop_last() =~= Seq::<u16>::empty());
    assert(le_bytes(Seq::<u16>::empty()) =~= Seq::<u8>::empty());
    assert(le_bytes(seq![u]) =~= seq![(u % 256) as u8, (u / 256) as u8]);
}

fn push_unit(out: &mut Vec<u8>, u: u16)
    ensures
        final(out)@ == old(out)@ + seq![(u % 256) as u8, (u / 256) as u8],
{
    out.push((u % 256) as u8);
    out.push((u / 256) as u8);
    assert(out@ =~= old(out)@ + seq![(u % 256) as u8, (u / 256) as u8]);
}

/// UTF-16LE bytes of `s` with a terminating NUL, as a `REG_SZ` value holds
/// them.
pub fn to_wide_bytes(s: &str) -> (r: Vec<u8>)
    ensures
        r@ == le_bytes(utf16_of(s@).push(0)),
{
    let n = s.unicode_len();
    let mut out: Vec<u8> = Vec::new();
    let mut i: usize = 0;
    while i < n
        invariant
            n == s@.len(),
            i <= n,
            out@ == le_bytes(utf16_of(s@.take(i as int))),
        decreases n - i,
    {
        let c = s.get_char(i);
        let v = c as u32;
        let ghost before = utf16_of(s@.take(i as int));
        if v < 0x10000 {
            push_unit(&mut out, v as u16);
        } else {
            let w = v - 0x10000;
            push_unit(&mut out, (0xD800 + w / 0x400) as u16);
            push_unit(&mut out, (0xDC00 + w % 0x400) as u16);
        }
        proof {
            assert(s@.take(i + 1).drop_last() =~= s@.take(i as int));
            assert(s@.take(i + 1).last() == c);
            lemma_le_bytes_append(before, utf16_units(c));
            if v < 0x10000 {
                lemma_le_bytes_one(v as u16);
            } else {
                let hi = (0xD800 + (v - 0x10000) / 0x400) as u16;
                let lo = (0xDC00 + (v - 0x10000) % 0x400) as u16;
                lemma_le_bytes_one(hi);
                lemma_le_bytes_one(lo);
                lemma_le_bytes_append(seq![hi], seq![lo]);
                assert(utf16_units(c) =~= seq![hi] + seq![lo]);
            }
        }
        i = i + 1;
    }
    assert(s@.take(n as int) =~= s@);
    let ghost body = utf16_of(s@);
    push_unit(&mut out, 0);
    proof {
        lemma_le_bytes_append(body, seq![0u16]);
        assert(body.push(0) =~= body + seq![0u16]);
        lemma_le_bytes_one(0u16);
    }
    out
}

} // verus!
