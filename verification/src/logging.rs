//! A hex-dump helper for raw HID++ traffic in the logs.

use crate::text::{empty_string, hex_fixed, push_char, push_hex_fixed};
use vstd::prelude::*;

verus! {

/// The bytes as two-digit lower-case hex, separated by single spaces, e.g.
/// `10 01 00 5a`.
pub open spec fn hex_text(bytes: Seq<u8>) -> Seq<char>
    decreases bytes.len(),
{
    if bytes.len() == 0 {
        Seq::empty()
    } else if bytes.len() == 1 {
        hex_fixed(bytes[0] as nat, 2)
    } else {
        hex_text(bytes.drop_last()) + seq![' '] + hex_fixed(bytes.last() as nat, 2)
    }
}

/// Format a byte slice as a compact hex string, e.g. `10 01 00 5a`.
pub fn hex(bytes: &[u8]) -> (r: String)
    ensures
        r@ == hex_text(bytes@),
{
    let mut s = empty_string();
    let mut i: usize = 0;
    while i < bytes.len()
        invariant
            i <= bytes.len(),
            s@ == hex_text(bytes@.take(i as int)),
        decreases bytes.len() - i,
    {
        let ghost before = s@;
        if i > 0 {
            push_char(&mut s, ' ');
        }
        push_hex_fixed(&mut s, bytes[i] as u32, 2);
        proof {
            let t = bytes@.take(i + 1);
            assert(t.drop_last() =~= bytes@.take(i as int));
            assert(t.last() == bytes@[i as int]);
            if i == 0 {
                assert(s@ =~= hex_text(t));
            } else {
                assert(s@ =~= hex_text(t));
            }
        }
        i = i + 1;
    }
    assert(bytes@.take(bytes.len() as int) =~= bytes@);
    s
}

} // verus!
