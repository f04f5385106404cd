//! Feature 0x0003 DEVICE_INFO: firmware version string.

use crate::hidpp::protocol::{be16, be16_of, param_of, Report};
use crate::text::{hex_fixed, push_char, push_hex_fixed, push_str, empty_string};
use vstd::prelude::*;

verus! {

/// A getDeviceInfo reply: the number of firmware entities.
pub fn parse_entity_count(rep: &Report) -> (r: u8)
    ensures
        r == param_of(rep@, 0),
{
    rep.param(0)
}

/// Whether a getFwInfo reply describes the main application firmware (type
/// 0 in the low nibble of parameter 0).
pub fn is_main_firmware(fw: &Report) -> (r: bool)
    ensures
        r == (param_of(fw@, 0) % 16 == 0),
{
    let t = fw.param(0);
    assert(t & 0x0Fu8 == t % 16) by (bit_vector);
    t & 0x0F == 0
}

/// A byte that prints as a visible ASCII character.
pub open spec fn is_ascii_graphic(b: u8) -> bool {
    0x21 <= b <= 0x7E
}

/// The name character a byte contributes: itself when visible ASCII.
pub open spec fn name_char(b: u8) -> Seq<char> {
    if is_ascii_graphic(b) {
        seq![b as char]
    } else {
        Seq::empty()
    }
}

/// `"{name} {major:02x}.{minor:02x}.B{build:04x}"` for a getFwInfo reply:
/// the name from parameters 1..=3 (visible ASCII only), then major, minor
/// and build.
pub open spec fn firmware_text(raw: Seq<u8>) -> Seq<char> {
    name_char(param_of(raw, 1)) + name_char(param_of(raw, 2)) + name_char(param_of(raw, 3)) + " "@
        + hex_fixed(param_of(raw, 4) as nat, 2) + "."@ + hex_fixed(param_of(raw, 5) as nat, 2)
        + ".B"@ + hex_fixed(be16_of(raw, 6) as nat, 4)
}

fn push_name_char(s: &mut String, b: u8)
    ensures
        final(s)@ == old(s)@ + name_char(b),
{
    if 0x21 <= b && b <= 0x7E {
        push_char(s, b as char);
    } else {
        assert(old(s)@ + name_char(b) =~= old(s)@);
    }
}

/// Format the main-application firmware version of a getFwInfo reply, e.g.
/// `"MPM 12.02.B0009"`.
pub fn firmware_string(fw: &Report) -> (r: String)
    ensures
        r@ == firmware_text(fw@),
{
    let mut s = empty_string();
    push_name_char(&mut s, fw.param(1));
    push_name_char(&mut s, fw.param(2));
    push_name_char(&mut s, fw.param(3));
    push_str(&mut s, " ");
    push_hex_fixed(&mut s, fw.param(4) as u32, 2);
    push_str(&mut s, ".");
    push_hex_fixed(&mut s, fw.param(5) as u32, 2);
    push_str(&mut s, ".B");
    let build = be16(fw.param(6), fw.param(7));
    push_hex_fixed(&mut s, build as u32, 4);
    assert(s@ =~= firmware_text(fw@));
    s
}

} // verus!
