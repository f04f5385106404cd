//! A small set of Windows virtual-key codes used by the default config and the
//! action presets.

use vstd::prelude::*;

verus! {

pub const TAB: u16 = 0x09;

pub const ENTER: u16 = 0x0D;

pub const ESCAPE: u16 = 0x1B;

pub const LEFT: u16 = 0x25;

pub const UP: u16 = 0x26;

pub const RIGHT: u16 = 0x27;

pub const DOWN: u16 = 0x28;

pub const VOLUME_MUTE: u16 = 0xAD;

pub const VOLUME_DOWN: u16 = 0xAE;

pub const VOLUME_UP: u16 = 0xAF;

pub const MEDIA_NEXT: u16 = 0xB0;

pub const MEDIA_PREV: u16 = 0xB1;

pub const MEDIA_STOP: u16 = 0xB2;

pub const MEDIA_PLAY_PAUSE: u16 = 0xB3;

pub const BROWSER_BACK: u16 = 0xA6;

pub const BROWSER_FORWARD: u16 = 0xA7;

/// The ASCII upper-case of a byte.
pub open spec fn ascii_upper(c: u8) -> u8 {
    if 97 <= c <= 122 {
        (c - 32) as u8
    } else {
        c
    }
}

/// 'A'..='Z' == 0x41..=0x5A, '0'..='9' == 0x30..=0x39: the key code of a
/// letter or digit, either case.
pub fn letter(c: u8) -> (r: u16)
    ensures
        r == ascii_upper(c),
{
    if 97 <= c && c <= 122 {
        (c - 32) as u16
    } else {
        c as u16
    }
}

} // verus!
