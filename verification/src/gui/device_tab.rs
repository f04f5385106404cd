//! The Device section's readings: feature names, the DPI slider's range, and
//! how feature ids print.

use crate::text::{hex_fixed, push_hex_fixed};
use vstd::prelude::*;

verus! {

pub open spec fn feature_name_of(id: u16) -> Seq<char> {
    if id == 0x0000 {
        "Root"@
    } else if id == 0x0001 {
        "Feature set"@
    } else if id == 0x0003 {
        "Device information"@
    } else if id == 0x0005 {
        "Device name"@
    } else if id == 0x1000 {
        "Battery status"@
    } else if id == 0x1001 {
        "Battery voltage"@
    } else if id == 0x1814 {
        "Change host"@
    } else if id == 0x1b04 {
        "Reprogrammable controls v4"@
    } else if id == 0x1982 {
        "Backlight"@
    } else if id == 0x2100 {
        "Vertical scrolling"@
    } else if id == 0x2110 {
        "SmartShift"@
    } else if id == 0x2121 {
        "Hi-res wheel"@
    } else if id == 0x2201 {
        "Adjustable DPI"@
    } else if id == 0x2205 {
        "Pointer motion"@
    } else {
        "Unknown"@
    }
}

/// Names for the HID++ features Mushak knows about (the published status
/// only carries ids and indices).
pub fn feature_name(id: u16) -> (r: &'static str)
    ensures
        r@ == feature_name_of(id),
{
    match id {
        0x0000 => "Root",
        0x0001 => "Feature set",
        0x0003 => "Device information",
        0x0005 => "Device name",
        0x1000 => "Battery status",
        0x1001 => "Battery voltage",
        0x1814 => "Change host",
        0x1b04 => "Reprogrammable controls v4",
        0x1982 => "Backlight",
        0x2100 => "Vertical scrolling",
        0x2110 => "SmartShift",
        0x2121 => "Hi-res wheel",
        0x2201 => "Adjustable DPI",
        0x2205 => "Pointer motion",
        _ => "Unknown",
    }
}

/// The DPI slider's bounds: the device's lowest and highest supported values
/// when it reported a real range, else 200..=4000.
pub open spec fn dpi_slider_range_of(list: Seq<u16>) -> (u16, u16) {
    if list.len() > 0 && list.last() > list[0] {
        (list[0], list.last())
    } else {
        (200, 4000)
    }
}

pub fn dpi_slider_range(dpi_list: &Vec<u16>) -> (r: (u16, u16))
    ensures
        r == dpi_slider_range_of(dpi_list@),
        r.0 < r.1,
{
    let n = dpi_list.len();
    if n > 0 && dpi_list[n - 1] > dpi_list[0] {
        (dpi_list[0], dpi_list[n - 1])
    } else {
        (200, 4000)
    }
}

/// The configured DPI as the slider shows it: held within its bounds.
pub fn slider_dpi(dpi: u16, range: (u16, u16)) -> (r: u16)
    requires
        range.0 <= range.1,
    ensures
        r == (if dpi < range.0 {
            range.0
        } else if dpi > range.1 {
            range.1
        } else {
            dpi
        }),
        range.0 <= r <= range.1,
{
    if dpi < range.0 {
        range.0
    } else if dpi > range.1 {
        range.1
    } else {
        dpi
    }
}

/// A feature id as `{id:#06x}` prints it.
pub fn feature_id_text(id: u16) -> (r: String)
    ensures
        r@ == "0x"@ + hex_fixed(id as nat, 4),
{
    let mut s = "0x".to_owned();
    push_hex_fixed(&mut s, id as u32, 4);
    s
}

} // verus!
