//! The window's theme and accent choices. The colour palettes themselves are
//! floating-point paint values and stay with the drawing code.

use vstd::prelude::*;

verus! {

/// Which palette the settings window paints with.
#[derive(Debug, Clone, Copy, PartialEq, Eq, Structural)]
pub enum Theme {
    Dark,
    Light,
}

impl Default for Theme {
    fn default() -> (r: Self)
        ensures
            r == Theme::Dark,
    {
        Theme::Dark
    }
}

pub open spec fn toggled_spec(t: Theme) -> Theme {
    match t {
        Theme::Dark => Theme::Light,
        Theme::Light => Theme::Dark,
    }
}

impl Theme {
    /// The other theme.
    pub fn toggled(self) -> (r: Self)
        ensures
            r == toggled_spec(self),
            r != self,
    {
        match self {
            Theme::Dark => Theme::Light,
            Theme::Light => Theme::Dark,
        }
    }
}

/// Toggling the theme twice gives back the theme it started from.
pub proof fn lemma_toggle_twice(t: Theme)
    ensures
        toggled_spec(toggled_spec(t)) == t,
{
}

/// Accent options the design exposes. Vermilion is the default.
#[derive(Debug, Clone, Copy, PartialEq, Eq, Structural)]
pub enum Accent {
    Vermilion,
    Marigold,
    Blue,
    Green,
}

impl Default for Accent {
    fn default() -> (r: Self)
        ensures
            r == Accent::Vermilion,
    {
        Accent::Vermilion
    }
}

pub open spec fn accent_rgb(a: Accent) -> u32 {
    match a {
        Accent::Vermilion => 0xe5533c,
        Accent::Marigold => 0xf2a73b,
        Accent::Blue => 0x6f9bd1,
        Accent::Green => 0x8bb87a,
    }
}

impl Accent {
    /// The accent colour as `0xRRGGBB`.
    pub fn rgb(self) -> (r: u32)
        ensures
            r == accent_rgb(self),
    {
        match self {
            Accent::Vermilion => 0xe5533c,
            Accent::Marigold => 0xf2a73b,
            Accent::Blue => 0x6f9bd1,
            Accent::Green => 0x8bb87a,
        }
    }
}

} // verus!
