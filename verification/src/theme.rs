//! The colours of the light and dark themes.
use vstd::prelude::*;

verus! {

/// An opaque colour.
#[derive(Clone, Copy, Debug, PartialEq, Eq, Structural)]
pub struct Rgb {
    pub r: u8,
    pub g: u8,
    pub b: u8,
}

/// The fills of the adaptive theme.
#[derive(Clone, Copy, Debug, PartialEq, Eq, Structural)]
pub struct Palette {
    pub panel_fill: Rgb,
    pub extreme_bg: Rgb,
    pub window_fill: Rgb,
    pub selection_bg: Rgb,
    /// The stroke around a selection: white on the dark theme, black on
    /// the light one.
    pub selection_stroke: Rgb,
}

/// The palette of the dark theme.
pub open spec fn dark_palette() -> Palette {
    Palette {
        panel_fill: Rgb { r: 20, g: 25, b: 33 },
        extreme_bg: Rgb { r: 13, g: 17, b: 24 },
        window_fill: Rgb { r: 20, g: 25, b: 33 },
        selection_bg: Rgb { r: 50, g: 108, b: 170 },
        selection_stroke: Rgb { r: 255, g: 255, b: 255 },
    }
}

/// The palette of the light theme.
pub open spec fn light_palette() -> Palette {
    Palette {
        panel_fill: Rgb { r: 252, g: 253, b: 255 },
        extreme_bg: Rgb { r: 238, g: 243, b: 250 },
        window_fill: Rgb { r: 252, g: 253, b: 255 },
        selection_bg: Rgb { r: 120, g: 176, b: 243 },
        selection_stroke: Rgb { r: 0, g: 0, b: 0 },
    }
}

/// The palette for the theme in use.
pub fn adaptive_palette(dark_mode: bool) -> (p: Palette)
    ensures
        p == (if dark_mode { dark_palette() } else { light_palette() }),
{
    if dark_mode {
        Palette {
            panel_fill: Rgb { r: 20, g: 25, b: 33 },
            extreme_bg: Rgb { r: 13, g: 17, b: 24 },
            window_fill: Rgb { r: 20, g: 25, b: 33 },
            selection_bg: Rgb { r: 50, g: 108, b: 170 },
            selection_stroke: Rgb { r: 255, g: 255, b: 255 },
        }
    } else {
        Palette {
            panel_fill: Rgb { r: 252, g: 253, b: 255 },
            extreme_bg: Rgb { r: 238, g: 243, b: 250 },
            window_fill: Rgb { r: 252, g: 253, b: 255 },
            selection_bg: Rgb { r: 120, g: 176, b: 243 },
            selection_stroke: Rgb { r: 0, g: 0, b: 0 },
        }
    }
}

} // verus!
