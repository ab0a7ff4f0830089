use crate::ppu::Shade;
use vstd::prelude::*;

verus! {

/// An RGB color handed to the host screen.
#[derive(Clone, Copy, Debug, PartialEq, Eq, Structural)]
pub struct Color {
    pub red: u8,
    pub green: u8,
    pub blue: u8,
}

/// The fixed mapping from the four gray shades to host colors.
#[derive(Clone, Copy, Debug, PartialEq, Eq, Structural)]
pub struct ColorPalette {
    pub lightest: Color,
    pub light: Color,
    pub dark: Color,
    pub darkest: Color,
}

impl ColorPalette {
    /// The classic green tint of the original handheld.
    pub fn original_green() -> (r: ColorPalette)
        ensures
            r == ColorPalette::spec_original_green(),
    {
        ColorPalette {
            lightest: Color { red: 224, green: 248, blue: 208 },
            light: Color { red: 136, green: 192, blue: 112 },
            dark: Color { red: 52, green: 104, blue: 86 },
            darkest: Color { red: 8, green: 24, blue: 32 },
        }
    }

    pub open spec fn spec_original_green() -> ColorPalette {
        ColorPalette {
            lightest: Color { red: 224, green: 248, blue: 208 },
            light: Color { red: 136, green: 192, blue: 112 },
            dark: Color { red: 52, green: 104, blue: 86 },
            darkest: Color { red: 8, green: 24, blue: 32 },
        }
    }

    pub open spec fn spec_color(self, shade: Shade) -> Color {
        match shade {
            Shade::Lightest => self.lightest,
            Shade::Light => self.light,
            Shade::Dark => self.dark,
            Shade::Darkest => self.darkest,
        }
    }

    /// The color a background pixel of the given shade shows as.
    pub fn background(&self, shade: Shade) -> (r: Color)
        ensures
            r == self.spec_color(shade),
    {
        match shade {
            Shade::Lightest => self.lightest,
            Shade::Light => self.light,
            Shade::Dark => self.dark,
            Shade::Darkest => self.darkest,
        }
    }

    /// The color a sprite pixel of the given shade shows as.
    pub fn sprite(&self, shade: Shade) -> (r: Color)
        ensures
            r == self.spec_color(shade),
    {
        self.background(shade)
    }
}

} // verus!
