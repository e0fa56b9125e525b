//! Colors of the settings window (Catppuccin Mocha), as 0xRRGGBB values.

use vstd::prelude::*;

verus! {

/// Catppuccin Mocha color tokens for custom UI elements.
pub struct HideIconsTheme;

impl HideIconsTheme {
    /// Background: Catppuccin Mocha mantle #181825
    pub fn background() -> (r: u32)
        ensures
            r == 0x181825,
    {
        0x181825
    }

    /// Surface: Catppuccin Mocha surface0 #302d41
    pub fn surface() -> (r: u32)
        ensures
            r == 0x302d41,
    {
        0x302d41
    }

    /// Border: Catppuccin Mocha surface1 #313244
    pub fn border() -> (r: u32)
        ensures
            r == 0x313244,
    {
        0x313244
    }

    /// Primary accent: Catppuccin Mocha blue #89b4fa
    pub fn primary() -> (r: u32)
        ensures
            r == 0x89b4fa,
    {
        0x89b4fa
    }

    /// Primary hover: Catppuccin Mocha sapphire #74c7ec
    pub fn primary_hover() -> (r: u32)
        ensures
            r == 0x74c7ec,
    {
        0x74c7ec
    }

    /// Text primary: Catppuccin Mocha text #cdd6f4
    pub fn text_primary() -> (r: u32)
        ensures
            r == 0xcdd6f4,
    {
        0xcdd6f4
    }

    /// Text secondary: Catppuccin Mocha overlay0 #6c7086
    pub fn text_secondary() -> (r: u32)
        ensures
            r == 0x6c7086,
    {
        0x6c7086
    }
}

} // verus!
