use vstd::prelude::*;

verus! {

/// Thickness of the resize borders, in logical pixels.
pub const BORDER_SIZE: u32 = 10;

/// Height of the title bar below the top border, in logical pixels.
pub const HEADER_SIZE: u32 = 35;

/// Radius of the rounded top corners of the title bar, in logical pixels.
pub const CORNER_RADIUS: u32 = 10;

/// Gray level of the line between the title bar and the window, the same
/// whether or not the window has focus.
pub const SEPARATOR_GRAY: u8 = 220;

/// A straight (not premultiplied) 8-bit RGBA color.
#[derive(Clone, Copy, Debug, PartialEq, Eq, Structural)]
pub struct Rgba {
    pub r: u8,
    pub g: u8,
    pub b: u8,
    pub a: u8,
}

/// An opaque gray level.
pub fn gray(v: u8) -> (c: Rgba)
    ensures
        c == (Rgba { r: v, g: v, b: v, a: 255 }),
{
    Rgba { r: v, g: v, b: v, a: 255 }
}

/// Glyph and background colors of one window button.
#[derive(Clone, Copy, Debug, PartialEq, Eq, Structural)]
pub struct ButtonColors {
    pub icon: Rgba,
    pub icon_hover: Rgba,
    pub icon_pressed: Rgba,
    pub fill: Rgba,
    pub fill_hover: Rgba,
    pub fill_pressed: Rgba,
}

impl ButtonColors {
    pub open spec fn holds(self, c: Rgba) -> bool {
        c == self.icon || c == self.icon_hover || c == self.icon_pressed || c == self.fill
            || c == self.fill_hover || c == self.fill_pressed
    }
}

/// The palette used for one activation state of the window.
#[derive(Clone, Copy, Debug, PartialEq, Eq, Structural)]
pub struct ColorSet {
    /// Accent line of the borders and the separator under the title bar.
    pub border: Rgba,
    /// Background of the title bar.
    pub headerbar: Rgba,
    pub close: ButtonColors,
    pub maximize: ButtonColors,
    pub minimize: ButtonColors,
    /// Glyph of a button that cannot be used.
    pub icon_disabled: Rgba,
}

impl ColorSet {
    /// `c` is one of the colors of this palette.
    pub open spec fn holds(self, c: Rgba) -> bool {
        c == self.border || c == self.headerbar || self.close.holds(c) || self.maximize.holds(c)
            || self.minimize.holds(c) || c == self.icon_disabled
    }
}

/// The two palettes of the decorations, picked by whether the window has focus.
#[derive(Clone, Copy, Debug, PartialEq, Eq, Structural)]
pub struct ColorTheme {
    pub active: ColorSet,
    pub inactive: ColorSet,
}

pub open spec fn gray_spec(v: u8) -> Rgba {
    Rgba { r: v, g: v, b: v, a: 255 }
}

pub open spec fn button_colors_spec(icon: u8, icon_hover: u8, icon_pressed: u8, fill: u8, fill_hover: u8, fill_pressed: u8) -> ButtonColors {
    ButtonColors {
        icon: gray_spec(icon),
        icon_hover: gray_spec(icon_hover),
        icon_pressed: gray_spec(icon_pressed),
        fill: gray_spec(fill),
        fill_hover: gray_spec(fill_hover),
        fill_pressed: gray_spec(fill_pressed),
    }
}

pub open spec fn active_set_spec() -> ColorSet {
    ColorSet {
        border: gray_spec(190),
        headerbar: gray_spec(235),
        close: button_colors_spec(42, 30, 15, 216, 207, 196),
        maximize: button_colors_spec(42, 30, 15, 216, 207, 196),
        minimize: button_colors_spec(42, 30, 15, 216, 207, 196),
        icon_disabled: gray_spec(160),
    }
}

pub open spec fn inactive_set_spec() -> ColorSet {
    ColorSet {
        border: gray_spec(215),
        headerbar: gray_spec(250),
        close: button_colors_spec(148, 128, 110, 244, 238, 230),
        maximize: button_colors_spec(148, 128, 110, 244, 238, 230),
        minimize: button_colors_spec(148, 128, 110, 244, 238, 230),
        icon_disabled: gray_spec(200),
    }
}

/// The light theme of the decorations.
pub open spec fn adwaita_spec() -> ColorTheme {
    ColorTheme { active: active_set_spec(), inactive: inactive_set_spec() }
}

fn button_colors(icon: u8, icon_hover: u8, icon_pressed: u8, fill: u8, fill_hover: u8, fill_pressed: u8) -> (b: ButtonColors)
    ensures
        b == button_colors_spec(icon, icon_hover, icon_pressed, fill, fill_hover, fill_pressed),
{
    ButtonColors {
        icon: gray(icon),
        icon_hover: gray(icon_hover),
        icon_pressed: gray(icon_pressed),
        fill: gray(fill),
        fill_hover: gray(fill_hover),
        fill_pressed: gray(fill_pressed),
    }
}

impl ColorTheme {
    /// The light theme.
    pub fn adwaita() -> (t: ColorTheme)
        ensures
            t == adwaita_spec(),
    {
        ColorTheme {
            active: ColorSet {
                border: gray(190),
                headerbar: gray(235),
                close: button_colors(42, 30, 15, 216, 207, 196),
                maximize: button_colors(42, 30, 15, 216, 207, 196),
                minimize: button_colors(42, 30, 15, 216, 207, 196),
                icon_disabled: gray(160),
            },
            inactive: ColorSet {
                border: gray(215),
                headerbar: gray(250),
                close: button_colors(148, 128, 110, 244, 238, 230),
                maximize: button_colors(148, 128, 110, 244, 238, 230),
                minimize: button_colors(148, 128, 110, 244, 238, 230),
                icon_disabled: gray(200),
            },
        }
    }

    /// The palette for the given activation state.
    pub fn colors(&self, activated: bool) -> (c: ColorSet)
        ensures
            c == self.colors_spec(activated),
    {
        if activated {
            self.active
        } else {
            self.inactive
        }
    }

    pub open spec fn colors_spec(self, activated: bool) -> ColorSet {
        if activated {
            self.active
        } else {
            self.inactive
        }
    }
}

impl Default for ColorTheme {
    fn default() -> (t: ColorTheme)
        ensures
            t == adwaita_spec(),
    {
        ColorTheme::adwaita()
    }
}

/// The light theme's palettes for a focused and an unfocused window share no color.
pub proof fn lemma_adwaita_palettes_disjoint()
    ensures
        forall|c: Rgba| !(#[trigger] adwaita_spec().active.holds(c) && adwaita_spec().inactive.holds(c)),
{
}

} // verus!
