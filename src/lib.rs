//! Client-side window decorations in the style of GNOME's Adwaita: a title
//! bar with close, maximize and minimize buttons, and resize borders.
//!
//! The library decides everything that is not drawing or protocol work:
//! `buttons` lays the window buttons out and hit-tests them, `locate` tells
//! which part of the decorations a pointer is over, `frame` holds the window
//! state and turns pointer events into requests, `theme` holds the colors,
//! and `render` plans, in device pixels, what each decoration part shows.
use vstd::prelude::*;

pub mod theme;
pub mod buttons;
pub mod locate;
pub mod frame;
pub mod render;

use crate::buttons::ButtonKind;

verus! {

/// The part of the decorations that a pointer is over (`Outside` when it is
/// over none of them).
#[derive(Clone, Copy, Debug, PartialEq, Eq, Structural)]
pub enum Location {
    Outside,
    Head,
    Top,
    TopRight,
    Right,
    BottomRight,
    Bottom,
    BottomLeft,
    Left,
    TopLeft,
    Button(ButtonKind),
}

} // verus!
