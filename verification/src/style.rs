//! The look of the application's push buttons.
//!
//! Colours are given in tenths of full intensity and lengths in whole pixels,
//! so that a style is plain integer data; the presentation layer turns it
//! into the toolkit's own style value.

use vstd::prelude::*;

verus! {

/// An opaque colour; each channel runs from 0 (none) to 10 (full).
#[derive(Clone, Copy, Debug, PartialEq, Eq, Structural)]
pub struct Tint {
    pub red: u8,
    pub green: u8,
    pub blue: u8,
}

/// A displacement in whole pixels, to the right and downwards.
#[derive(Clone, Copy, Debug, PartialEq, Eq, Structural)]
pub struct Shift {
    pub right: u16,
    pub down: u16,
}

/// What the style sheet fixes of a button's appearance. Everything it does
/// not mention keeps the toolkit's default. The shadow is given as a shift,
/// in pixels, away from the toolkit's default shadow offset.
#[derive(Clone, Copy, Debug, PartialEq, Eq, Structural)]
pub struct ButtonStyle {
    pub background: Tint,
    pub border_radius: u16,
    pub text_color: Tint,
    pub shadow_shift: Shift,
}

/// The style sheet of the application's buttons.
#[derive(Clone, Copy, Debug, PartialEq, Eq, Structural)]
pub struct Button;

/// The resting look: a blue background, rounded corners and white text.
pub open spec fn active_style() -> ButtonStyle {
    ButtonStyle {
        background: Tint { red: 2, green: 2, blue: 7 },
        border_radius: 8,
        text_color: Tint { red: 10, green: 10, blue: 10 },
        shadow_shift: Shift { right: 0, down: 0 },
    }
}

/// The look under the pointer: the resting look with its shadow one pixel lower.
pub open spec fn hovered_style() -> ButtonStyle {
    ButtonStyle {
        shadow_shift: Shift {
            right: active_style().shadow_shift.right,
            down: (active_style().shadow_shift.down + 1) as u16,
        },
        ..active_style()
    }
}

impl Button {
    /// The style of a button at rest.
    pub fn active(&self) -> (style: ButtonStyle)
        ensures
            style == active_style(),
    {
        ButtonStyle {
            background: Tint { red: 2, green: 2, blue: 7 },
            border_radius: 8,
            text_color: Tint { red: 10, green: 10, blue: 10 },
            shadow_shift: Shift { right: 0, down: 0 },
        }
    }

    /// The style of a button under the pointer: that of [`Button::active`],
    /// its shadow moved down by one pixel.
    pub fn hovered(&self) -> (style: ButtonStyle)
        ensures
            style == hovered_style(),
    {
        let active = self.active();
        ButtonStyle {
            shadow_shift: Shift {
                right: active.shadow_shift.right,
                down: active.shadow_shift.down + 1,
            },
            ..active
        }
    }
}

} // verus!
